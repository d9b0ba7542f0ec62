//! The configuration file, parsed by the `ini` crate.

use vstd::prelude::*;

verus! {

/// A parsed configuration file.
#[verifier::external_type_specification]
#[verifier::external_body]
pub struct ExIni(ini::Ini);

/// The keys and values of one section.
#[verifier::external_type_specification]
#[verifier::external_body]
pub struct ExProperties(ini::Properties);

/// Why a configuration file could not be parsed.
#[verifier::external_type_specification]
#[verifier::external_body]
pub struct ExParseError(ini::ParseError);

/// A document as the values its sections give for their keys.
pub type Sections = Map<Seq<char>, Map<Seq<char>, Seq<char>>>;

/// What `Ini::load_from_str_noescape` makes of a text: the sections of the
/// document, or `None` where the text is refused.
pub uninterp spec fn ini_document(text: Seq<char>) -> Option<Sections>;

/// The named sections of a parsed document, each as the values that
/// `Properties::get` finds in the section `Ini::section` gives for the name.
pub uninterp spec fn ini_sections(document: ini::Ini) -> Sections;

/// The values that `Properties::get` finds in a section, by key.
pub uninterp spec fn properties_values(section: ini::Properties) -> Map<Seq<char>, Seq<char>>;

/// The value a document gives for `key` in `section`.
pub open spec fn document_value(document: Sections, section: Seq<char>, key: Seq<char>) -> Option<
    Seq<char>,
> {
    if document.contains_key(section) && document[section].contains_key(key) {
        Some(document[section][key])
    } else {
        None
    }
}

/// Calls `Ini::load_from_str_noescape`, which parses `text` without taking
/// a backslash for an escape. The sections of the document it returns are
/// those that [`ini_document`] names for the text; it fails exactly where
/// that name is `None`.
#[verifier::external_body]
pub(crate) fn parse(text: &str) -> (parsed: Result<ini::Ini, ini::ParseError>)
    ensures
        match parsed {
            Ok(document) => ini_document(text@) == Some(ini_sections(document)),
            Err(_) => ini_document(text@) is None,
        },
{
    ini::Ini::load_from_str_noescape(text)
}

/// Calls `Ini::section` with a section name. It returns the section of that
/// name where the document has one, with the values [`ini_sections`] names
/// for it, and `None` where it has none.
#[verifier::external_body]
pub(crate) fn section<'a>(document: &'a ini::Ini, name: &str) -> (found: Option<
    &'a ini::Properties,
>)
    ensures
        match found {
            Some(properties) => ini_sections(*document).contains_key(name@) && ini_sections(
                *document,
            )[name@] == properties_values(*properties),
            None => !ini_sections(*document).contains_key(name@),
        },
{
    document.section(Some(name))
}

/// Calls `Properties::get`, which returns the first value the section holds
/// for `key`: the one [`properties_values`] names, and `None` where the
/// section has no such key.
#[verifier::external_body]
pub(crate) fn property<'a>(properties: &'a ini::Properties, key: &str) -> (found: Option<&'a str>)
    ensures
        match found {
            Some(value) => properties_values(*properties).contains_key(key@) && properties_values(
                *properties,
            )[key@] == value@,
            None => !properties_values(*properties).contains_key(key@),
        },
{
    properties.get(key)
}

} // verus!
