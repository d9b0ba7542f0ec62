//! Redirects the host's opening of its boot configuration to the file that
//! the settings name.

use vstd::prelude::*;
use crate::config::{Config, Settings};
use crate::environment::borrowed_text;
use crate::paths::{file_name, path_file_name};
use crate::patches::{HookRequest, PatchHook};
use crate::platform::Platform;
use crate::text::str_equal;

verus! {

/// The file opened in place of a file with the given name: the override of
/// the settings for the boot configuration, and nothing for any other file.
pub open spec fn replacement(settings: Settings, file_name: Option<Seq<char>>) -> Option<Seq<char>> {
    if file_name == Some("boot.config"@) {
        settings.boot_config_override
    } else {
        None
    }
}

/// The view of an optional borrowed owned text.
pub open spec fn borrowed_string(value: Option<&String>) -> Option<Seq<char>> {
    match value {
        Some(text) => Some(text@),
        None => None,
    }
}

/// The file to open in place of one whose file name is `file_name`.
pub fn override_for<'a>(file_name: Option<&str>, config: &'a Config) -> (path: Option<&'a String>)
    ensures
        borrowed_string(path) == replacement(config@, borrowed_text(file_name)),
{
    match file_name {
        Some(name) => {
            if str_equal(name, "boot.config") {
                config.boot_config_override.as_ref()
            } else {
                None
            }
        },
        None => None,
    }
}

/// The file to open in place of `path`, where the host is about to open
/// `path`.
pub fn try_override<'a>(path: &str, config: &'a Config) -> (replaced: Option<&'a String>)
    ensures
        borrowed_string(replaced) == replacement(config@, path_file_name(path@)),
{
    let name = file_name(path);
    match &name {
        Some(name) => override_for(Some(name.as_str()), config),
        None => override_for(None, config),
    }
}

/// The symbols to hook for the override. Without an override none is
/// hooked. On Windows the one function that opens files must be there;
/// elsewhere either of the two that open streams may be missing.
pub open spec fn wanted(settings: Settings, platform: Platform) -> Seq<(Seq<char>, bool, PatchHook)> {
    if settings.boot_config_override is None {
        Seq::empty()
    } else {
        match platform {
            Platform::Windows => seq![("CreateFileW"@, true, PatchHook::CreateFile)],
            _ => seq![
                ("fopen"@, false, PatchHook::OpenStream),
                ("fopen64"@, false, PatchHook::OpenStream),
            ],
        }
    }
}

/// The symbols to hook for the override, in the order of hooking.
pub fn requests(config: &Config, platform: Platform) -> (list: Vec<HookRequest>)
    ensures
        crate::patches::requests_view(list@) == wanted(config@, platform),
{
    let mut list: Vec<HookRequest> = Vec::new();
    if config.boot_config_override.is_some() {
        match platform {
            Platform::Windows => {
                list.push(
                    HookRequest { symbol: "CreateFileW", required: true, hook: PatchHook::CreateFile },
                );
            },
            _ => {
                list.push(
                    HookRequest { symbol: "fopen", required: false, hook: PatchHook::OpenStream },
                );
                list.push(
                    HookRequest { symbol: "fopen64", required: false, hook: PatchHook::OpenStream },
                );
            },
        }
    }
    assert(crate::patches::requests_view(list@) =~= wanted(config@, platform));
    list
}

} // verus!
