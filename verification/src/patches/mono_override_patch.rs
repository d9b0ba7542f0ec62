//! Makes the host load the runtime library that the settings name in place
//! of its own.

use vstd::prelude::*;
use crate::config::{Config, Settings};
use crate::environment::borrowed_text;
use crate::paths::{file_name, path_file_name};
use crate::patches::boot_config_override_patch::borrowed_string;
use crate::patches::{HookRequest, PatchHook};
use crate::platform::Platform;
use crate::text::str_equal;

verus! {

/// Whether a file name is that of the runtime library. On Windows it is
/// `mono-2.0-bdwgc.dll` or `mono.dll`. Elsewhere it is the platform's name
/// for a library called `monobdwgc-2.0`, `mono` or `mono.0`.
pub open spec fn names_runtime(file_name: Seq<char>, platform: Platform) -> bool {
    match platform {
        Platform::Windows => file_name == "mono-2.0-bdwgc.dll"@ || file_name == "mono.dll"@,
        _ => {
            let prefix = platform.spec_library_prefix();
            let suffix = platform.spec_library_suffix();
            ||| file_name == prefix + "monobdwgc-2.0"@ + suffix
            ||| file_name == prefix + "mono"@ + suffix
            ||| file_name == prefix + "mono.0"@ + suffix
        },
    }
}

/// The library loaded in place of one with the given file name.
pub open spec fn replacement(settings: Settings, file_name: Option<Seq<char>>, platform: Platform) -> Option<
    Seq<char>,
> {
    match file_name {
        Some(name) => if names_runtime(name, platform) {
            settings.mono_override
        } else {
            None
        },
        None => None,
    }
}

/// Whether `file_name` is the platform's name for the library `library`.
fn is_library(file_name: &str, library: &str, platform: Platform) -> (is: bool)
    ensures
        is == (file_name@ == platform.spec_library_prefix() + library@
            + platform.spec_library_suffix()),
{
    let mut expected = String::from_str(platform.library_prefix());
    expected.append(library);
    expected.append(platform.library_suffix());
    str_equal(file_name, expected.as_str())
}

/// Whether `file_name` is the name of the runtime library.
pub fn is_runtime_library(file_name: &str, platform: Platform) -> (is: bool)
    ensures
        is == names_runtime(file_name@, platform),
{
    match platform {
        Platform::Windows => str_equal(file_name, "mono-2.0-bdwgc.dll") || str_equal(
            file_name,
            "mono.dll",
        ),
        _ => is_library(file_name, "monobdwgc-2.0", platform) || is_library(
            file_name,
            "mono",
            platform,
        ) || is_library(file_name, "mono.0", platform),
    }
}

/// The library to load in place of one whose file name is `file_name`.
pub fn override_for<'a>(file_name: Option<&str>, config: &'a Config, platform: Platform) -> (path:
    Option<&'a String>)
    ensures
        borrowed_string(path) == replacement(config@, borrowed_text(file_name), platform),
{
    match file_name {
        Some(name) => {
            if is_runtime_library(name, platform) {
                config.mono_override.as_ref()
            } else {
                None
            }
        },
        None => None,
    }
}

/// The library to load in place of `path`, where the host is about to load
/// `path`. The host may load without a path; nothing is replaced then.
pub fn try_override<'a>(path: Option<&str>, config: &'a Config, platform: Platform) -> (replaced:
    Option<&'a String>)
    ensures
        borrowed_string(replaced) == (match path {
            Some(path) => replacement(config@, path_file_name(path@), platform),
            None => None,
        }),
{
    match path {
        Some(path) => {
            let name = file_name(path);
            match &name {
                Some(name) => override_for(Some(name.as_str()), config, platform),
                None => override_for(None, config, platform),
            }
        },
        None => None,
    }
}

/// The symbols to hook for the override: the function that loads libraries,
/// which must be there. Without an override none is hooked.
pub open spec fn wanted(settings: Settings, platform: Platform) -> Seq<(Seq<char>, bool, PatchHook)> {
    if settings.mono_override is None {
        Seq::empty()
    } else {
        match platform {
            Platform::Windows => seq![("LoadLibraryW"@, true, PatchHook::LoadLibrary)],
            _ => seq![("dlopen"@, true, PatchHook::LoadLibrary)],
        }
    }
}

/// The symbols to hook for the override, in the order of hooking.
pub fn requests(config: &Config, platform: Platform) -> (list: Vec<HookRequest>)
    ensures
        crate::patches::requests_view(list@) == wanted(config@, platform),
{
    let mut list: Vec<HookRequest> = Vec::new();
    if config.mono_override.is_some() {
        match platform {
            Platform::Windows => {
                list.push(
                    HookRequest { symbol: "LoadLibraryW", required: true, hook: PatchHook::LoadLibrary },
                );
            },
            _ => {
                list.push(
                    HookRequest { symbol: "dlopen", required: true, hook: PatchHook::LoadLibrary },
                );
            },
        }
    }
    assert(crate::patches::requests_view(list@) =~= wanted(config@, platform));
    list
}

} // verus!
