//! The launcher on the platforms that preload libraries: the hook library is
//! put in front of the libraries that every process loads.

use vstd::prelude::*;
use crate::platform::Platform;

verus! {

/// The variable through which the loader is told to load a library into
/// every process.
pub fn preload_variable(platform: Platform) -> (name: &'static str)
    ensures
        name@ == (match platform {
            Platform::MacOs => "DYLD_INSERT_LIBRARIES"@,
            _ => "LD_PRELOAD"@,
        }),
{
    match platform {
        Platform::MacOs => "DYLD_INSERT_LIBRARIES",
        _ => "LD_PRELOAD",
    }
}

/// The libraries to preload: the hook library before those that were to be
/// preloaded anyway.
pub open spec fn preload_list(library: Seq<char>, existing: Option<Seq<char>>) -> Seq<char> {
    match existing {
        Some(existing) => library + ":"@ + existing,
        None => library,
    }
}

/// The value of the preload variable with the hook library in front.
pub fn preload_value(library: &str, existing: Option<&str>) -> (value: String)
    ensures
        value@ == preload_list(library@, crate::environment::borrowed_text(existing)),
{
    let mut value = String::from_str(library);
    if let Some(existing) = existing {
        value.append(":");
        value.append(existing);
    }
    value
}

} // verus!
