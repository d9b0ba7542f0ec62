//! Keeps the host from closing or redirecting the standard output and the
//! standard error.

use vstd::prelude::*;
use crate::patches::{HookRequest, PatchHook};
use crate::platform::Platform;

verus! {

/// The descriptor of the standard output.
pub const STDOUT_FILENO: i32 = 1;

/// The descriptor of the standard error.
pub const STDERR_FILENO: i32 = 2;

/// What a suppressed call on a descriptor or a stream returns: success.
pub const F_OK: i32 = 0;

/// What a suppressed closing of a handle returns: success.
pub const HANDLE_CLOSED: i32 = 1;

/// The symbols to hook. On Windows the hook needs the handles of the two
/// streams; where they cannot be had nothing is hooked.
pub open spec fn wanted(platform: Platform, handles_known: bool) -> Seq<
    (Seq<char>, bool, PatchHook),
> {
    match platform {
        Platform::Windows => if handles_known {
            seq![("CloseHandle"@, true, PatchHook::CloseHandle)]
        } else {
            Seq::empty()
        },
        _ => seq![
            ("dup2"@, true, PatchHook::DuplicateDescriptor),
            ("fclose"@, true, PatchHook::CloseStream),
        ],
    }
}

/// The symbols to hook, in the order of hooking.
pub fn requests(platform: Platform, handles_known: bool) -> (list: Vec<HookRequest>)
    ensures
        crate::patches::requests_view(list@) == wanted(platform, handles_known),
{
    let mut list: Vec<HookRequest> = Vec::new();
    match platform {
        Platform::Windows => {
            if handles_known {
                list.push(
                    HookRequest { symbol: "CloseHandle", required: true, hook: PatchHook::CloseHandle },
                );
            }
        },
        _ => {
            list.push(
                HookRequest { symbol: "dup2", required: true, hook: PatchHook::DuplicateDescriptor },
            );
            list.push(
                HookRequest { symbol: "fclose", required: true, hook: PatchHook::CloseStream },
            );
        },
    }
    assert(crate::patches::requests_view(list@) =~= wanted(platform, handles_known));
    list
}

/// What the hook answers when the host duplicates a descriptor onto
/// `newfd`: success without doing anything where `newfd` is the standard
/// output or the standard error, and `None`, which passes the call on,
/// for every other descriptor.
pub fn on_dup2(newfd: i32) -> (answer: Option<i32>)
    ensures
        answer == (if newfd == STDOUT_FILENO || newfd == STDERR_FILENO {
            Some(F_OK)
        } else {
            None
        }),
{
    if newfd == STDOUT_FILENO || newfd == STDERR_FILENO {
        Some(F_OK)
    } else {
        None
    }
}

/// What the hook answers when the host closes a stream: success without
/// doing anything where the stream is the standard output or the standard
/// error, and `None`, which passes the call on, for every other stream.
pub fn on_fclose(is_stdout: bool, is_stderr: bool) -> (answer: Option<i32>)
    ensures
        answer == (if is_stdout || is_stderr {
            Some(F_OK)
        } else {
            None
        }),
{
    if is_stdout || is_stderr {
        Some(F_OK)
    } else {
        None
    }
}

/// What the hook answers when the host closes a handle: success without
/// doing anything where the handle is that of the standard output or of the
/// standard error, and `None`, which passes the call on, for every other
/// handle.
pub fn on_close_handle(is_stdout: bool, is_stderr: bool) -> (answer: Option<i32>)
    ensures
        answer == (if is_stdout || is_stderr {
            Some(HANDLE_CLOSED)
        } else {
            None
        }),
{
    if is_stdout || is_stderr {
        Some(HANDLE_CLOSED)
    } else {
        None
    }
}

} // verus!
