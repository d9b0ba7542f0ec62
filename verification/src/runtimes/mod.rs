//! The bootstrap machines of the two runtime families, and what they have
//! in common.

pub mod il2cpp;
pub mod mono;

use vstd::prelude::*;
use crate::text::{hex_text, hex_upper};

verus! {

/// The type of the entrypoint.
pub open spec fn entrypoint_type() -> Seq<char> {
    "Doorstop.Entrypoint"@
}

/// The method of the entrypoint.
pub open spec fn entrypoint_method() -> Seq<char> {
    "Start"@
}

/// The entrypoint as a method description: its type, a colon, its method.
pub fn entrypoint() -> (description: String)
    ensures
        description@ == entrypoint_type() + ":"@ + entrypoint_method(),
{
    let mut description = String::from_str("Doorstop.Entrypoint");
    description.append(":");
    description.append("Start");
    description
}

/// The type and the method of the entrypoint.
pub fn entrypoint_names() -> (names: (&'static str, &'static str))
    ensures
        names.0@ == entrypoint_type(),
        names.1@ == entrypoint_method(),
{
    ("Doorstop.Entrypoint", "Start")
}

/// How far the bootstrap of a runtime has come.
#[derive(Clone, Copy, PartialEq, Eq, Structural, Debug)]
pub enum BootstrapState {
    Idle,
    RuntimeInitializing,
    RuntimeInitialized,
    EntrypointInvoked,
}

/// Why a bootstrap failed. Each of these ends the initialization.
#[derive(Debug)]
#[allow(inconsistent_fields)]
pub enum BootstrapError {
    /// The library of the hosting runtime could not be loaded.
    LibraryLoadFailure,
    /// A function that the runtime must export could not be found.
    BindingLoadFailure { symbol: String },
    /// The target assembly could not be opened.
    TargetAssemblyMissing,
    /// The entrypoint was not found in the target assembly; `code` is what
    /// the hosting runtime returned, where it is the one that looked.
    EntrypointNotFound { code: Option<i32> },
    /// The hosting runtime returned `code` from its initialization.
    RuntimeInitFailure { code: i32 },
    /// The entrypoint raised an exception; `text` is how the runtime writes
    /// it, where the runtime can.
    ManagedExceptionDuringEntrypoint { text: Option<String> },
}

/// A status code as the unsigned number with the same 32 bits.
pub open spec fn unsigned_code(code: i32) -> nat {
    if code >= 0 {
        code as nat
    } else {
        (code + 0x1_0000_0000) as nat
    }
}

/// A status code in brackets, in hexadecimal: ` (80004005)`.
pub open spec fn code_suffix(code: i32) -> Seq<char> {
    " ("@ + hex_text(unsigned_code(code)) + ")"@
}

impl BootstrapError {
    /// The cause in words.
    pub open spec fn spec_message(&self) -> Seq<char> {
        match self {
            BootstrapError::LibraryLoadFailure => "Failed to load the hosting library"@,
            BootstrapError::BindingLoadFailure { symbol } => "failed to get symbol `"@ + symbol@
                + "`"@,
            BootstrapError::TargetAssemblyMissing => "Failed to load target assembly"@,
            BootstrapError::EntrypointNotFound { code } => match code {
                Some(code) => "Failed to find entrypoint method in target assembly"@ + code_suffix(
                    *code,
                ),
                None => "Failed to find entrypoint method in target assembly"@,
            },
            BootstrapError::RuntimeInitFailure { code } => "Failed to initialize CoreCLR"@
                + code_suffix(*code),
            BootstrapError::ManagedExceptionDuringEntrypoint { text } => match text {
                Some(text) => "Failed to invoke entrypoint method"@ + ": "@ + text@,
                None => "Failed to invoke entrypoint method"@,
            },
        }
    }

    /// The cause in words, for the report to the user.
    pub fn message(&self) -> (text: String)
        ensures
            text@ == self.spec_message(),
    {
        match self {
            BootstrapError::LibraryLoadFailure => String::from_str(
                "Failed to load the hosting library",
            ),
            BootstrapError::BindingLoadFailure { symbol } => {
                let mut text = String::from_str("failed to get symbol `");
                text.append(symbol.as_str());
                text.append("`");
                text
            },
            BootstrapError::TargetAssemblyMissing => String::from_str(
                "Failed to load target assembly",
            ),
            BootstrapError::EntrypointNotFound { code } => {
                let mut text = String::from_str(
                    "Failed to find entrypoint method in target assembly",
                );
                if let Some(code) = code {
                    append_code(&mut text, *code);
                }
                text
            },
            BootstrapError::RuntimeInitFailure { code } => {
                let mut text = String::from_str("Failed to initialize CoreCLR");
                append_code(&mut text, *code);
                text
            },
            BootstrapError::ManagedExceptionDuringEntrypoint { text } => {
                let mut message = String::from_str("Failed to invoke entrypoint method");
                if let Some(text) = text {
                    message.append(": ");
                    message.append(text.as_str());
                    assert(message@ =~= "Failed to invoke entrypoint method"@ + ": "@ + text@);
                }
                message
            },
        }
    }
}

/// The unsigned number with the same 32 bits as `code`.
pub fn code_bits(code: i32) -> (bits: u32)
    ensures
        bits == unsigned_code(code),
{
    if code >= 0 {
        code as u32
    } else {
        let low: i32 = code + 0x7fff_ffff + 1;
        (low as u32) + 0x8000_0000u32
    }
}

/// Writes a status code in brackets behind a text.
fn append_code(text: &mut String, code: i32)
    ensures
        final(text)@ == old(text)@ + code_suffix(code),
{
    text.append(" (");
    let digits = hex_upper(code_bits(code));
    text.append(digits.as_str());
    text.append(")");
    assert(text@ =~= old(text)@ + code_suffix(code));
}

} // verus!
