//! The launcher on Windows: it starts the host suspended, puts the hook
//! library into it, and lets it run.

use vstd::prelude::*;
use crate::environment::Environment;
use crate::launcher::architecture::ProcessorArchitecture;

verus! {

/// Tells the engine to attach the console of the launcher, where the
/// launcher writes to a terminal. The engine is told through the
/// environment that the host inherits.
pub fn announce_console(environment: &mut Environment, stdout_is_terminal: bool)
    ensures
        final(environment)@ == (if stdout_is_terminal {
            crate::table::bind(old(environment)@, "DOORSTOP_ATTACH_CONSOLE"@, "1"@)
        } else {
            old(environment)@
        }),
{
    if stdout_is_terminal {
        environment.set("DOORSTOP_ATTACH_CONSOLE", "1");
    }
}

/// Whether the host is started once more without handing down the
/// launcher's handles: it is where the first start was refused for an
/// invalid parameter, which handing down handles sometimes brings about.
pub fn retries_without_handles(refused: bool, invalid_parameter: bool) -> (retries: bool)
    ensures
        retries == (refused && invalid_parameter),
{
    refused && invalid_parameter
}

/// Whether a command line that lost its first argument still names a
/// command: it is not empty and does not begin with the terminator.
pub fn has_command(command_line: &[u16]) -> (has: bool)
    ensures
        has == (command_line@.len() > 0 && command_line@[0] != 0),
{
    command_line.len() > 0 && command_line[0] != 0
}

/// The architecture of a process started on Windows: a 64-bit x86 launcher
/// tells from the process whether it is a 32-bit one, and every other
/// launcher starts processes of its own architecture.
pub fn process_architecture(host: ProcessorArchitecture, is_32_bit: bool) -> (architecture:
    ProcessorArchitecture)
    ensures
        architecture == (if host == ProcessorArchitecture::X64 && is_32_bit {
            ProcessorArchitecture::X86
        } else {
            host
        }),
{
    match host {
        ProcessorArchitecture::X64 => if is_32_bit {
            ProcessorArchitecture::X86
        } else {
            ProcessorArchitecture::X64
        },
        other => other,
    }
}

} // verus!
