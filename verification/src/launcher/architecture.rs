//! Processor architectures, and which build of the hook library suits an
//! executable.

use vstd::prelude::*;

verus! {

/// A processor architecture that an executable can be built for.
#[derive(Clone, Copy, PartialEq, Eq, Structural, Debug)]
pub enum ProcessorArchitecture {
    X64,
    X86,
    Arm64,
    Arm,
}

impl ProcessorArchitecture {
    /// The name the architecture is written with.
    pub open spec fn spec_name(self) -> Seq<char> {
        match self {
            ProcessorArchitecture::X64 => "X64"@,
            ProcessorArchitecture::X86 => "X86"@,
            ProcessorArchitecture::Arm64 => "ARM64"@,
            ProcessorArchitecture::Arm => "ARM"@,
        }
    }

    /// The name in small letters, as it appears in file names.
    pub open spec fn spec_lower_name(self) -> Seq<char> {
        match self {
            ProcessorArchitecture::X64 => "x64"@,
            ProcessorArchitecture::X86 => "x86"@,
            ProcessorArchitecture::Arm64 => "arm64"@,
            ProcessorArchitecture::Arm => "arm"@,
        }
    }

    /// The name the architecture is written with: `X64`, `X86`, `ARM64` or `ARM`.
    pub fn name(&self) -> (text: &'static str)
        ensures
            text@ == self.spec_name(),
    {
        match self {
            ProcessorArchitecture::X64 => "X64",
            ProcessorArchitecture::X86 => "X86",
            ProcessorArchitecture::Arm64 => "ARM64",
            ProcessorArchitecture::Arm => "ARM",
        }
    }

    /// The name in small letters: `x64`, `x86`, `arm64` or `arm`.
    pub fn lower_name(&self) -> (text: &'static str)
        ensures
            text@ == self.spec_lower_name(),
    {
        match self {
            ProcessorArchitecture::X64 => "x64",
            ProcessorArchitecture::X86 => "x86",
            ProcessorArchitecture::Arm64 => "arm64",
            ProcessorArchitecture::Arm => "arm",
        }
    }
}

/// The architecture a launcher running on `host` injects into, among those
/// an executable holds.
///
/// A 64-bit x86 host takes the 64-bit image before the 32-bit one, a 32-bit
/// x86 host takes the 32-bit image only, and a 64-bit ARM host its own. No
/// other host can launch anything.
pub open spec fn preferred_architecture(
    architectures: Seq<ProcessorArchitecture>,
    host: ProcessorArchitecture,
) -> Option<ProcessorArchitecture> {
    match host {
        ProcessorArchitecture::X64 => if architectures.contains(ProcessorArchitecture::X64) {
            Some(ProcessorArchitecture::X64)
        } else if architectures.contains(ProcessorArchitecture::X86) {
            Some(ProcessorArchitecture::X86)
        } else {
            None
        },
        ProcessorArchitecture::X86 => if architectures.contains(ProcessorArchitecture::X86) {
            Some(ProcessorArchitecture::X86)
        } else {
            None
        },
        ProcessorArchitecture::Arm64 => if architectures.contains(ProcessorArchitecture::Arm64) {
            Some(ProcessorArchitecture::Arm64)
        } else {
            None
        },
        ProcessorArchitecture::Arm => None,
    }
}

/// Whether `wanted` is among `architectures`.
pub fn has_architecture(architectures: &[ProcessorArchitecture], wanted: ProcessorArchitecture) -> (
    present: bool
)
    ensures
        present == architectures@.contains(wanted),
{
    let mut i: usize = 0;
    while i < architectures.len()
        invariant
            i <= architectures@.len(),
            forall|j: int| 0 <= j < i ==> architectures@[j] != wanted,
        decreases architectures.len() - i,
    {
        if architectures[i] == wanted {
            return true;
        }
        i = i + 1;
    }
    false
}

/// Picks the architecture to inject into for a launcher running on `host`.
pub fn pick_architecture(architectures: &[ProcessorArchitecture], host: ProcessorArchitecture) -> (
    picked: Option<ProcessorArchitecture>
)
    ensures
        picked == preferred_architecture(architectures@, host),
{
    match host {
        ProcessorArchitecture::X64 => {
            if has_architecture(architectures, ProcessorArchitecture::X64) {
                Some(ProcessorArchitecture::X64)
            } else if has_architecture(architectures, ProcessorArchitecture::X86) {
                Some(ProcessorArchitecture::X86)
            } else {
                None
            }
        },
        ProcessorArchitecture::X86 => {
            if has_architecture(architectures, ProcessorArchitecture::X86) {
                Some(ProcessorArchitecture::X86)
            } else {
                None
            }
        },
        ProcessorArchitecture::Arm64 => {
            if has_architecture(architectures, ProcessorArchitecture::Arm64) {
                Some(ProcessorArchitecture::Arm64)
            } else {
                None
            }
        },
        ProcessorArchitecture::Arm => None,
    }
}

} // verus!
