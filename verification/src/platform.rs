//! The operating systems a host process runs on, and what differs between
//! them for the engine.

use vstd::prelude::*;

verus! {

/// The operating system of the host process.
#[derive(Clone, Copy, PartialEq, Eq, Structural, Debug)]
pub enum Platform {
    Windows,
    Linux,
    MacOs,
}

impl Platform {
    /// The character between the entries of a list of paths.
    pub open spec fn spec_list_separator(self) -> char {
        match self {
            Platform::Windows => ';',
            _ => ':',
        }
    }

    /// What the names of shared libraries begin with.
    pub open spec fn spec_library_prefix(self) -> Seq<char> {
        match self {
            Platform::Windows => ""@,
            _ => "lib"@,
        }
    }

    /// What the names of shared libraries end in.
    pub open spec fn spec_library_suffix(self) -> Seq<char> {
        match self {
            Platform::Windows => ".dll"@,
            Platform::Linux => ".so"@,
            Platform::MacOs => ".dylib"@,
        }
    }

    /// The name the platform has in a runtime identifier.
    pub open spec fn spec_runtime_name(self) -> Seq<char> {
        match self {
            Platform::Windows => "win"@,
            Platform::Linux => "linux"@,
            Platform::MacOs => "osx"@,
        }
    }

    /// The character between the entries of a list of paths: `;` on Windows
    /// and `:` elsewhere.
    #[verifier::when_used_as_spec(spec_list_separator)]
    pub fn list_separator(self) -> (separator: char)
        ensures
            separator == self.spec_list_separator(),
    {
        match self {
            Platform::Windows => ';',
            _ => ':',
        }
    }

    /// The list separator as a text of one character.
    pub fn list_separator_text(self) -> (separator: &'static str)
        ensures
            separator@ == seq![self.spec_list_separator()],
    {
        proof {
            reveal_strlit(";");
            reveal_strlit(":");
        }
        let separator = match self {
            Platform::Windows => ";",
            _ => ":",
        };
        assert(separator@ =~= seq![self.spec_list_separator()]);
        separator
    }

    /// What the names of shared libraries begin with.
    pub fn library_prefix(self) -> (prefix: &'static str)
        ensures
            prefix@ == self.spec_library_prefix(),
    {
        match self {
            Platform::Windows => "",
            _ => "lib",
        }
    }

    /// What the names of shared libraries end in.
    pub fn library_suffix(self) -> (suffix: &'static str)
        ensures
            suffix@ == self.spec_library_suffix(),
    {
        match self {
            Platform::Windows => ".dll",
            Platform::Linux => ".so",
            Platform::MacOs => ".dylib",
        }
    }

    /// The name the platform has in a runtime identifier.
    pub fn runtime_name(self) -> (name: &'static str)
        ensures
            name@ == self.spec_runtime_name(),
    {
        match self {
            Platform::Windows => "win",
            Platform::Linux => "linux",
            Platform::MacOs => "osx",
        }
    }
}

} // verus!
