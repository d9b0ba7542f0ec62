//! What the player decides: which executable it stands in for, and what it
//! answers when the host asks for the path of its own executable.

use vstd::prelude::*;
use crate::environment::{borrowed_text, Environment};
use crate::paths::{extension, file_stem, path_extension, path_file_stem, text_of};
use crate::platform::Platform;
use crate::table::bind;
use crate::text::str_equal;

verus! {

/// The number of units of `text` before its first zero unit; all of them
/// where it has none.
pub open spec fn wide_len(text: Seq<u16>) -> int
    decreases text.len(),
{
    if text.len() == 0 {
        0
    } else if text[0] == 0 {
        0
    } else {
        1 + wide_len(text.drop_first())
    }
}

/// The length of a text lies within the text, at its first zero unit where
/// it has one, and no unit before it is zero.
pub proof fn lemma_wide_len(text: Seq<u16>)
    ensures
        0 <= wide_len(text) <= text.len(),
        wide_len(text) < text.len() ==> text[wide_len(text)] == 0,
        forall|i: int| 0 <= i < wide_len(text) ==> text[i] != 0,
    decreases text.len(),
{
    if text.len() != 0 && text[0] != 0 {
        let rest = text.drop_first();
        lemma_wide_len(rest);
        assert forall|i: int| 0 <= i < wide_len(text) implies text[i] != 0 by {
            if i > 0 {
                assert(rest[i - 1] == text[i]);
            }
        }
    }
}

/// How many units of a text of `length` units fit into a buffer of `size`
/// units, which keeps one unit for the terminator.
pub open spec fn copied_units(length: int, size: int) -> int {
    if length < size - 1 {
        length
    } else {
        size - 1
    }
}

/// What a copy into a buffer reports.
#[derive(Debug, Clone, Copy, PartialEq, Eq, Structural)]
pub struct WideCopy {
    /// The length of the text where it fits, the size of the buffer where
    /// it does not.
    pub returned: u32,
    /// Whether the text was cut short, which the caller is told through the
    /// error for a buffer that is too small.
    pub insufficient_buffer: bool,
}

/// The length of a text in 16-bit units, up to its terminator.
pub fn wide_length(text: &[u16]) -> (length: usize)
    ensures
        length == wide_len(text@),
{
    let mut i: usize = 0;
    assert(text@.subrange(0, text@.len() as int) == text@);
    while i < text.len()
        invariant
            i <= text@.len(),
            i + wide_len(text@.subrange(i as int, text@.len() as int)) == wide_len(text@),
        decreases text.len() - i,
    {
        if text[i] == 0 {
            return i;
        }
        proof {
            let here = text@.subrange(i as int, text@.len() as int);
            assert(here.drop_first() == text@.subrange(i + 1, text@.len() as int));
        }
        i = i + 1;
    }
    i
}

/// Copies a text into a buffer as a system call that returns a path does.
///
/// As much of the text as fits before the terminator is copied, and the
/// terminator is put behind it. The units of the buffer behind the
/// terminator are left as they were.
pub fn copy_wide_string(src: &[u16], dst: &mut Vec<u16>) -> (copy: WideCopy)
    requires
        1 <= old(dst)@.len() <= u32::MAX,
        wide_len(src@) <= u32::MAX,
    ensures
        final(dst)@.len() == old(dst)@.len(),
        ({
            let size = old(dst)@.len() as int;
            let length = wide_len(src@);
            let copied = copied_units(length, size);
            &&& final(dst)@ == src@.subrange(0, copied).push(0u16) + old(dst)@.subrange(
                copied + 1,
                size,
            )
            &&& copy.insufficient_buffer == (copied < length)
            &&& copy.returned == (if copied < length {
                size
            } else {
                length
            })
        }),
{
    let length = wide_length(src);
    let size = dst.len();
    proof {
        lemma_wide_len(src@);
    }
    let copied = if length < size - 1 {
        length
    } else {
        size - 1
    };
    let mut i: usize = 0;
    while i < copied
        invariant
            copied <= src@.len(),
            copied < size,
            dst@.len() == size,
            size == old(dst)@.len(),
            i <= copied,
            dst@.subrange(0, i as int) == src@.subrange(0, i as int),
            dst@.subrange(i as int, size as int) == old(dst)@.subrange(i as int, size as int),
        decreases copied - i,
    {
        let ghost before = dst@;
        dst.set(i, src[i]);
        proof {
            assert(dst@.subrange(0, i + 1) =~= before.subrange(0, i as int).push(src@[i as int]));
            assert(src@.subrange(0, i + 1) =~= src@.subrange(0, i as int).push(src@[i as int]));
            assert(dst@.subrange(i + 1, size as int) =~= before.subrange(i as int, size as int)
                .drop_first());
            assert(old(dst)@.subrange(i + 1, size as int) =~= old(dst)@.subrange(
                i as int,
                size as int,
            ).drop_first());
        }
        i = i + 1;
    }
    let ghost before = dst@;
    dst.set(copied, 0);
    proof {
        assert(dst@ =~= src@.subrange(0, copied as int).push(0u16) + old(dst)@.subrange(
            copied + 1,
            size as int,
        )) by {
            assert forall|k: int| 0 <= k < size implies dst@[k] == (src@.subrange(
                0,
                copied as int,
            ).push(0u16) + old(dst)@.subrange(copied + 1, size as int))[k] by {
                if k < copied {
                    assert(before.subrange(0, copied as int)[k] == src@.subrange(
                        0,
                        copied as int,
                    )[k]);
                } else if k > copied {
                    assert(before.subrange(copied as int, size as int)[k - copied] == old(
                        dst,
                    )@.subrange(copied as int, size as int)[k - copied]);
                }
            }
        }
    }
    if copied < length {
        WideCopy { returned: size as u32, insufficient_buffer: true }
    } else {
        WideCopy { returned: length as u32, insufficient_buffer: false }
    }
}

/// Why the player does not know its executable.
#[derive(Debug, Clone, Copy, PartialEq, Eq, Structural)]
pub enum PlayerError {
    /// The executable that the environment names is none.
    InvalidOverride { bundle: bool },
    /// More than one executable lies in the directory.
    Ambiguous,
    /// No executable lies in the directory.
    NotFound,
}

impl PlayerError {
    /// The cause in words.
    pub fn message(&self) -> (text: &'static str)
        ensures
            text@ == (match self {
                PlayerError::InvalidOverride { bundle: true } =>
                    "DOORSTOP_PLAYER_EXECUTABLE has to point to an app bundle"@,
                PlayerError::InvalidOverride { bundle: false } =>
                    "DOORSTOP_PLAYER_EXECUTABLE has to be a valid file"@,
                PlayerError::Ambiguous =>
                    "Found more than 1 unity executable in current directory, specify one with DOORSTOP_PLAYER_EXECUTABLE environment variable"@,
                PlayerError::NotFound =>
                    "Couldn't find the unity executable in current directory, specify one with DOORSTOP_PLAYER_EXECUTABLE environment variable"@,
            }),
    {
        match self {
            PlayerError::InvalidOverride { bundle: true } =>
                "DOORSTOP_PLAYER_EXECUTABLE has to point to an app bundle",
            PlayerError::InvalidOverride { bundle: false } =>
                "DOORSTOP_PLAYER_EXECUTABLE has to be a valid file",
            PlayerError::Ambiguous =>
                "Found more than 1 unity executable in current directory, specify one with DOORSTOP_PLAYER_EXECUTABLE environment variable",
            PlayerError::NotFound =>
                "Couldn't find the unity executable in current directory, specify one with DOORSTOP_PLAYER_EXECUTABLE environment variable",
        }
    }
}

/// What the file system says of the executable that the environment names.
pub struct NamedExecutable {
    pub path: String,
    /// The path is a directory.
    pub is_dir: bool,
    /// The path has a parent, and it is a directory.
    pub parent_is_dir: bool,
}

/// Whether the executable that the environment names is taken: an
/// application bundle is a directory, any other executable is none and lies
/// in one.
pub open spec fn override_accepted(platform: Platform, is_dir: bool, parent_is_dir: bool) -> bool {
    match platform {
        Platform::MacOs => is_dir,
        _ => !is_dir && parent_is_dir,
    }
}

/// The name of the directory that holds the data of the game with the
/// given executable: the file name of the executable without its extension,
/// and `_Data`. On Windows only a file that ends in `.exe` has one.
pub open spec fn data_name(extension: Option<Seq<char>>, stem: Option<Seq<char>>, platform: Platform) -> Option<
    Seq<char>,
> {
    if platform == Platform::Windows && extension != Some("exe"@) {
        None
    } else {
        match stem {
            Some(stem) => Some(stem + "_Data"@),
            None => None,
        }
    }
}

/// The name of the data directory of an executable with the given extension
/// and file name without extension.
pub fn data_folder_name_for(extension: Option<&str>, stem: Option<&str>, platform: Platform) -> (name:
    Option<String>)
    ensures
        text_of(name) == data_name(borrowed_text(extension), borrowed_text(stem), platform),
{
    let is_exe = match extension {
        Some(extension) => str_equal(extension, "exe"),
        None => false,
    };
    match platform {
        Platform::Windows => {
            if !is_exe {
                return None;
            }
        },
        _ => {},
    }
    match stem {
        Some(stem) => {
            let mut name = String::from_str(stem);
            name.append("_Data");
            Some(name)
        },
        None => None,
    }
}

/// The name of the data directory that must lie beside `path` for `path`
/// to be the executable of a game.
pub fn data_folder_name(path: &str, platform: Platform) -> (name: Option<String>)
    ensures
        text_of(name) == data_name(path_extension(path@), path_file_stem(path@), platform),
{
    let ext = extension(path);
    let stem = file_stem(path);
    let ext_ref = match &ext {
        Some(ext) => Some(ext.as_str()),
        None => None,
    };
    let stem_ref = match &stem {
        Some(stem) => Some(stem.as_str()),
        None => None,
    };
    data_folder_name_for(ext_ref, stem_ref, platform)
}

/// The executable that the player stands in for.
///
/// The one that the environment names is taken where it is acceptable, and
/// refused where it is not. With none named, `executables` are the
/// executables of games in the current directory: there must be one, and
/// no more.
pub fn get_executable_path(
    named: Option<NamedExecutable>,
    executables: &Vec<String>,
    platform: Platform,
) -> (result: Result<String, PlayerError>)
    ensures
        match named {
            Some(named) => if override_accepted(platform, named.is_dir, named.parent_is_dir) {
                result matches Ok(path) && path@ == named.path@
            } else {
                result == Err::<String, PlayerError>(
                    PlayerError::InvalidOverride { bundle: platform == Platform::MacOs },
                )
            },
            None => if executables@.len() == 1 {
                result matches Ok(path) && path@ == executables@[0]@
            } else if executables@.len() == 0 {
                result == Err::<String, PlayerError>(PlayerError::NotFound)
            } else {
                result == Err::<String, PlayerError>(PlayerError::Ambiguous)
            },
        },
{
    match named {
        Some(named) => {
            let accepted = match platform {
                Platform::MacOs => named.is_dir,
                _ => !named.is_dir && named.parent_is_dir,
            };
            if accepted {
                Ok(named.path)
            } else {
                match platform {
                    Platform::MacOs => Err(PlayerError::InvalidOverride { bundle: true }),
                    _ => Err(PlayerError::InvalidOverride { bundle: false }),
                }
            }
        },
        None => {
            if executables.len() == 1 {
                Ok(executables[0].clone())
            } else if executables.len() == 0 {
                Err(PlayerError::NotFound)
            } else {
                Err(PlayerError::Ambiguous)
            }
        },
    }
}

/// Starts the player: the environment tells the engine that the player is
/// there, and the executable is chosen.
pub fn init(
    environment: &mut Environment,
    named: Option<NamedExecutable>,
    executables: &Vec<String>,
    platform: Platform,
) -> (result: Result<String, PlayerError>)
    ensures
        final(environment)@ == bind(old(environment)@, "DOORSTOP_PLAYER"@, "true"@),
        match named {
            Some(named) => if override_accepted(platform, named.is_dir, named.parent_is_dir) {
                result matches Ok(path) && path@ == named.path@
            } else {
                result == Err::<String, PlayerError>(
                    PlayerError::InvalidOverride { bundle: platform == Platform::MacOs },
                )
            },
            None => if executables@.len() == 1 {
                result matches Ok(path) && path@ == executables@[0]@
            } else if executables@.len() == 0 {
                result == Err::<String, PlayerError>(PlayerError::NotFound)
            } else {
                result == Err::<String, PlayerError>(PlayerError::Ambiguous)
            },
        },
{
    environment.set("DOORSTOP_PLAYER", "true");
    get_executable_path(named, executables, platform)
}

/// Whether a request for the file name of a module is answered with the
/// executable the player stands in for: it is where the module is none or
/// is the executable itself.
pub fn answers_module_file_name(module_is_null: bool, module_is_executable: bool) -> (answers: bool)
    ensures
        answers == (module_is_null || module_is_executable),
{
    module_is_null || module_is_executable
}

/// Whether a window that the host creates is the player's window, which
/// gets the icons of the executable: its class is given by name, and the
/// name is that of the player's window class.
pub fn is_player_window(class_name: Option<&str>) -> (is: bool)
    ensures
        is == (borrowed_text(class_name) == Some("UnityWndClass"@)),
{
    match class_name {
        Some(name) => str_equal(name, "UnityWndClass"),
        None => false,
    }
}

/// Whether the extraction of icons, which returned `count`, found any.
pub fn found_icons(count: u32) -> (found: bool)
    ensures
        found == (0 < count < u32::MAX),
{
    count > 0 && count != u32::MAX
}

/// Whether the host asks for its own executable, which the player answers
/// with the executable it stands in for.
pub fn is_own_executable(path: &str) -> (own: bool)
    ensures
        own == (path@ == "/proc/self/exe"@),
{
    str_equal(path, "/proc/self/exe")
}

/// How many bytes of the executable's path go into a buffer of `size`
/// bytes: all that fit, without a terminator.
pub fn link_length(path_length: usize, size: usize) -> (length: usize)
    ensures
        length == (if path_length < size {
            path_length
        } else {
            size
        }),
{
    if path_length < size {
        path_length
    } else {
        size
    }
}

} // verus!
