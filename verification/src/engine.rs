//! The engine as one process sees it: its settings, its two bootstrap
//! machines, and the decisions taken when it is loaded.

use vstd::prelude::*;
use crate::config::Config;
use crate::environment::Environment;
use crate::paths::{file_stem, join, parent, path_file_stem, path_join, path_parent};
use crate::platform::Platform;
use crate::runtimes::il2cpp::HostingRuntime;
use crate::runtimes::mono::MonoRuntime;
use crate::table::resolve;
use crate::text::{str_equal, views_of};
use crate::utils::process_lock::{acquired, ensure_single_instance, ProcessLocks};

verus! {

/// The status that the process ends with when the engine fails.
pub const FATAL_EXIT_CODE: i32 = 0xD004;

/// What the engine keeps for the process it is loaded into.
pub struct ProcessContext {
    /// The settings, once they were loaded.
    pub config: Option<Config>,
    /// The machine of the JIT runtime family.
    pub mono: MonoRuntime,
    /// The machine of the hosting runtime family.
    pub hosting: HostingRuntime,
    /// Whether the log goes to the log file too.
    pub file_logging: bool,
}

impl ProcessContext {
    /// The context of a process in which the engine has done nothing yet.
    pub fn new() -> (context: ProcessContext)
        ensures
            context.config is None,
            !context.file_logging,
            context.mono.is_fresh(),
            context.hosting.is_fresh(),
    {
        ProcessContext {
            config: None,
            mono: MonoRuntime::new(),
            hosting: HostingRuntime::new(),
            file_logging: false,
        }
    }
}

/// The settings of the process. They must have been loaded.
pub fn get_config(context: &ProcessContext) -> (config: &Config)
    requires
        context.config is Some,
    ensures
        *config == context.config.unwrap(),
{
    context.config.as_ref().unwrap()
}

/// The name under which the player library of the host is loaded.
pub fn unity_player_name(platform: Platform) -> (name: &'static str)
    ensures
        name@ == (match platform {
            Platform::Windows => "UnityPlayer.dll"@,
            Platform::Linux => "UnityPlayer.so"@,
            Platform::MacOs => "@executable_path/../Frameworks/UnityPlayer.dylib"@,
        }),
{
    match platform {
        Platform::Windows => "UnityPlayer.dll",
        Platform::Linux => "UnityPlayer.so",
        Platform::MacOs => "@executable_path/../Frameworks/UnityPlayer.dylib",
    }
}

/// Whether a failure is reported in a window too: on Windows, unless the
/// host runs without one.
pub open spec fn reports_in_window(platform: Platform, args: Seq<Seq<char>>) -> bool {
    platform == Platform::Windows && !args.contains("-batchmode"@) && !args.contains(
        "-nographics"@,
    )
}

/// Whether a failure is reported in a window too.
pub fn shows_failure_window(platform: Platform, args: &Vec<String>) -> (shows: bool)
    ensures
        shows == reports_in_window(platform, views_of(args@)),
{
    match platform {
        Platform::Windows => {},
        _ => {
            return false;
        },
    }
    let mut i: usize = 0;
    while i < args.len()
        invariant
            i <= args@.len(),
            forall|k: int|
                0 <= k < i ==> (#[trigger] views_of(args@)[k]) != "-batchmode"@ && views_of(
                    args@,
                )[k] != "-nographics"@,
        decreases args.len() - i,
    {
        assert(views_of(args@)[i as int] == args@[i as int]@);
        if str_equal(args[i].as_str(), "-batchmode") || str_equal(args[i].as_str(), "-nographics") {
            return false;
        }
        i = i + 1;
    }
    true
}

/// A directory as the engine sees it: whether it is one, and the names of
/// the files in it.
pub struct Folder {
    pub path: String,
    pub is_dir: bool,
    pub entries: Vec<String>,
}

/// Whether a file name marks the data of a game.
pub open spec fn is_data_marker(name: Seq<char>) -> bool {
    name == "data.unity3d"@ || name == "globalgamemanagers"@ || name == "mainData"@
}

/// Whether a directory holds the data of a game: it is a directory, and one
/// of the marking files is in it.
pub open spec fn holds_game_data(is_dir: bool, entries: Seq<Seq<char>>) -> bool {
    is_dir && exists|i: int| 0 <= i < entries.len() && is_data_marker(#[trigger] entries[i])
}

impl Folder {
    /// Whether the directory holds the data of a game.
    pub open spec fn valid(&self) -> bool {
        holds_game_data(self.is_dir, views_of(self.entries@))
    }
}

/// Whether a directory holds the data of a game.
pub fn is_valid_data_folder(folder: &Folder) -> (valid: bool)
    ensures
        valid == folder.valid(),
{
    if !folder.is_dir {
        return false;
    }
    let mut i: usize = 0;
    while i < folder.entries.len()
        invariant
            folder.is_dir,
            i <= folder.entries@.len(),
            forall|k: int| 0 <= k < i ==> !is_data_marker(#[trigger] views_of(folder.entries@)[k]),
        decreases folder.entries.len() - i,
    {
        assert(views_of(folder.entries@)[i as int] == folder.entries@[i as int]@);
        let name = folder.entries[i].as_str();
        if str_equal(name, "data.unity3d") || str_equal(name, "globalgamemanagers") || str_equal(
            name,
            "mainData",
        ) {
            proof {
                let names = views_of(folder.entries@);
                assert(0 <= i < names.len() && is_data_marker(names[i as int]));
            }
            return true;
        }
        i = i + 1;
    }
    false
}

/// The directories in which the data of a game may lie below `base`: the
/// one named after the executable first where `stem` is its name, the one
/// of an application bundle first where there is no `stem`.
pub open spec fn data_folders_below(base: Seq<char>, stem: Option<Seq<char>>) -> Seq<Seq<char>> {
    match stem {
        Some(stem) => seq![path_join(base, stem + "_Data"@), path_join(base, "Data"@)],
        None => seq![path_join(base, "Resources/Data"@), path_join(base, "Data"@)],
    }
}

/// The directories in which the data of the game may lie, for the path of
/// its executable, in the order in which they are looked at.
pub open spec fn data_folders(current_exe: Seq<char>, platform: Platform) -> Seq<Seq<char>> {
    match path_parent(current_exe) {
        None => Seq::empty(),
        Some(dir) => match platform {
            Platform::MacOs => match path_parent(dir) {
                Some(contents) => data_folders_below(contents, None),
                None => Seq::empty(),
            },
            _ => match path_file_stem(current_exe) {
                Some(stem) => data_folders_below(dir, Some(stem)),
                None => Seq::empty(),
            },
        },
    }
}

/// The directories in which the data of a game may lie below `base`.
pub fn data_folder_paths(base: &str, stem: Option<&str>) -> (folders: Vec<String>)
    ensures
        views_of(folders@) == data_folders_below(base@, crate::environment::borrowed_text(stem)),
{
    let mut folders: Vec<String> = Vec::new();
    match stem {
        Some(stem) => {
            let mut name = String::from_str(stem);
            name.append("_Data");
            folders.push(join(base, name.as_str()));
        },
        None => {
            folders.push(join(base, "Resources/Data"));
        },
    }
    folders.push(join(base, "Data"));
    assert(views_of(folders@) =~= data_folders_below(
        base@,
        crate::environment::borrowed_text(stem),
    ));
    folders
}

/// The directories in which the data of the game may lie, for the path of
/// its executable.
pub fn data_folder_candidates(current_exe: &str, platform: Platform) -> (folders: Vec<String>)
    ensures
        views_of(folders@) == data_folders(current_exe@, platform),
{
    let none: Vec<String> = Vec::new();
    assert(views_of(none@) =~= Seq::<Seq<char>>::empty());
    let dir = match parent(current_exe) {
        Some(dir) => dir,
        None => {
            return none;
        },
    };
    match platform {
        Platform::MacOs => match parent(dir.as_str()) {
            Some(contents) => data_folder_paths(contents.as_str(), None),
            None => none,
        },
        _ => match file_stem(current_exe) {
            Some(stem) => data_folder_paths(dir.as_str(), Some(stem.as_str())),
            None => none,
        },
    }
}

/// The first of the directories that holds the data of a game.
pub fn find_data_folder(folders: &Vec<Folder>) -> (found: Option<usize>)
    ensures
        match found {
            Some(index) => index < folders@.len() && folders@[index as int].valid() && forall|
                earlier: int,
            |
                0 <= earlier < index ==> !(#[trigger] folders@[earlier]).valid(),
            None => forall|i: int| 0 <= i < folders@.len() ==> !(#[trigger] folders@[i]).valid(),
        },
{
    let mut i: usize = 0;
    while i < folders.len()
        invariant
            i <= folders@.len(),
            forall|k: int| 0 <= k < i ==> !(#[trigger] folders@[k]).valid(),
        decreases folders.len() - i,
    {
        if is_valid_data_folder(&folders[i]) {
            return Some(i);
        }
        i = i + 1;
    }
    None
}

/// The module that the engine patches.
#[derive(Debug, Clone, Copy, PartialEq, Eq, Structural)]
pub enum HookTarget {
    /// The player library of the host.
    UnityPlayer,
    /// The executable itself, into which old players were compiled.
    MainProgram,
}

/// What the engine does in a process it was loaded into.
#[derive(Debug, Clone, Copy, PartialEq, Eq, Structural)]
pub enum Admission {
    /// The process is no game: it is left alone.
    NotAGame,
    /// The engine is in the process already: it is left alone.
    AlreadyInitialized,
    /// The module is patched.
    Patch(HookTarget),
}

/// The module to patch: the player library where it is loaded, else the
/// executable where the data of a game was found beside it.
pub open spec fn hook_target(player_loaded: bool, data_folder_found: bool) -> Option<HookTarget> {
    if player_loaded {
        Some(HookTarget::UnityPlayer)
    } else if data_folder_found {
        Some(HookTarget::MainProgram)
    } else {
        None
    }
}

/// The module to patch, if the process is a game.
pub fn choose_target(player_loaded: bool, data_folder_found: bool) -> (target: Option<HookTarget>)
    ensures
        target == hook_target(player_loaded, data_folder_found),
{
    if player_loaded {
        Some(HookTarget::UnityPlayer)
    } else if data_folder_found {
        Some(HookTarget::MainProgram)
    } else {
        None
    }
}

/// Decides what the engine does in the process `pid`.
///
/// A process that is no game is left alone before anything is touched. For
/// a game the log goes to the log file from now on, and the lock of the
/// process is taken; the engine goes on only where it got the lock.
pub fn try_init(
    context: &mut ProcessContext,
    locks: &mut ProcessLocks,
    pid: u32,
    player_loaded: bool,
    data_folder_found: bool,
) -> (admission: Admission)
    ensures
        final(context).config == old(context).config,
        final(context).mono == old(context).mono,
        final(context).hosting == old(context).hosting,
        match hook_target(player_loaded, data_folder_found) {
            None => {
                &&& admission == Admission::NotAGame
                &&& final(context).file_logging == old(context).file_logging
                &&& final(locks)@ == old(locks)@
            },
            Some(target) => {
                &&& final(context).file_logging
                &&& final(locks)@ == acquired(old(locks)@, pid).0
                &&& admission == (if acquired(old(locks)@, pid).1 {
                    Admission::Patch(target)
                } else {
                    Admission::AlreadyInitialized
                })
            },
        },
{
    let target = match choose_target(player_loaded, data_folder_found) {
        Some(target) => target,
        None => {
            return Admission::NotAGame;
        },
    };
    context.file_logging = true;
    if ensure_single_instance(locks, pid) {
        Admission::Patch(target)
    } else {
        Admission::AlreadyInitialized
    }
}

/// Whether the working directory is moved to that of the application: it
/// is unless the player started the engine, which has moved it already.
pub fn moves_working_directory(environment: &Environment) -> (moves: bool)
    ensures
        moves == resolve(environment@, "DOORSTOP_PLAYER"@).is_none(),
{
    !environment.is_set("DOORSTOP_PLAYER")
}

/// Whether the console of the parent process is attached, on Windows.
pub fn attaches_console(environment: &Environment) -> (attaches: bool)
    ensures
        attaches == resolve(environment@, "DOORSTOP_ATTACH_CONSOLE"@).is_some(),
{
    environment.is_set("DOORSTOP_ATTACH_CONSOLE")
}

/// How the module's table is bound, which decides where the original of a
/// hooked symbol is taken from. Windows binds before the module runs. The
/// other platforms bind at the first call unless `LD_BIND_NOW` is `1`.
pub open spec fn binding_of(
    environment: Seq<(Seq<char>, Seq<char>)>,
    platform: Platform,
) -> crate::hook::BindingModel {
    match platform {
        Platform::Windows => crate::hook::BindingModel::Eager,
        _ => if resolve(environment, "LD_BIND_NOW"@) == Some("1"@) {
            crate::hook::BindingModel::Eager
        } else {
            crate::hook::BindingModel::Lazy
        },
    }
}

/// How the module's table is bound.
pub fn binding_model(environment: &Environment, platform: Platform) -> (binding:
    crate::hook::BindingModel)
    ensures
        binding == binding_of(environment@, platform),
{
    match platform {
        Platform::Windows => crate::hook::BindingModel::Eager,
        _ => match environment.get("LD_BIND_NOW") {
            Some(value) => {
                if str_equal(value, "1") {
                    crate::hook::BindingModel::Eager
                } else {
                    crate::hook::BindingModel::Lazy
                }
            },
            None => crate::hook::BindingModel::Lazy,
        },
    }
}

} // verus!
