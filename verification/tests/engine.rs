use doorstop::config::Config;
use doorstop::engine::{
    attaches_console, binding_model, choose_target, data_folder_candidates, data_folder_paths,
    find_data_folder, get_config, is_valid_data_folder, moves_working_directory,
    shows_failure_window, try_init, unity_player_name, Admission, Folder, HookTarget,
    ProcessContext, FATAL_EXIT_CODE,
};
use doorstop::environment::Environment;
use doorstop::hook::BindingModel;
use doorstop::platform::Platform;
use doorstop::utils::process_lock::ProcessLocks;

fn folder(path: &str, is_dir: bool, entries: &[&str]) -> Folder {
    Folder { path: path.to_string(), is_dir, entries: entries.iter().map(|e| e.to_string()).collect() }
}

#[test]
fn get_config_returns_loaded_settings() {
    let mut context = ProcessContext::new();
    let mut config = Config::default();
    config.redirect_output_log = true;
    context.config = Some(config);
    assert!(get_config(&context).redirect_output_log);
    assert!(get_config(&context).enabled);
}

#[test]
fn fatal_exit_code_is_fixed() {
    assert_eq!(FATAL_EXIT_CODE, 0xD004);
    assert_eq!(FATAL_EXIT_CODE, 53252);
}

#[test]
fn player_library_names() {
    assert_eq!(unity_player_name(Platform::Windows), "UnityPlayer.dll");
    assert_eq!(unity_player_name(Platform::Linux), "UnityPlayer.so");
    assert_eq!(unity_player_name(Platform::MacOs), "@executable_path/../Frameworks/UnityPlayer.dylib");
}

#[test]
fn failure_window_is_shown_on_windows_with_graphics() {
    let plain = vec!["game.exe".to_string()];
    let batch = vec!["game.exe".to_string(), "-batchmode".to_string()];
    let headless = vec!["game.exe".to_string(), "-logFile".to_string(), "-nographics".to_string()];
    let other = vec!["game.exe".to_string(), "-BatchMode".to_string()];
    assert!(shows_failure_window(Platform::Windows, &plain));
    assert!(!shows_failure_window(Platform::Windows, &batch));
    assert!(!shows_failure_window(Platform::Windows, &headless));
    assert!(shows_failure_window(Platform::Windows, &other));
    assert!(!shows_failure_window(Platform::Linux, &plain));
    assert!(!shows_failure_window(Platform::MacOs, &plain));
}

#[test]
fn data_folder_is_valid_with_a_marker() {
    assert!(is_valid_data_folder(&folder("/g/Game_Data", true, &["level0", "globalgamemanagers"])));
    assert!(is_valid_data_folder(&folder("/g/Game_Data", true, &["data.unity3d"])));
    assert!(is_valid_data_folder(&folder("/g/Game_Data", true, &["mainData", "x"])));
    assert!(!is_valid_data_folder(&folder("/g/Game_Data", true, &["level0", "MainData"])));
    assert!(!is_valid_data_folder(&folder("/g/Game_Data", true, &[])));
    assert!(!is_valid_data_folder(&folder("/g/Game_Data", false, &["mainData"])));
}

#[test]
fn data_folder_candidates_by_platform() {
    assert_eq!(
        data_folder_candidates("/games/x/Game.x86_64", Platform::Linux),
        vec!["/games/x/Game_Data".to_string(), "/games/x/Data".to_string()]
    );
    assert_eq!(
        data_folder_candidates("/Apps/Game.app/Contents/MacOS/Game", Platform::MacOs),
        vec![
            "/Apps/Game.app/Contents/Resources/Data".to_string(),
            "/Apps/Game.app/Contents/Data".to_string()
        ]
    );
    assert!(data_folder_candidates("/", Platform::Linux).is_empty());
    assert!(data_folder_candidates("/Game", Platform::MacOs).is_empty());
    assert_eq!(
        data_folder_paths("/base", Some("Game")),
        vec!["/base/Game_Data".to_string(), "/base/Data".to_string()]
    );
    assert_eq!(
        data_folder_paths("/base", None),
        vec!["/base/Resources/Data".to_string(), "/base/Data".to_string()]
    );
}

#[test]
fn first_valid_data_folder_is_found() {
    let folders = vec![
        folder("/g/Game_Data", false, &["mainData"]),
        folder("/g/Data", true, &["mainData"]),
        folder("/g/Other", true, &["mainData"]),
    ];
    assert_eq!(find_data_folder(&folders), Some(1));
    let none = vec![folder("/g/Game_Data", true, &["x"]), folder("/g/Data", false, &[])];
    assert_eq!(find_data_folder(&none), None);
    assert_eq!(find_data_folder(&Vec::new()), None);
}

#[test]
fn try_init_leaves_other_processes_alone() {
    let mut context = ProcessContext::new();
    let mut locks = ProcessLocks::new();
    assert_eq!(try_init(&mut context, &mut locks, 10, false, false), Admission::NotAGame);
    assert!(!context.file_logging);
    assert!(!locks.is_held(10));
}

#[test]
fn try_init_admits_a_game_once() {
    let mut context = ProcessContext::new();
    let mut locks = ProcessLocks::new();
    assert_eq!(
        try_init(&mut context, &mut locks, 10, true, false),
        Admission::Patch(HookTarget::UnityPlayer)
    );
    assert!(context.file_logging);
    assert!(locks.is_held(10));
    let mut again = ProcessContext::new();
    assert_eq!(try_init(&mut again, &mut locks, 10, true, true), Admission::AlreadyInitialized);
    assert!(again.file_logging);
    let mut other = ProcessContext::new();
    assert_eq!(
        try_init(&mut other, &mut locks, 11, false, true),
        Admission::Patch(HookTarget::MainProgram)
    );
}

#[test]
fn environment_switches() {
    let mut environment = Environment::new();
    assert!(moves_working_directory(&environment));
    assert!(!attaches_console(&environment));
    assert_eq!(binding_model(&environment, Platform::Linux), BindingModel::Lazy);
    assert_eq!(binding_model(&environment, Platform::Windows), BindingModel::Eager);
    environment.set("DOORSTOP_PLAYER", "true");
    environment.set("DOORSTOP_ATTACH_CONSOLE", "1");
    environment.set("LD_BIND_NOW", "1");
    assert!(!moves_working_directory(&environment));
    assert!(attaches_console(&environment));
    assert_eq!(binding_model(&environment, Platform::Linux), BindingModel::Eager);
    assert_eq!(binding_model(&environment, Platform::MacOs), BindingModel::Eager);
    environment.set("LD_BIND_NOW", "0");
    assert_eq!(binding_model(&environment, Platform::Linux), BindingModel::Lazy);
    environment.set("LD_BIND_NOW", "");
    assert_eq!(binding_model(&environment, Platform::Linux), BindingModel::Lazy);
}

#[test]
fn target_is_the_player_library_first() {
    assert_eq!(choose_target(true, true), Some(HookTarget::UnityPlayer));
    assert_eq!(choose_target(true, false), Some(HookTarget::UnityPlayer));
    assert_eq!(choose_target(false, true), Some(HookTarget::MainProgram));
    assert_eq!(choose_target(false, false), None);
}
