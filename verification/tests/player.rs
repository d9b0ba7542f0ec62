use doorstop::environment::Environment;
use doorstop::platform::Platform;
use doorstop::player::{
    answers_module_file_name, found_icons, is_player_window,
    copy_wide_string, data_folder_name, data_folder_name_for, get_executable_path, init,
    is_own_executable, link_length, wide_length, NamedExecutable, PlayerError,
};

fn wide(s: &str) -> Vec<u16> {
    s.encode_utf16().chain(Some(0)).collect()
}

#[test]
fn successful() {
    let src = wide("test");
    let mut dst = vec![1u16; 10];
    let copy = copy_wide_string(&src, &mut dst);
    let len = copy.returned as usize;
    println!("len: {len}");
    println!("dst: {dst:?}");
    let str = String::from_utf16(&dst[0..len]).unwrap();
    println!("{str:?}");
    assert!(len < dst.len());
    assert!(str == "test");
    assert!(dst[len] == 0);
    assert!(!copy.insufficient_buffer);
}

#[test]
fn too_small() {
    let src = wide("test");
    let mut dst = vec![1u16; 2];
    let copy = copy_wide_string(&src, &mut dst);
    let len = copy.returned as usize;
    assert!(copy.insufficient_buffer);
    println!("len: {len}");
    println!("dst: {dst:?}");
    let str = String::from_utf16(&dst[0..len]).unwrap();
    println!("{str:?}");
    assert!(len == dst.len());
    assert!(str == "t\0");
}

#[test]
fn copy_leaves_the_rest_of_the_buffer() {
    let src = wide("ab");
    let mut dst = vec![7u16; 6];
    let copy = copy_wide_string(&src, &mut dst);
    assert_eq!(copy.returned, 2);
    assert_eq!(dst, vec![0x61, 0x62, 0, 7, 7, 7]);
    let mut exact = vec![7u16; 3];
    let copy = copy_wide_string(&src, &mut exact);
    assert_eq!(copy.returned, 2);
    assert!(!copy.insufficient_buffer);
    assert_eq!(exact, vec![0x61, 0x62, 0]);
    let mut one = vec![7u16; 1];
    let copy = copy_wide_string(&src, &mut one);
    assert_eq!(copy.returned, 1);
    assert!(copy.insufficient_buffer);
    assert_eq!(one, vec![0]);
    let mut empty_source = vec![7u16; 2];
    let copy = copy_wide_string(&[0u16], &mut empty_source);
    assert_eq!(copy.returned, 0);
    assert!(!copy.insufficient_buffer);
    assert_eq!(empty_source, vec![0, 7]);
}

#[test]
fn wide_length_stops_at_terminator() {
    assert_eq!(wide_length(&wide("test")), 4);
    assert_eq!(wide_length(&[0x61, 0, 0x62, 0]), 1);
    assert_eq!(wide_length(&[0x61, 0x62]), 2);
    assert_eq!(wide_length(&[]), 0);
}

#[test]
fn data_folder_names() {
    assert_eq!(data_folder_name("/games/Game.x86_64", Platform::Linux), Some("Game_Data".to_string()));
    assert_eq!(data_folder_name("/games/Game", Platform::Linux), Some("Game_Data".to_string()));
    assert_eq!(data_folder_name("/games/Game.exe", Platform::Windows), Some("Game_Data".to_string()));
    assert_eq!(data_folder_name("/games/Game.dll", Platform::Windows), None);
    assert_eq!(data_folder_name("/games/Game", Platform::Windows), None);
    assert_eq!(data_folder_name("/", Platform::Linux), None);
    assert_eq!(data_folder_name_for(Some("exe"), None, Platform::Windows), None);
    assert_eq!(data_folder_name_for(None, Some("Game"), Platform::MacOs), Some("Game_Data".to_string()));
    assert_eq!(data_folder_name_for(Some("EXE"), Some("Game"), Platform::Windows), None);
}

#[test]
fn executable_is_chosen() {
    let one = vec!["/games/Game.x86_64".to_string()];
    assert_eq!(get_executable_path(None, &one, Platform::Linux), Ok("/games/Game.x86_64".to_string()));
    let none: Vec<String> = Vec::new();
    assert_eq!(get_executable_path(None, &none, Platform::Linux), Err(PlayerError::NotFound));
    let two = vec!["/games/A".to_string(), "/games/B".to_string()];
    assert_eq!(get_executable_path(None, &two, Platform::Linux), Err(PlayerError::Ambiguous));
    let named = |is_dir, parent_is_dir| {
        Some(NamedExecutable { path: "/other/Game".to_string(), is_dir, parent_is_dir })
    };
    assert_eq!(get_executable_path(named(false, true), &two, Platform::Linux), Ok("/other/Game".to_string()));
    assert_eq!(
        get_executable_path(named(true, true), &one, Platform::Linux),
        Err(PlayerError::InvalidOverride { bundle: false })
    );
    assert_eq!(
        get_executable_path(named(false, false), &one, Platform::Windows),
        Err(PlayerError::InvalidOverride { bundle: false })
    );
    assert_eq!(get_executable_path(named(true, false), &one, Platform::MacOs), Ok("/other/Game".to_string()));
    assert_eq!(
        get_executable_path(named(false, true), &one, Platform::MacOs),
        Err(PlayerError::InvalidOverride { bundle: true })
    );
}

#[test]
fn player_error_messages() {
    assert_eq!(
        PlayerError::InvalidOverride { bundle: true }.message(),
        "DOORSTOP_PLAYER_EXECUTABLE has to point to an app bundle"
    );
    assert_eq!(
        PlayerError::InvalidOverride { bundle: false }.message(),
        "DOORSTOP_PLAYER_EXECUTABLE has to be a valid file"
    );
    assert_eq!(
        PlayerError::Ambiguous.message(),
        "Found more than 1 unity executable in current directory, specify one with DOORSTOP_PLAYER_EXECUTABLE environment variable"
    );
    assert_eq!(
        PlayerError::NotFound.message(),
        "Couldn't find the unity executable in current directory, specify one with DOORSTOP_PLAYER_EXECUTABLE environment variable"
    );
}

#[test]
fn player_init_marks_the_environment() {
    let mut environment = Environment::new();
    let one = vec!["/games/Game.x86_64".to_string()];
    assert_eq!(init(&mut environment, None, &one, Platform::Linux), Ok("/games/Game.x86_64".to_string()));
    assert_eq!(environment.get("DOORSTOP_PLAYER"), Some("true"));
    let mut failing = Environment::new();
    let none: Vec<String> = Vec::new();
    assert_eq!(init(&mut failing, None, &none, Platform::Linux), Err(PlayerError::NotFound));
    assert_eq!(failing.get("DOORSTOP_PLAYER"), Some("true"));
}

#[test]
fn own_executable_is_recognized() {
    assert!(is_own_executable("/proc/self/exe"));
    assert!(!is_own_executable("/proc/self/exe/"));
    assert!(!is_own_executable("/proc/1/exe"));
    assert_eq!(link_length(10, 4), 4);
    assert_eq!(link_length(4, 10), 4);
    assert_eq!(link_length(4, 4), 4);
    assert_eq!(link_length(0, 0), 0);
}

#[test]
fn windows_player_decisions() {
    assert!(answers_module_file_name(true, false));
    assert!(answers_module_file_name(false, true));
    assert!(!answers_module_file_name(false, false));
    assert!(is_player_window(Some("UnityWndClass")));
    assert!(!is_player_window(Some("unitywndclass")));
    assert!(!is_player_window(Some("Button")));
    assert!(!is_player_window(None));
    assert!(found_icons(1));
    assert!(found_icons(2));
    assert!(!found_icons(0));
    assert!(!found_icons(u32::MAX));
}
