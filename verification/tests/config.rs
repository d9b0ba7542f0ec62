use doorstop::config::{
    flag_from_lowered, parse_bool_base, parse_path_base, parse_text_base, store_path, Config,
    Setting, SettingKind,
};
use doorstop::config::sources::{
    environment_variable, file_location, setting_for_option, settings_in_order, strip_mark,
};
use doorstop::environment::Environment;

fn args(list: &[&str]) -> Vec<String> {
    list.iter().map(|s| s.to_string()).collect()
}

fn absolute(path: &str) -> String {
    std::path::absolute(path).unwrap().to_str().unwrap().to_string()
}

#[test]
fn default_config_values() {
    let config = Config::default();
    assert!(config.enabled);
    assert!(!config.redirect_output_log);
    assert!(!config.ignore_disabled_env);
    assert_eq!(config.target_assembly, None);
    assert_eq!(config.boot_config_override, None);
    assert_eq!(config.mono_override, None);
    assert_eq!(config.mono_dll_search_path_override, None);
    assert!(!config.mono_debug_enabled);
    assert!(!config.mono_debug_connect);
    assert!(!config.mono_debug_suspend);
    assert_eq!(config.mono_debug_address, Some("127.0.0.1:10000".to_string()));
    assert_eq!(config.clr_runtime_coreclr_path, None);
    assert_eq!(config.clr_corlib_dir, None);
}

#[test]
fn parse_text_base_takes_non_empty_text() {
    let mut value = None;
    assert!(parse_text_base(Some("a;b"), &mut value));
    assert_eq!(value, Some("a;b".to_string()));
    assert!(!parse_text_base(Some(""), &mut value));
    assert_eq!(value, Some("a;b".to_string()));
    assert!(!parse_text_base(None, &mut value));
    assert_eq!(value, Some("a;b".to_string()));
}

#[test]
fn parse_bool_base_reads_true_and_false_in_any_case() {
    let mut value = false;
    assert!(parse_bool_base(Some("TRUE"), &mut value));
    assert!(value);
    assert!(parse_bool_base(Some("False"), &mut value));
    assert!(!value);
    assert!(parse_bool_base(Some("true"), &mut value));
    assert!(value);
    assert!(!parse_bool_base(Some("yes"), &mut value));
    assert!(value);
    assert!(!parse_bool_base(Some(""), &mut value));
    assert!(value);
    assert!(!parse_bool_base(Some("1"), &mut value));
    assert!(!parse_bool_base(None, &mut value));
    assert!(value);
}

#[test]
fn flag_from_lowered_is_exact() {
    assert_eq!(flag_from_lowered("true"), Some(true));
    assert_eq!(flag_from_lowered("false"), Some(false));
    assert_eq!(flag_from_lowered("TRUE"), None);
    assert_eq!(flag_from_lowered(" true"), None);
    assert_eq!(flag_from_lowered(""), None);
}

#[test]
fn parse_path_base_makes_paths_absolute() {
    let mut value = None;
    assert!(parse_path_base(Some("mods/loader.dll"), &mut value));
    assert_eq!(value, Some(absolute("mods/loader.dll")));
    assert_ne!(value, Some("mods/loader.dll".to_string()));
    assert!(!parse_path_base(Some(""), &mut value));
    assert_eq!(value, Some(absolute("mods/loader.dll")));
    assert!(!parse_path_base(None, &mut value));
    assert!(parse_path_base(Some("/opt/game/loader.dll"), &mut value));
    assert_eq!(value, Some("/opt/game/loader.dll".to_string()));
}

#[test]
fn store_path_prefers_resolved_path() {
    let mut value = None;
    store_path("a", Some("/cwd/a".to_string()), &mut value);
    assert_eq!(value, Some("/cwd/a".to_string()));
    store_path("b", None, &mut value);
    assert_eq!(value, Some("b".to_string()));
}

#[test]
fn setting_kinds() {
    assert_eq!(Setting::Enabled.kind(), SettingKind::Flag);
    assert_eq!(Setting::TargetAssembly.kind(), SettingKind::Path);
    assert_eq!(Setting::MonoDllSearchPathOverride.kind(), SettingKind::Text);
    assert_eq!(Setting::MonoDebugAddress.kind(), SettingKind::Text);
    assert_eq!(Setting::ClrCorlibDir.kind(), SettingKind::Path);
    assert_eq!(settings_in_order().len(), 13);
}

#[test]
fn assign_hands_text_to_the_setting() {
    let mut config = Config::default();
    assert!(config.assign(Setting::MonoDebugConnect, Some("True")));
    assert!(config.mono_debug_connect);
    assert!(!config.assign(Setting::MonoDebugConnect, Some("maybe")));
    assert!(config.mono_debug_connect);
    assert!(config.assign(Setting::MonoDllSearchPathOverride, Some("a:b")));
    assert_eq!(config.mono_dll_search_path_override, Some("a:b".to_string()));
    assert!(config.assign(Setting::ClrCorlibDir, Some("/corlib")));
    assert_eq!(config.clr_corlib_dir, Some("/corlib".to_string()));
    assert!(!config.assign(Setting::ClrCorlibDir, None));
}

#[test]
fn option_and_variable_names() {
    assert_eq!(setting_for_option("--doorstop-enabled"), Some(Setting::Enabled));
    assert_eq!(setting_for_option("--doorstop-target-assembly"), Some(Setting::TargetAssembly));
    assert_eq!(
        setting_for_option("--doorstop-clr-runtime-coreclr-path"),
        Some(Setting::ClrRuntimeCoreclrPath)
    );
    assert_eq!(setting_for_option("--doorstop-ignore-disabled-env"), None);
    assert_eq!(setting_for_option("--DOORSTOP-ENABLED"), None);
    assert_eq!(environment_variable(Setting::IgnoreDisabledEnv), "DOORSTOP_IGNORE_DISABLED_ENV");
    assert_eq!(
        environment_variable(Setting::MonoDllSearchPathOverride),
        "DOORSTOP_MONO_DLL_SEARCH_PATH_OVERRIDE"
    );
    assert_eq!(file_location(Setting::IgnoreDisabledEnv), ("General", "ignore_disable_switch"));
    assert_eq!(file_location(Setting::MonoOverride), ("UnityMono", "override"));
    assert_eq!(file_location(Setting::ClrCorlibDir), ("Il2Cpp", "corlib_dir"));
}

#[test]
fn command_line_sets_settings() {
    let mut config = Config::default();
    config.load_from_command_line(&args(&[
        "game.x86_64",
        "--doorstop-enabled",
        "false",
        "--DOORSTOP-MONO-DEBUG-ADDRESS",
        "0.0.0.0:55555",
        "--doorstop-mono-debug-enabled",
        "--doorstop-mono-debug-suspend",
        "TRUE",
        "--doorstop-target-assembly",
        "/mods/Loader.dll",
        "--doorstop-mono-dll-search-path-override",
    ]));
    assert!(!config.enabled);
    assert_eq!(config.mono_debug_address, Some("0.0.0.0:55555".to_string()));
    assert!(!config.mono_debug_enabled);
    assert!(config.mono_debug_suspend);
    assert_eq!(config.target_assembly, Some("/mods/Loader.dll".to_string()));
    assert_eq!(config.mono_dll_search_path_override, None);
}

#[test]
fn command_line_value_is_not_read_as_a_name() {
    let mut config = Config::default();
    config.load_from_command_line(&args(&[
        "--doorstop-mono-debug-address",
        "--doorstop-enabled",
        "false",
    ]));
    assert_eq!(config.mono_debug_address, Some("--doorstop-enabled".to_string()));
    assert!(config.enabled);
}

#[test]
fn command_line_rejected_value_is_read_as_a_name() {
    let mut config = Config::default();
    config.load_from_command_line(&args(&[
        "--doorstop-enabled",
        "--doorstop-redirect-output-log",
        "true",
    ]));
    assert!(config.enabled);
    assert!(config.redirect_output_log);
}

#[test]
fn environment_sets_settings() {
    let mut environment = Environment::new();
    environment.set("DOORSTOP_ENABLED", "FALSE");
    environment.set("DOORSTOP_IGNORE_DISABLED_ENV", "true");
    environment.set("DOORSTOP_MONO_DEBUG_ADDRESS", "");
    environment.set("DOORSTOP_MONO_DLL_SEARCH_PATH_OVERRIDE", "/a:/b");
    environment.set("DOORSTOP_CLR_CORLIB_DIR", "/corlib");
    environment.set("DOORSTOP_MONO_DEBUG_SUSPEND", "nope");
    environment.set("UNRELATED", "true");
    let mut config = Config::default();
    config.load_from_environment(&environment);
    assert!(!config.enabled);
    assert!(config.ignore_disabled_env);
    assert_eq!(config.mono_debug_address, Some("127.0.0.1:10000".to_string()));
    assert_eq!(config.mono_dll_search_path_override, Some("/a:/b".to_string()));
    assert_eq!(config.clr_corlib_dir, Some("/corlib".to_string()));
    assert!(!config.mono_debug_suspend);
    assert!(!config.redirect_output_log);
}

#[test]
fn file_sets_settings() {
    let text = "[General]\nenabled=false\nredirect_output_log = TRUE\ntarget_assembly=/mods/Loader.dll\nignore_disable_switch=true\n\n[UnityMono]\ndll_search_path_override=C:\\mods;D:\\more\ndebug_enabled=true\ndebug_address=127.0.0.1:9999\noverride=/opt/mono/libmono.so\n\n[Il2Cpp]\ncoreclr_path=/dotnet/libcoreclr.so\ncorlib_dir=/dotnet\n";
    let mut config = Config::default();
    config.load_from_file(text);
    assert!(!config.enabled);
    assert!(config.redirect_output_log);
    assert!(config.ignore_disabled_env);
    assert_eq!(config.target_assembly, Some("/mods/Loader.dll".to_string()));
    assert_eq!(config.mono_dll_search_path_override, Some("C:\\mods;D:\\more".to_string()));
    assert!(config.mono_debug_enabled);
    assert_eq!(config.mono_debug_address, Some("127.0.0.1:9999".to_string()));
    assert_eq!(config.mono_override, Some("/opt/mono/libmono.so".to_string()));
    assert_eq!(config.clr_runtime_coreclr_path, Some("/dotnet/libcoreclr.so".to_string()));
    assert_eq!(config.clr_corlib_dir, Some("/dotnet".to_string()));
    assert!(!config.mono_debug_connect);
}

#[test]
fn file_keys_in_other_sections_are_not_heard() {
    let text = "enabled=false\n[UnityMono]\nenabled=false\ntarget_assembly=/x.dll\n[General]\ndebug_enabled=true\n";
    let mut config = Config::default();
    config.load_from_file(text);
    assert!(config.enabled);
    assert_eq!(config.target_assembly, None);
    assert!(!config.mono_debug_enabled);
}

#[test]
fn file_with_byte_order_mark_is_read() {
    let text = "\u{feff}[General]\nenabled=false\n";
    assert_eq!(strip_mark(text), "[General]\nenabled=false\n");
    assert_eq!(strip_mark("[General]"), "[General]");
    assert_eq!(strip_mark(""), "");
    let mut config = Config::default();
    config.load_from_file(text);
    assert!(!config.enabled);
}

#[test]
fn file_that_does_not_parse_changes_nothing() {
    let mut config = Config::default();
    config.load_from_file("[General\nenabled=false\n");
    assert!(config.enabled);
}

#[test]
fn load_hears_file_then_environment_then_command_line() {
    let file = "[General]\nenabled=false\nredirect_output_log=true\n[UnityMono]\ndebug_address=file:1\n";
    let mut environment = Environment::new();
    environment.set("DOORSTOP_ENABLED", "true");
    environment.set("DOORSTOP_MONO_DEBUG_ADDRESS", "env:2");
    let config = Config::load(
        Some(file),
        &environment,
        &args(&["game", "--doorstop-mono-debug-address", "args:3"]),
    );
    assert!(config.enabled);
    assert!(config.redirect_output_log);
    assert_eq!(config.mono_debug_address, Some("args:3".to_string()));
    assert!(!config.mono_debug_enabled);
}

#[test]
fn load_turns_debugging_on_for_mono_arguments() {
    let mut environment = Environment::new();
    environment.set("MONO_ARGUMENTS", "--debugger-agent=transport=dt_socket");
    let config = Config::load(None, &environment, &args(&["game", "--doorstop-mono-debug-enabled", "false"]));
    assert!(config.mono_debug_enabled);
    let plain = Config::load(None, &Environment::new(), &args(&[]));
    assert!(!plain.mono_debug_enabled);
    assert!(plain.enabled);
}
