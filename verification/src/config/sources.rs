//! The three sources of settings (the configuration file, the environment
//! and the command line) and the order in which they are heard.

use vstd::prelude::*;
use crate::config::ini_file::{document_value, ini_document, parse, property, section, Sections};
use crate::config::{
    accepts, after_assignments, agrees, assigned, default_settings, lemma_assigned_agrees,
    lemma_assignments_agree, stored_text, Config, Setting, SettingKind, Settings,
};
use crate::environment::{borrowed_text, Environment};
use crate::table::resolve;
use crate::text::{lowercase_text, str_equal, to_lowercase, views_of};

verus! {

/// The settings in the order in which a source is asked for them.
pub open spec fn setting_order() -> Seq<Setting> {
    seq![
        Setting::Enabled,
        Setting::RedirectOutputLog,
        Setting::IgnoreDisabledEnv,
        Setting::TargetAssembly,
        Setting::BootConfigOverride,
        Setting::MonoOverride,
        Setting::MonoDllSearchPathOverride,
        Setting::MonoDebugEnabled,
        Setting::MonoDebugConnect,
        Setting::MonoDebugSuspend,
        Setting::MonoDebugAddress,
        Setting::ClrRuntimeCoreclrPath,
        Setting::ClrCorlibDir,
    ]
}

/// The environment variable that speaks to a setting.
pub open spec fn environment_name(setting: Setting) -> Seq<char> {
    match setting {
        Setting::Enabled => "DOORSTOP_ENABLED"@,
        Setting::RedirectOutputLog => "DOORSTOP_REDIRECT_OUTPUT_LOG"@,
        Setting::IgnoreDisabledEnv => "DOORSTOP_IGNORE_DISABLED_ENV"@,
        Setting::TargetAssembly => "DOORSTOP_TARGET_ASSEMBLY"@,
        Setting::BootConfigOverride => "DOORSTOP_BOOT_CONFIG_OVERRIDE"@,
        Setting::MonoOverride => "DOORSTOP_MONO_OVERRIDE"@,
        Setting::MonoDllSearchPathOverride => "DOORSTOP_MONO_DLL_SEARCH_PATH_OVERRIDE"@,
        Setting::MonoDebugEnabled => "DOORSTOP_MONO_DEBUG_ENABLED"@,
        Setting::MonoDebugConnect => "DOORSTOP_MONO_DEBUG_CONNECT"@,
        Setting::MonoDebugSuspend => "DOORSTOP_MONO_DEBUG_SUSPEND"@,
        Setting::MonoDebugAddress => "DOORSTOP_MONO_DEBUG_ADDRESS"@,
        Setting::ClrRuntimeCoreclrPath => "DOORSTOP_CLR_RUNTIME_CORECLR_PATH"@,
        Setting::ClrCorlibDir => "DOORSTOP_CLR_CORLIB_DIR"@,
    }
}

/// The section of the configuration file that holds a setting.
pub open spec fn file_section(setting: Setting) -> Seq<char> {
    match setting {
        Setting::Enabled => "General"@,
        Setting::RedirectOutputLog => "General"@,
        Setting::IgnoreDisabledEnv => "General"@,
        Setting::TargetAssembly => "General"@,
        Setting::BootConfigOverride => "General"@,
        Setting::MonoOverride => "UnityMono"@,
        Setting::MonoDllSearchPathOverride => "UnityMono"@,
        Setting::MonoDebugEnabled => "UnityMono"@,
        Setting::MonoDebugConnect => "UnityMono"@,
        Setting::MonoDebugSuspend => "UnityMono"@,
        Setting::MonoDebugAddress => "UnityMono"@,
        Setting::ClrRuntimeCoreclrPath => "Il2Cpp"@,
        Setting::ClrCorlibDir => "Il2Cpp"@,
    }
}

/// The key under which the configuration file holds a setting.
pub open spec fn file_key(setting: Setting) -> Seq<char> {
    match setting {
        Setting::Enabled => "enabled"@,
        Setting::RedirectOutputLog => "redirect_output_log"@,
        Setting::IgnoreDisabledEnv => "ignore_disable_switch"@,
        Setting::TargetAssembly => "target_assembly"@,
        Setting::BootConfigOverride => "boot_config_override"@,
        Setting::MonoOverride => "override"@,
        Setting::MonoDllSearchPathOverride => "dll_search_path_override"@,
        Setting::MonoDebugEnabled => "debug_enabled"@,
        Setting::MonoDebugConnect => "debug_connect"@,
        Setting::MonoDebugSuspend => "debug_suspend"@,
        Setting::MonoDebugAddress => "debug_address"@,
        Setting::ClrRuntimeCoreclrPath => "coreclr_path"@,
        Setting::ClrCorlibDir => "corlib_dir"@,
    }
}

/// The setting that a command-line option, in small letters, speaks to.
pub open spec fn option_setting(lowered: Seq<char>) -> Option<Setting> {
    if lowered == "--doorstop-enabled"@ {
        Some(Setting::Enabled)
    } else if lowered == "--doorstop-redirect-output-log"@ {
        Some(Setting::RedirectOutputLog)
    } else if lowered == "--doorstop-target-assembly"@ {
        Some(Setting::TargetAssembly)
    } else if lowered == "--doorstop-boot-config-override"@ {
        Some(Setting::BootConfigOverride)
    } else if lowered == "--doorstop-mono-override"@ {
        Some(Setting::MonoOverride)
    } else if lowered == "--doorstop-mono-dll-search-path-override"@ {
        Some(Setting::MonoDllSearchPathOverride)
    } else if lowered == "--doorstop-mono-debug-enabled"@ {
        Some(Setting::MonoDebugEnabled)
    } else if lowered == "--doorstop-mono-debug-connect"@ {
        Some(Setting::MonoDebugConnect)
    } else if lowered == "--doorstop-mono-debug-suspend"@ {
        Some(Setting::MonoDebugSuspend)
    } else if lowered == "--doorstop-mono-debug-address"@ {
        Some(Setting::MonoDebugAddress)
    } else if lowered == "--doorstop-clr-corlib-dir"@ {
        Some(Setting::ClrCorlibDir)
    } else if lowered == "--doorstop-clr-runtime-coreclr-path"@ {
        Some(Setting::ClrRuntimeCoreclrPath)
    } else {
        None
    }
}

/// What the environment gives for each setting, in the order of asking.
pub open spec fn environment_items(environment: Seq<(Seq<char>, Seq<char>)>) -> Seq<
    (Setting, Option<Seq<char>>),
> {
    Seq::new(
        setting_order().len(),
        |i: int| (setting_order()[i], resolve(environment, environment_name(setting_order()[i]))),
    )
}

/// What a configuration file gives for each setting, in the order of asking.
pub open spec fn file_items(document: Sections) -> Seq<(Setting, Option<Seq<char>>)> {
    Seq::new(
        setting_order().len(),
        |i: int|
            (
                setting_order()[i],
                document_value(
                    document,
                    file_section(setting_order()[i]),
                    file_key(setting_order()[i]),
                ),
            ),
    )
}

/// The settings after a command line. An argument that names a setting, in
/// any case of letters, hands the argument after it to the setting; where the
/// setting takes it, that argument is used up and is not looked at as a name.
pub open spec fn after_arguments(settings: Settings, args: Seq<Seq<char>>) -> Settings
    decreases args.len(),
{
    if args.len() == 0 {
        settings
    } else {
        match option_setting(lowercase_text(args[0])) {
            Some(setting) => {
                if args.len() >= 2 && accepts(setting, Some(args[1])) {
                    after_arguments(
                        assigned(settings, setting, args[1]),
                        args.subrange(2, args.len() as int),
                    )
                } else {
                    after_arguments(settings, args.drop_first())
                }
            },
            None => after_arguments(settings, args.drop_first()),
        }
    }
}

/// A text without the byte order mark it may begin with.
pub open spec fn without_mark(text: Seq<char>) -> Seq<char> {
    if text.len() > 0 && text[0] == '\u{feff}' {
        text.subrange(1, text.len() as int)
    } else {
        text
    }
}

/// The settings after a configuration file with the given text. A text that
/// is no configuration file changes nothing.
pub open spec fn after_file(settings: Settings, text: Seq<char>) -> Settings {
    match ini_document(without_mark(text)) {
        Some(document) => after_assignments(settings, file_items(document)),
        None => settings,
    }
}

/// The settings of a process: the defaults, then the configuration file if
/// there is one, then the environment, then the command line. Debugging is on
/// whenever the environment sets `MONO_ARGUMENTS`.
pub open spec fn loaded_settings(
    file: Option<Seq<char>>,
    environment: Seq<(Seq<char>, Seq<char>)>,
    args: Seq<Seq<char>>,
) -> Settings {
    let from_file = match file {
        Some(text) => after_file(default_settings(), text),
        None => default_settings(),
    };
    let from_environment = after_assignments(from_file, environment_items(environment));
    let from_arguments = after_arguments(from_environment, args);
    if resolve(environment, "MONO_ARGUMENTS"@) is Some {
        Settings { mono_debug_enabled: true, ..from_arguments }
    } else {
        from_arguments
    }
}

/// The settings in the order in which a source is asked for them.
pub fn settings_in_order() -> (order: Vec<Setting>)
    ensures
        order@ == setting_order(),
{
    let mut order: Vec<Setting> = Vec::new();
    order.push(Setting::Enabled);
    order.push(Setting::RedirectOutputLog);
    order.push(Setting::IgnoreDisabledEnv);
    order.push(Setting::TargetAssembly);
    order.push(Setting::BootConfigOverride);
    order.push(Setting::MonoOverride);
    order.push(Setting::MonoDllSearchPathOverride);
    order.push(Setting::MonoDebugEnabled);
    order.push(Setting::MonoDebugConnect);
    order.push(Setting::MonoDebugSuspend);
    order.push(Setting::MonoDebugAddress);
    order.push(Setting::ClrRuntimeCoreclrPath);
    order.push(Setting::ClrCorlibDir);
    assert(order@ =~= setting_order());
    order
}

/// The environment variable that speaks to `setting`.
pub fn environment_variable(setting: Setting) -> (name: &'static str)
    ensures
        name@ == environment_name(setting),
{
    match setting {
        Setting::Enabled => "DOORSTOP_ENABLED",
        Setting::RedirectOutputLog => "DOORSTOP_REDIRECT_OUTPUT_LOG",
        Setting::IgnoreDisabledEnv => "DOORSTOP_IGNORE_DISABLED_ENV",
        Setting::TargetAssembly => "DOORSTOP_TARGET_ASSEMBLY",
        Setting::BootConfigOverride => "DOORSTOP_BOOT_CONFIG_OVERRIDE",
        Setting::MonoOverride => "DOORSTOP_MONO_OVERRIDE",
        Setting::MonoDllSearchPathOverride => "DOORSTOP_MONO_DLL_SEARCH_PATH_OVERRIDE",
        Setting::MonoDebugEnabled => "DOORSTOP_MONO_DEBUG_ENABLED",
        Setting::MonoDebugConnect => "DOORSTOP_MONO_DEBUG_CONNECT",
        Setting::MonoDebugSuspend => "DOORSTOP_MONO_DEBUG_SUSPEND",
        Setting::MonoDebugAddress => "DOORSTOP_MONO_DEBUG_ADDRESS",
        Setting::ClrRuntimeCoreclrPath => "DOORSTOP_CLR_RUNTIME_CORECLR_PATH",
        Setting::ClrCorlibDir => "DOORSTOP_CLR_CORLIB_DIR",
    }
}

/// The section and the key under which the configuration file holds `setting`.
pub fn file_location(setting: Setting) -> (location: (&'static str, &'static str))
    ensures
        location.0@ == file_section(setting),
        location.1@ == file_key(setting),
{
    match setting {
        Setting::Enabled => ("General", "enabled"),
        Setting::RedirectOutputLog => ("General", "redirect_output_log"),
        Setting::IgnoreDisabledEnv => ("General", "ignore_disable_switch"),
        Setting::TargetAssembly => ("General", "target_assembly"),
        Setting::BootConfigOverride => ("General", "boot_config_override"),
        Setting::MonoOverride => ("UnityMono", "override"),
        Setting::MonoDllSearchPathOverride => ("UnityMono", "dll_search_path_override"),
        Setting::MonoDebugEnabled => ("UnityMono", "debug_enabled"),
        Setting::MonoDebugConnect => ("UnityMono", "debug_connect"),
        Setting::MonoDebugSuspend => ("UnityMono", "debug_suspend"),
        Setting::MonoDebugAddress => ("UnityMono", "debug_address"),
        Setting::ClrRuntimeCoreclrPath => ("Il2Cpp", "coreclr_path"),
        Setting::ClrCorlibDir => ("Il2Cpp", "corlib_dir"),
    }
}

/// The setting that a command-line option, already in small letters, speaks to.
pub fn setting_for_option(lowered: &str) -> (setting: Option<Setting>)
    ensures
        setting == option_setting(lowered@),
{
    if str_equal(lowered, "--doorstop-enabled") {
        Some(Setting::Enabled)
    } else if str_equal(lowered, "--doorstop-redirect-output-log") {
        Some(Setting::RedirectOutputLog)
    } else if str_equal(lowered, "--doorstop-target-assembly") {
        Some(Setting::TargetAssembly)
    } else if str_equal(lowered, "--doorstop-boot-config-override") {
        Some(Setting::BootConfigOverride)
    } else if str_equal(lowered, "--doorstop-mono-override") {
        Some(Setting::MonoOverride)
    } else if str_equal(lowered, "--doorstop-mono-dll-search-path-override") {
        Some(Setting::MonoDllSearchPathOverride)
    } else if str_equal(lowered, "--doorstop-mono-debug-enabled") {
        Some(Setting::MonoDebugEnabled)
    } else if str_equal(lowered, "--doorstop-mono-debug-connect") {
        Some(Setting::MonoDebugConnect)
    } else if str_equal(lowered, "--doorstop-mono-debug-suspend") {
        Some(Setting::MonoDebugSuspend)
    } else if str_equal(lowered, "--doorstop-mono-debug-address") {
        Some(Setting::MonoDebugAddress)
    } else if str_equal(lowered, "--doorstop-clr-corlib-dir") {
        Some(Setting::ClrCorlibDir)
    } else if str_equal(lowered, "--doorstop-clr-runtime-coreclr-path") {
        Some(Setting::ClrRuntimeCoreclrPath)
    } else {
        None
    }
}

/// Drops the byte order mark that `text` may begin with.
pub fn strip_mark(text: &str) -> (rest: &str)
    ensures
        rest@ == without_mark(text@),
{
    let len = text.unicode_len();
    if len > 0 && text.get_char(0) == '\u{feff}' {
        text.substring_char(1, len)
    } else {
        text
    }
}

/// Settings in agreement stay so under the same command line.
pub proof fn lemma_arguments_agree(a: Settings, b: Settings, args: Seq<Seq<char>>)
    requires
        agrees(a, b),
    ensures
        agrees(after_arguments(a, args), after_arguments(b, args)),
    decreases args.len(),
{
    if args.len() != 0 {
        match option_setting(lowercase_text(args[0])) {
            Some(setting) => {
                if args.len() >= 2 && accepts(setting, Some(args[1])) {
                    lemma_assigned_agrees(a, b, setting, args[1], args[1]);
                    lemma_arguments_agree(
                        assigned(a, setting, args[1]),
                        assigned(b, setting, args[1]),
                        args.subrange(2, args.len() as int),
                    );
                } else {
                    lemma_arguments_agree(a, b, args.drop_first());
                }
            },
            None => {
                lemma_arguments_agree(a, b, args.drop_first());
            },
        }
    }
}

impl Config {
    /// Hears the environment: each setting is handed the value of its
    /// variable.
    pub fn load_from_environment(&mut self, environment: &Environment)
        ensures
            agrees(
                final(self)@,
                after_assignments(old(self)@, environment_items(environment@)),
            ),
    {
        let order = settings_in_order();
        let ghost items = environment_items(environment@);
        let ghost mut written = self@;
        let mut i: usize = 0;
        assert(items.subrange(0, items.len() as int) == items);
        while i < order.len()
            invariant
                order@ == setting_order(),
                items == environment_items(environment@),
                i <= order@.len(),
                agrees(self@, written),
                after_assignments(written, items.subrange(i as int, items.len() as int))
                    == after_assignments(old(self)@, items),
            decreases order.len() - i,
        {
            let setting = order[i];
            let text = environment.get(environment_variable(setting));
            let ghost before = self@;
            let taken = self.assign(setting, text);
            proof {
                let rest = items.subrange(i as int, items.len() as int);
                assert(rest[0] == (setting, borrowed_text(text)));
                assert(rest.drop_first() == items.subrange(i + 1, items.len() as int));
                if taken {
                    let stored = if setting.spec_kind() == SettingKind::Path {
                        stored_text(self@, setting).unwrap()
                    } else {
                        text.unwrap()@
                    };
                    lemma_assigned_agrees(before, written, setting, stored, text.unwrap()@);
                    written = assigned(written, setting, text.unwrap()@);
                }
            }
            i = i + 1;
        }
    }

    /// Hears a configuration file, given as its text. A text that is no
    /// configuration file changes nothing.
    pub fn load_from_file(&mut self, text: &str)
        ensures
            agrees(final(self)@, after_file(old(self)@, text@)),
    {
        let document = match parse(strip_mark(text)) {
            Ok(document) => document,
            Err(_) => {
                return ;
            },
        };
        let order = settings_in_order();
        let ghost items = file_items(ini_document(without_mark(text@)).unwrap());
        let ghost mut written = self@;
        let mut i: usize = 0;
        assert(items.subrange(0, items.len() as int) == items);
        while i < order.len()
            invariant
                order@ == setting_order(),
                ini_document(without_mark(text@)) is Some,
                ini_document(without_mark(text@)).unwrap() == crate::config::ini_file::ini_sections(
                    document,
                ),
                items == file_items(ini_document(without_mark(text@)).unwrap()),
                i <= order@.len(),
                agrees(self@, written),
                after_assignments(written, items.subrange(i as int, items.len() as int))
                    == after_assignments(old(self)@, items),
            decreases order.len() - i,
        {
            let setting = order[i];
            let location = file_location(setting);
            let value = match section(&document, location.0) {
                Some(properties) => property(properties, location.1),
                None => None,
            };
            let ghost before = self@;
            let taken = self.assign(setting, value);
            proof {
                let rest = items.subrange(i as int, items.len() as int);
                assert(rest[0] == (setting, borrowed_text(value)));
                assert(rest.drop_first() == items.subrange(i + 1, items.len() as int));
                if taken {
                    let stored = if setting.spec_kind() == SettingKind::Path {
                        stored_text(self@, setting).unwrap()
                    } else {
                        value.unwrap()@
                    };
                    lemma_assigned_agrees(before, written, setting, stored, value.unwrap()@);
                    written = assigned(written, setting, value.unwrap()@);
                }
            }
            i = i + 1;
        }
    }

    /// Hears the command line.
    pub fn load_from_command_line(&mut self, args: &Vec<String>)
        ensures
            agrees(final(self)@, after_arguments(old(self)@, views_of(args@))),
    {
        let ghost all = views_of(args@);
        let ghost mut written = self@;
        let mut i: usize = 0;
        assert(all.subrange(0, all.len() as int) == all);
        while i < args.len()
            invariant
                all == views_of(args@),
                i <= args@.len(),
                agrees(self@, written),
                after_arguments(written, all.subrange(i as int, all.len() as int))
                    == after_arguments(old(self)@, all),
            decreases args.len() - i,
        {
            let lowered = to_lowercase(args[i].as_str());
            let ghost rest = all.subrange(i as int, all.len() as int);
            proof {
                assert(rest[0] == args@[i as int]@);
                assert(rest.drop_first() == all.subrange(i + 1, all.len() as int));
            }
            match setting_for_option(lowered.as_str()) {
                None => {
                    i = i + 1;
                },
                Some(setting) => {
                    let next: Option<&str> = if i + 1 < args.len() {
                        Some(args[i + 1].as_str())
                    } else {
                        None
                    };
                    let ghost before = self@;
                    let taken = self.assign(setting, next);
                    if taken {
                        proof {
                            assert(rest[1] == args@[i + 1]@);
                            assert(rest.subrange(2, rest.len() as int) == all.subrange(
                                i + 2,
                                all.len() as int,
                            ));
                            let stored = if setting.spec_kind() == SettingKind::Path {
                                stored_text(self@, setting).unwrap()
                            } else {
                                next.unwrap()@
                            };
                            lemma_assigned_agrees(
                                before,
                                written,
                                setting,
                                stored,
                                next.unwrap()@,
                            );
                            written = assigned(written, setting, next.unwrap()@);
                        }
                        i = i + 2;
                    } else {
                        proof {
                            if i + 1 < args@.len() {
                                assert(rest[1] == args@[i + 1]@);
                            }
                        }
                        i = i + 1;
                    }
                },
            }
        }
    }

    /// The settings of a process: the defaults, then the configuration file
    /// where there is one, the environment and the command line.
    pub fn load(file: Option<&str>, environment: &Environment, args: &Vec<String>) -> (config:
        Config)
        ensures
            agrees(config@, loaded_settings(borrowed_text(file), environment@, views_of(args@))),
    {
        let mut config = Config::default();
        let ghost from_file = match borrowed_text(file) {
            Some(text) => after_file(default_settings(), text),
            None => default_settings(),
        };
        if let Some(text) = file {
            config.load_from_file(text);
        }
        let ghost heard_file = config@;
        config.load_from_environment(environment);
        let ghost heard_environment = config@;
        proof {
            lemma_assignments_agree(heard_file, from_file, environment_items(environment@));
        }
        config.load_from_command_line(args);
        proof {
            lemma_arguments_agree(
                heard_environment,
                after_assignments(from_file, environment_items(environment@)),
                views_of(args@),
            );
        }
        if environment.is_set("MONO_ARGUMENTS") {
            config.mono_debug_enabled = true;
        }
        config
    }
}

} // verus!
