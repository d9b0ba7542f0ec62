//! The engine's settings, and how a text from a configuration source is
//! taken into one of them.

pub mod ini_file;
pub mod sources;

use vstd::prelude::*;
use crate::environment::borrowed_text;
use crate::paths::{absolute, text_of};
use crate::text::{lowercase_text, str_equal, to_lowercase};

verus! {

/// The settings of one process.
#[derive(Debug)]
pub struct Config {
    pub enabled: bool,
    pub redirect_output_log: bool,
    pub ignore_disabled_env: bool,
    pub target_assembly: Option<String>,
    pub boot_config_override: Option<String>,
    pub mono_override: Option<String>,
    pub mono_dll_search_path_override: Option<String>,
    pub mono_debug_enabled: bool,
    pub mono_debug_connect: bool,
    pub mono_debug_suspend: bool,
    pub mono_debug_address: Option<String>,
    pub clr_runtime_coreclr_path: Option<String>,
    pub clr_corlib_dir: Option<String>,
}

/// The settings as mathematical values.
pub struct Settings {
    pub enabled: bool,
    pub redirect_output_log: bool,
    pub ignore_disabled_env: bool,
    pub target_assembly: Option<Seq<char>>,
    pub boot_config_override: Option<Seq<char>>,
    pub mono_override: Option<Seq<char>>,
    pub mono_dll_search_path_override: Option<Seq<char>>,
    pub mono_debug_enabled: bool,
    pub mono_debug_connect: bool,
    pub mono_debug_suspend: bool,
    pub mono_debug_address: Option<Seq<char>>,
    pub clr_runtime_coreclr_path: Option<Seq<char>>,
    pub clr_corlib_dir: Option<Seq<char>>,
}

impl View for Config {
    type V = Settings;

    open spec fn view(&self) -> Settings {
        Settings {
            enabled: self.enabled,
            redirect_output_log: self.redirect_output_log,
            ignore_disabled_env: self.ignore_disabled_env,
            target_assembly: text_of(self.target_assembly),
            boot_config_override: text_of(self.boot_config_override),
            mono_override: text_of(self.mono_override),
            mono_dll_search_path_override: text_of(self.mono_dll_search_path_override),
            mono_debug_enabled: self.mono_debug_enabled,
            mono_debug_connect: self.mono_debug_connect,
            mono_debug_suspend: self.mono_debug_suspend,
            mono_debug_address: text_of(self.mono_debug_address),
            clr_runtime_coreclr_path: text_of(self.clr_runtime_coreclr_path),
            clr_corlib_dir: text_of(self.clr_corlib_dir),
        }
    }
}

/// The settings of a process that no source has spoken to.
pub open spec fn default_settings() -> Settings {
    Settings {
        enabled: true,
        redirect_output_log: false,
        ignore_disabled_env: false,
        target_assembly: None,
        boot_config_override: None,
        mono_override: None,
        mono_dll_search_path_override: None,
        mono_debug_enabled: false,
        mono_debug_connect: false,
        mono_debug_suspend: false,
        mono_debug_address: Some("127.0.0.1:10000"@),
        clr_runtime_coreclr_path: None,
        clr_corlib_dir: None,
    }
}

impl Default for Config {
    fn default() -> (config: Config)
        ensures
            config@ == default_settings(),
    {
        Config {
            enabled: true,
            redirect_output_log: false,
            ignore_disabled_env: false,
            target_assembly: None,
            boot_config_override: None,
            mono_override: None,
            mono_dll_search_path_override: None,
            mono_debug_enabled: false,
            mono_debug_connect: false,
            mono_debug_suspend: false,
            mono_debug_address: Some(String::from_str("127.0.0.1:10000")),
            clr_runtime_coreclr_path: None,
            clr_corlib_dir: None,
        }
    }
}

/// One of the settings.
#[derive(Clone, Copy, PartialEq, Eq, Structural, Debug)]
pub enum Setting {
    Enabled,
    RedirectOutputLog,
    IgnoreDisabledEnv,
    TargetAssembly,
    BootConfigOverride,
    MonoOverride,
    MonoDllSearchPathOverride,
    MonoDebugEnabled,
    MonoDebugConnect,
    MonoDebugSuspend,
    MonoDebugAddress,
    ClrRuntimeCoreclrPath,
    ClrCorlibDir,
}

/// What a setting holds.
#[derive(Clone, Copy, PartialEq, Eq, Structural, Debug)]
pub enum SettingKind {
    Flag,
    Text,
    Path,
}

impl Setting {
    /// Whether the setting is a flag, a text or a path.
    pub open spec fn spec_kind(self) -> SettingKind {
        match self {
            Setting::Enabled => SettingKind::Flag,
            Setting::RedirectOutputLog => SettingKind::Flag,
            Setting::IgnoreDisabledEnv => SettingKind::Flag,
            Setting::TargetAssembly => SettingKind::Path,
            Setting::BootConfigOverride => SettingKind::Path,
            Setting::MonoOverride => SettingKind::Path,
            Setting::MonoDllSearchPathOverride => SettingKind::Text,
            Setting::MonoDebugEnabled => SettingKind::Flag,
            Setting::MonoDebugConnect => SettingKind::Flag,
            Setting::MonoDebugSuspend => SettingKind::Flag,
            Setting::MonoDebugAddress => SettingKind::Text,
            Setting::ClrRuntimeCoreclrPath => SettingKind::Path,
            Setting::ClrCorlibDir => SettingKind::Path,
        }
    }

    /// Whether the setting is a flag, a text or a path.
    #[verifier::when_used_as_spec(spec_kind)]
    pub fn kind(self) -> (kind: SettingKind)
        ensures
            kind == self.spec_kind(),
    {
        match self {
            Setting::Enabled => SettingKind::Flag,
            Setting::RedirectOutputLog => SettingKind::Flag,
            Setting::IgnoreDisabledEnv => SettingKind::Flag,
            Setting::TargetAssembly => SettingKind::Path,
            Setting::BootConfigOverride => SettingKind::Path,
            Setting::MonoOverride => SettingKind::Path,
            Setting::MonoDllSearchPathOverride => SettingKind::Text,
            Setting::MonoDebugEnabled => SettingKind::Flag,
            Setting::MonoDebugConnect => SettingKind::Flag,
            Setting::MonoDebugSuspend => SettingKind::Flag,
            Setting::MonoDebugAddress => SettingKind::Text,
            Setting::ClrRuntimeCoreclrPath => SettingKind::Path,
            Setting::ClrCorlibDir => SettingKind::Path,
        }
    }
}

/// The flag that a text in small letters writes.
pub open spec fn flag_text(lowered: Seq<char>) -> Option<bool> {
    if lowered == "true"@ {
        Some(true)
    } else if lowered == "false"@ {
        Some(false)
    } else {
        None
    }
}

/// The flag that a text from a source writes, whatever the case of its
/// letters.
pub open spec fn parsed_flag(text: Option<Seq<char>>) -> Option<bool> {
    match text {
        Some(text) => flag_text(lowercase_text(text)),
        None => None,
    }
}

/// Whether a source gave a text that is not empty.
pub open spec fn has_text(text: Option<Seq<char>>) -> bool {
    text is Some && text.unwrap().len() > 0
}

/// Whether a setting takes the text a source gave for it.
pub open spec fn accepts(setting: Setting, text: Option<Seq<char>>) -> bool {
    match setting.spec_kind() {
        SettingKind::Flag => parsed_flag(text) is Some,
        SettingKind::Text => has_text(text),
        SettingKind::Path => has_text(text),
    }
}

/// The text or path that a setting holds; `None` for a flag.
pub open spec fn stored_text(settings: Settings, setting: Setting) -> Option<Seq<char>> {
    match setting {
        Setting::TargetAssembly => settings.target_assembly,
        Setting::BootConfigOverride => settings.boot_config_override,
        Setting::MonoOverride => settings.mono_override,
        Setting::MonoDllSearchPathOverride => settings.mono_dll_search_path_override,
        Setting::MonoDebugAddress => settings.mono_debug_address,
        Setting::ClrRuntimeCoreclrPath => settings.clr_runtime_coreclr_path,
        Setting::ClrCorlibDir => settings.clr_corlib_dir,
        _ => None,
    }
}

/// `settings` after `setting` took `text`: a flag is set to what the text
/// writes, a text or a path to the text itself.
pub open spec fn assigned(settings: Settings, setting: Setting, text: Seq<char>) -> Settings {
    let flag = match parsed_flag(Some(text)) {
        Some(flag) => flag,
        None => false,
    };
    match setting {
        Setting::Enabled => Settings { enabled: flag, ..settings },
        Setting::RedirectOutputLog => Settings { redirect_output_log: flag, ..settings },
        Setting::IgnoreDisabledEnv => Settings { ignore_disabled_env: flag, ..settings },
        Setting::TargetAssembly => Settings { target_assembly: Some(text), ..settings },
        Setting::BootConfigOverride => Settings { boot_config_override: Some(text), ..settings },
        Setting::MonoOverride => Settings { mono_override: Some(text), ..settings },
        Setting::MonoDllSearchPathOverride => Settings {
            mono_dll_search_path_override: Some(text),
            ..settings
        },
        Setting::MonoDebugEnabled => Settings { mono_debug_enabled: flag, ..settings },
        Setting::MonoDebugConnect => Settings { mono_debug_connect: flag, ..settings },
        Setting::MonoDebugSuspend => Settings { mono_debug_suspend: flag, ..settings },
        Setting::MonoDebugAddress => Settings { mono_debug_address: Some(text), ..settings },
        Setting::ClrRuntimeCoreclrPath => Settings {
            clr_runtime_coreclr_path: Some(text),
            ..settings
        },
        Setting::ClrCorlibDir => Settings { clr_corlib_dir: Some(text), ..settings },
    }
}

/// Two optional paths that are the same, or are both there and differ at
/// most in how they are written.
pub open spec fn same_path(a: Option<Seq<char>>, b: Option<Seq<char>>) -> bool {
    a == b || (a is Some && b is Some)
}

/// Two settings that differ at most in how their paths are written: flags
/// and texts are equal, and a path is equal or present in both.
pub open spec fn agrees(a: Settings, b: Settings) -> bool {
    &&& a.enabled == b.enabled
    &&& a.redirect_output_log == b.redirect_output_log
    &&& a.ignore_disabled_env == b.ignore_disabled_env
    &&& a.mono_debug_enabled == b.mono_debug_enabled
    &&& a.mono_debug_connect == b.mono_debug_connect
    &&& a.mono_debug_suspend == b.mono_debug_suspend
    &&& a.mono_dll_search_path_override == b.mono_dll_search_path_override
    &&& a.mono_debug_address == b.mono_debug_address
    &&& same_path(a.target_assembly, b.target_assembly)
    &&& same_path(a.boot_config_override, b.boot_config_override)
    &&& same_path(a.mono_override, b.mono_override)
    &&& same_path(a.clr_runtime_coreclr_path, b.clr_runtime_coreclr_path)
    &&& same_path(a.clr_corlib_dir, b.clr_corlib_dir)
}

/// The settings after a list of assignments, each a setting and the text a
/// source gave for it. A text that the setting does not accept changes
/// nothing. Paths stand as the source wrote them.
pub open spec fn after_assignments(
    settings: Settings,
    items: Seq<(Setting, Option<Seq<char>>)>,
) -> Settings
    decreases items.len(),
{
    if items.len() == 0 {
        settings
    } else {
        let next = if accepts(items[0].0, items[0].1) {
            assigned(settings, items[0].0, items[0].1.unwrap())
        } else {
            settings
        };
        after_assignments(next, items.drop_first())
    }
}

/// Takes a text that is not empty into `value`. Says whether it did.
pub fn parse_text_base(text: Option<&str>, value: &mut Option<String>) -> (taken: bool)
    ensures
        taken == has_text(borrowed_text(text)),
        taken ==> text_of(*final(value)) == borrowed_text(text),
        !taken ==> *final(value) == *old(value),
{
    if let Some(text) = text {
        if text.unicode_len() != 0 {
            *value = Some(String::from_str(text));
            return true;
        }
    }
    false
}

/// Stores the absolute form of a path where there is one, and the path as
/// written where there is none.
pub fn store_path(text: &str, resolved: Option<String>, value: &mut Option<String>)
    ensures
        text_of(*final(value)) == (match resolved {
            Some(path) => Some(path@),
            None => Some(text@),
        }),
{
    match resolved {
        Some(path) => {
            *value = Some(path);
        },
        None => {
            *value = Some(String::from_str(text));
        },
    }
}

/// Takes a path that is not empty into `value`, made absolute against the
/// directory the process is in. Says whether it did.
///
/// A path that cannot be made absolute is kept as written.
pub fn parse_path_base(text: Option<&str>, value: &mut Option<String>) -> (taken: bool)
    ensures
        taken == has_text(borrowed_text(text)),
        taken ==> *final(value) is Some,
        !taken ==> *final(value) == *old(value),
{
    if let Some(text) = text {
        if text.unicode_len() != 0 {
            let resolved = absolute(text);
            store_path(text, resolved, value);
            return true;
        }
    }
    false
}

/// Reads a flag from a text already in small letters.
pub fn flag_from_lowered(lowered: &str) -> (flag: Option<bool>)
    ensures
        flag == flag_text(lowered@),
{
    if str_equal(lowered, "true") {
        Some(true)
    } else if str_equal(lowered, "false") {
        Some(false)
    } else {
        None
    }
}

/// Takes `true` or `false`, in any case of letters, into `value`. Says
/// whether it did.
pub fn parse_bool_base(text: Option<&str>, value: &mut bool) -> (taken: bool)
    ensures
        taken == parsed_flag(borrowed_text(text)).is_some(),
        taken ==> Some(*final(value)) == parsed_flag(borrowed_text(text)),
        !taken ==> *final(value) == *old(value),
{
    if let Some(text) = text {
        let lowered = to_lowercase(text);
        if let Some(flag) = flag_from_lowered(lowered.as_str()) {
            *value = flag;
            return true;
        }
    }
    false
}

impl Config {
    /// Hands the text a source gave for `setting` to the setting. Says
    /// whether the setting took it.
    pub fn assign(&mut self, setting: Setting, text: Option<&str>) -> (taken: bool)
        ensures
            taken == accepts(setting, borrowed_text(text)),
            !taken ==> final(self)@ == old(self)@,
            taken && setting.spec_kind() != SettingKind::Path ==> final(self)@ == assigned(
                old(self)@,
                setting,
                text.unwrap()@,
            ),
            taken && setting.spec_kind() == SettingKind::Path ==> stored_text(
                final(self)@,
                setting,
            ) is Some && final(self)@ == assigned(
                old(self)@,
                setting,
                stored_text(final(self)@, setting).unwrap(),
            ),
    {
        match setting {
            Setting::Enabled => parse_bool_base(text, &mut self.enabled),
            Setting::RedirectOutputLog => parse_bool_base(text, &mut self.redirect_output_log),
            Setting::IgnoreDisabledEnv => parse_bool_base(text, &mut self.ignore_disabled_env),
            Setting::TargetAssembly => parse_path_base(text, &mut self.target_assembly),
            Setting::BootConfigOverride => parse_path_base(text, &mut self.boot_config_override),
            Setting::MonoOverride => parse_path_base(text, &mut self.mono_override),
            Setting::MonoDllSearchPathOverride => parse_text_base(
                text,
                &mut self.mono_dll_search_path_override,
            ),
            Setting::MonoDebugEnabled => parse_bool_base(text, &mut self.mono_debug_enabled),
            Setting::MonoDebugConnect => parse_bool_base(text, &mut self.mono_debug_connect),
            Setting::MonoDebugSuspend => parse_bool_base(text, &mut self.mono_debug_suspend),
            Setting::MonoDebugAddress => parse_text_base(text, &mut self.mono_debug_address),
            Setting::ClrRuntimeCoreclrPath => parse_path_base(
                text,
                &mut self.clr_runtime_coreclr_path,
            ),
            Setting::ClrCorlibDir => parse_path_base(text, &mut self.clr_corlib_dir),
        }
    }
}

/// An assignment keeps two settings in agreement, whatever form the path
/// takes in the first of them.
pub proof fn lemma_assigned_agrees(
    a: Settings,
    b: Settings,
    setting: Setting,
    stored: Seq<char>,
    text: Seq<char>,
)
    requires
        agrees(a, b),
        setting.spec_kind() != SettingKind::Path ==> stored == text,
    ensures
        agrees(assigned(a, setting, stored), assigned(b, setting, text)),
{
}

/// Settings in agreement stay so under the same list of assignments.
pub proof fn lemma_assignments_agree(
    a: Settings,
    b: Settings,
    items: Seq<(Setting, Option<Seq<char>>)>,
)
    requires
        agrees(a, b),
    ensures
        agrees(after_assignments(a, items), after_assignments(b, items)),
    decreases items.len(),
{
    if items.len() != 0 {
        if accepts(items[0].0, items[0].1) {
            let text = items[0].1.unwrap();
            lemma_assigned_agrees(a, b, items[0].0, text, text);
            lemma_assignments_agree(
                assigned(a, items[0].0, text),
                assigned(b, items[0].0, text),
                items.drop_first(),
            );
        } else {
            lemma_assignments_agree(a, b, items.drop_first());
        }
    }
}

} // verus!
