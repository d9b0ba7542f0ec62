use doorstop::config::Config;
use doorstop::environment::Environment;
use doorstop::hook::{BindingModel, HookError, ModuleView, SymbolTable};
use doorstop::patches::boot_config_override_patch;
use doorstop::patches::disable_console_redirect_patch::{
    self, on_close_handle, on_dup2, on_fclose, F_OK, HANDLE_CLOSED, STDERR_FILENO, STDOUT_FILENO,
};
use doorstop::patches::mono_override_patch;
use doorstop::patches::{
    dispatch, install_requests, linked_runtime_symbol, linked_target, patch, Dispatch, HookRequest,
    LinkedTarget, PatchHook, Replacements,
};
use doorstop::platform::Platform;
use doorstop::runtimes::il2cpp::{HostingRuntime, Il2CppHook};
use doorstop::runtimes::mono::{MonoHook, MonoRuntime};
use doorstop::runtimes::BootstrapError;

fn replacements() -> Replacements {
    Replacements {
        open_stream: 0xa1,
        create_file: 0xa2,
        duplicate_descriptor: 0xa3,
        close_stream: 0xa4,
        close_handle: 0xa5,
        load_library: 0xa6,
        resolve_symbol: 0xa7,
    }
}

fn unix_module() -> ModuleView {
    let mut module = ModuleView::new();
    module.imports.define("fopen", 0x1);
    module.imports.define("dup2", 0x2);
    module.imports.define("fclose", 0x3);
    module.imports.define("dlopen", 0x4);
    module.imports.define("dlsym", 0x5);
    module.imports.define("malloc", 0x6);
    module
}

#[test]
fn boot_config_is_overridden_by_file_name() {
    let mut config = Config::default();
    assert_eq!(boot_config_override_patch::try_override("/game/Data/boot.config", &config), None);
    config.boot_config_override = Some("/mods/boot.config.patched".to_string());
    assert_eq!(
        boot_config_override_patch::try_override("/game/Data/boot.config", &config),
        Some(&"/mods/boot.config.patched".to_string())
    );
    assert_eq!(
        boot_config_override_patch::try_override("boot.config", &config),
        Some(&"/mods/boot.config.patched".to_string())
    );
    assert_eq!(boot_config_override_patch::try_override("/game/Data/boot.config.bak", &config), None);
    assert_eq!(boot_config_override_patch::try_override("/game/Data/Boot.config", &config), None);
    assert_eq!(boot_config_override_patch::try_override("/game/boot.config/level0", &config), None);
    assert_eq!(boot_config_override_patch::try_override("/", &config), None);
    assert_eq!(boot_config_override_patch::override_for(None, &config), None);
    assert_eq!(
        boot_config_override_patch::override_for(Some("boot.config"), &config),
        Some(&"/mods/boot.config.patched".to_string())
    );
}

#[test]
fn console_guard_answers() {
    assert_eq!(on_dup2(STDOUT_FILENO), Some(F_OK));
    assert_eq!(on_dup2(STDERR_FILENO), Some(F_OK));
    assert_eq!(on_dup2(1), Some(0));
    assert_eq!(on_dup2(2), Some(0));
    assert_eq!(on_dup2(0), None);
    assert_eq!(on_dup2(3), None);
    assert_eq!(on_dup2(-1), None);
    assert_eq!(on_fclose(true, false), Some(0));
    assert_eq!(on_fclose(false, true), Some(0));
    assert_eq!(on_fclose(false, false), None);
    assert_eq!(on_close_handle(true, false), Some(HANDLE_CLOSED));
    assert_eq!(on_close_handle(false, true), Some(1));
    assert_eq!(on_close_handle(false, false), None);
}

#[test]
fn runtime_library_names() {
    for name in ["libmonobdwgc-2.0.so", "libmono.so", "libmono.0.so"] {
        assert!(mono_override_patch::is_runtime_library(name, Platform::Linux));
    }
    for name in ["libmonobdwgc-2.0.dylib", "libmono.dylib", "libmono.0.dylib"] {
        assert!(mono_override_patch::is_runtime_library(name, Platform::MacOs));
    }
    for name in ["mono-2.0-bdwgc.dll", "mono.dll"] {
        assert!(mono_override_patch::is_runtime_library(name, Platform::Windows));
    }
    for name in ["mono.so", "libmono.so.1", "libmono.dylib", "monobdwgc-2.0", "libmono.0", "Libmono.so", ""] {
        assert!(!mono_override_patch::is_runtime_library(name, Platform::Linux));
    }
    assert!(!mono_override_patch::is_runtime_library("libmono.so", Platform::Windows));
    assert!(!mono_override_patch::is_runtime_library("Mono.dll", Platform::Windows));
}

#[test]
fn runtime_library_is_overridden() {
    let mut config = Config::default();
    assert_eq!(
        mono_override_patch::try_override(Some("/game/libmonobdwgc-2.0.so"), &config, Platform::Linux),
        None
    );
    config.mono_override = Some("/mods/libmono.so".to_string());
    assert_eq!(
        mono_override_patch::try_override(Some("/game/libmonobdwgc-2.0.so"), &config, Platform::Linux),
        Some(&"/mods/libmono.so".to_string())
    );
    assert_eq!(mono_override_patch::try_override(Some("/game/libc.so"), &config, Platform::Linux), None);
    assert_eq!(mono_override_patch::try_override(None, &config, Platform::Linux), None);
    assert_eq!(
        mono_override_patch::try_override(Some("mono.dll"), &config, Platform::Windows),
        Some(&"/mods/libmono.so".to_string())
    );
}

#[test]
fn requests_of_each_patch() {
    let mut config = Config::default();
    assert!(boot_config_override_patch::requests(&config, Platform::Linux).is_empty());
    assert!(mono_override_patch::requests(&config, Platform::Windows).is_empty());
    config.boot_config_override = Some("/b".to_string());
    config.mono_override = Some("/m".to_string());
    let boot = boot_config_override_patch::requests(&config, Platform::Linux);
    assert_eq!(boot.len(), 2);
    assert_eq!((boot[0].symbol, boot[0].required, boot[0].hook), ("fopen", false, PatchHook::OpenStream));
    assert_eq!((boot[1].symbol, boot[1].required, boot[1].hook), ("fopen64", false, PatchHook::OpenStream));
    let boot = boot_config_override_patch::requests(&config, Platform::Windows);
    assert_eq!(boot.len(), 1);
    assert_eq!((boot[0].symbol, boot[0].required, boot[0].hook), ("CreateFileW", true, PatchHook::CreateFile));
    let console = disable_console_redirect_patch::requests(Platform::MacOs, false);
    assert_eq!(console.len(), 2);
    assert_eq!((console[0].symbol, console[0].required), ("dup2", true));
    assert_eq!((console[1].symbol, console[1].required), ("fclose", true));
    assert!(disable_console_redirect_patch::requests(Platform::Windows, false).is_empty());
    let console = disable_console_redirect_patch::requests(Platform::Windows, true);
    assert_eq!((console[0].symbol, console[0].required, console[0].hook), ("CloseHandle", true, PatchHook::CloseHandle));
    let library = mono_override_patch::requests(&config, Platform::Linux);
    assert_eq!((library[0].symbol, library[0].required, library[0].hook), ("dlopen", true, PatchHook::LoadLibrary));
    let library = mono_override_patch::requests(&config, Platform::Windows);
    assert_eq!(library[0].symbol, "LoadLibraryW");
}

#[test]
fn replacements_by_hook() {
    let replacements = replacements();
    assert_eq!(replacements.address(PatchHook::OpenStream), 0xa1);
    assert_eq!(replacements.address(PatchHook::CreateFile), 0xa2);
    assert_eq!(replacements.address(PatchHook::DuplicateDescriptor), 0xa3);
    assert_eq!(replacements.address(PatchHook::CloseStream), 0xa4);
    assert_eq!(replacements.address(PatchHook::CloseHandle), 0xa5);
    assert_eq!(replacements.address(PatchHook::LoadLibrary), 0xa6);
    assert_eq!(replacements.address(PatchHook::ResolveSymbol), 0xa7);
}

#[test]
fn install_requests_skips_optional_and_stops_at_required() {
    let mut module = ModuleView::new();
    module.imports.define("fopen", 0x1);
    module.imports.define("dlsym", 0x5);
    let requests = vec![
        HookRequest { symbol: "fopen", required: false, hook: PatchHook::OpenStream },
        HookRequest { symbol: "fopen64", required: false, hook: PatchHook::OpenStream },
        HookRequest { symbol: "dup2", required: true, hook: PatchHook::DuplicateDescriptor },
        HookRequest { symbol: "dlsym", required: true, hook: PatchHook::ResolveSymbol },
    ];
    let search = SymbolTable::new();
    let result = install_requests(&mut module, &requests, &replacements(), BindingModel::Eager, &search);
    assert!(matches!(result, Err(HookError::NotFound)));
    assert_eq!(module.imports.lookup("fopen"), Some(0xa1));
    assert_eq!(module.imports.lookup("dlsym"), Some(0x5));
    let optional = vec![HookRequest { symbol: "fopen64", required: false, hook: PatchHook::OpenStream }];
    let installed = install_requests(&mut module, &optional, &replacements(), BindingModel::Eager, &search).unwrap();
    assert!(installed.is_empty());
}

#[test]
fn patch_with_default_settings_on_linux() {
    let mut module = unix_module();
    let config = Config::default();
    let mut environment = Environment::new();
    let search = SymbolTable::new();
    let installed = patch(
        &mut module,
        &config,
        &mut environment,
        "/game/game.x86_64",
        Platform::Linux,
        false,
        false,
        &replacements(),
        BindingModel::Eager,
        &search,
    )
    .unwrap();
    let summary: Vec<(&str, usize, usize)> =
        installed.iter().map(|h| (h.symbol(), h.replacement(), h.original_address())).collect();
    assert_eq!(summary, vec![("dup2", 0xa3, 0x2), ("fclose", 0xa4, 0x3), ("dlsym", 0xa7, 0x5)]);
    assert_eq!(module.imports.lookup("fopen"), Some(0x1));
    assert_eq!(module.imports.lookup("dup2"), Some(0xa3));
    assert_eq!(module.imports.lookup("fclose"), Some(0xa4));
    assert_eq!(module.imports.lookup("dlopen"), Some(0x4));
    assert_eq!(module.imports.lookup("dlsym"), Some(0xa7));
    assert_eq!(module.imports.lookup("malloc"), Some(0x6));
    assert_eq!(environment.get("DOORSTOP_INITIALIZED"), Some("TRUE"));
    assert_eq!(environment.get("DOORSTOP_PROCESS_PATH"), Some("/game/game.x86_64"));
    assert_eq!(environment.get("DOORSTOP_INVOKE_DLL_PATH"), None);
    assert_eq!(environment.get("UNITY_LOG_FILE"), None);
}

#[test]
fn patch_with_every_override_on_linux() {
    let mut module = unix_module();
    let mut config = Config::default();
    config.redirect_output_log = true;
    config.boot_config_override = Some("/mods/boot.config".to_string());
    config.mono_override = Some("/mods/libmono.so".to_string());
    config.target_assembly = Some("/mods/Loader.dll".to_string());
    let mut environment = Environment::new();
    let mut search = SymbolTable::new();
    search.define("dlsym", 0x55);
    search.define("fopen", 0x11);
    let installed = patch(
        &mut module,
        &config,
        &mut environment,
        "/game/game.x86_64",
        Platform::Linux,
        false,
        false,
        &replacements(),
        BindingModel::Lazy,
        &search,
    )
    .unwrap();
    let summary: Vec<(&str, usize, usize)> =
        installed.iter().map(|h| (h.symbol(), h.replacement(), h.original_address())).collect();
    assert_eq!(
        summary,
        vec![
            ("fopen", 0xa1, 0x11),
            ("dup2", 0xa3, 0),
            ("fclose", 0xa4, 0),
            ("dlopen", 0xa6, 0),
            ("dlsym", 0xa7, 0x55),
        ]
    );
    assert_eq!(environment.get("UNITY_LOG_FILE"), Some("output_log.txt"));
    assert_eq!(environment.get("DOORSTOP_INVOKE_DLL_PATH"), Some("/mods/Loader.dll"));
}

#[test]
fn patch_fails_on_missing_required_symbol() {
    let mut module = ModuleView::new();
    module.imports.define("dup2", 0x2);
    module.imports.define("dlsym", 0x5);
    let mut config = Config::default();
    config.redirect_output_log = true;
    let mut environment = Environment::new();
    let search = SymbolTable::new();
    let result = patch(
        &mut module,
        &config,
        &mut environment,
        "/game/game",
        Platform::Linux,
        false,
        false,
        &replacements(),
        BindingModel::Eager,
        &search,
    );
    assert!(matches!(result, Err(HookError::NotFound)));
    assert_eq!(module.imports.lookup("dup2"), Some(0xa3));
    assert_eq!(module.imports.lookup("dlsym"), Some(0x5));
    assert_eq!(environment.get("UNITY_LOG_FILE"), Some("output_log.txt"));
    assert_eq!(environment.get("DOORSTOP_INITIALIZED"), None);
}

#[test]
fn patch_fails_late_when_resolver_is_missing() {
    let mut module = ModuleView::new();
    module.imports.define("dup2", 0x2);
    module.imports.define("fclose", 0x3);
    let config = Config::default();
    let mut environment = Environment::new();
    let search = SymbolTable::new();
    let result = patch(
        &mut module,
        &config,
        &mut environment,
        "/game/game",
        Platform::Linux,
        false,
        false,
        &replacements(),
        BindingModel::Eager,
        &search,
    );
    assert!(matches!(result, Err(HookError::NotFound)));
    assert_eq!(environment.get("DOORSTOP_INITIALIZED"), Some("TRUE"));
    assert_eq!(module.imports.lookup("fclose"), Some(0xa4));
}

#[test]
fn patch_on_windows() {
    let mut module = ModuleView::new();
    module.imports.define("CreateFileW", 0x1);
    module.imports.define("CloseHandle", 0x2);
    module.imports.define("LoadLibraryW", 0x3);
    module.imports.define("GetProcAddress", 0x4);
    let mut config = Config::default();
    config.boot_config_override = Some("C:\\mods\\boot.config".to_string());
    let mut environment = Environment::new();
    let search = SymbolTable::new();
    let installed = patch(
        &mut module,
        &config,
        &mut environment,
        "C:\\game\\game.exe",
        Platform::Windows,
        true,
        false,
        &replacements(),
        BindingModel::Eager,
        &search,
    )
    .unwrap();
    let summary: Vec<(&str, usize, usize)> =
        installed.iter().map(|h| (h.symbol(), h.replacement(), h.original_address())).collect();
    assert_eq!(
        summary,
        vec![("CreateFileW", 0xa2, 0x1), ("CloseHandle", 0xa5, 0x2), ("GetProcAddress", 0xa7, 0x4)]
    );
    assert_eq!(module.imports.lookup("LoadLibraryW"), Some(0x3));
}

#[test]
fn dispatch_answers_by_name() {
    let mut mono = MonoRuntime::new();
    let mut hosting = HostingRuntime::new();
    let mut module = SymbolTable::new();
    for name in [
        "mono_assembly_getrootdir",
        "mono_set_assemblies_path",
        "mono_jit_parse_options",
        "mono_debug_init",
        "mono_domain_get",
        "mono_domain_assembly_open",
        "mono_assembly_get_image",
        "mono_method_desc_search_in_image",
        "mono_method_desc_new",
        "mono_method_desc_free",
        "mono_runtime_invoke",
        "mono_print_unhandled_exception",
    ] {
        module.define(name, 0x100);
    }
    assert_eq!(dispatch(&mut mono, &mut hosting, &module, None, 0x1).unwrap(), Dispatch::PassThrough);
    assert_eq!(
        dispatch(&mut mono, &mut hosting, &module, Some("malloc"), 0x2).unwrap(),
        Dispatch::PassThrough
    );
    assert!(mono.bindings.is_none());
    assert_eq!(
        dispatch(&mut mono, &mut hosting, &module, Some("il2cpp_init"), 0x3).unwrap(),
        Dispatch::Il2Cpp(Il2CppHook::Init)
    );
    assert_eq!(hosting.original_init, Some(0x3));
    assert_eq!(
        dispatch(&mut mono, &mut hosting, &module, Some("mono_assembly_load_from_full"), 0x4).unwrap(),
        Dispatch::Mono(MonoHook::AssemblyLoadFromFull)
    );
    assert!(mono.bindings.is_some());
    assert_eq!(mono.original("mono_assembly_load_from_full"), Some(0x4));
    assert_eq!(hosting.original_init, Some(0x3));
    assert_eq!(
        dispatch(&mut mono, &mut hosting, &module, Some("mono_thread_attach"), 0x5).unwrap(),
        Dispatch::PassThrough
    );
}

#[test]
fn dispatch_reports_incomplete_runtime() {
    let mut mono = MonoRuntime::new();
    let mut hosting = HostingRuntime::new();
    let module = SymbolTable::new();
    let error = dispatch(&mut mono, &mut hosting, &module, Some("mono_debug_init"), 0x1).unwrap_err();
    assert!(matches!(error, BootstrapError::BindingLoadFailure { .. }));
    assert_eq!(error.message(), "failed to get symbol `mono_assembly_getrootdir`");
    assert!(mono.bindings.is_none());
    assert_eq!(hosting.original_init, None);
}

#[test]
fn ordinals_are_told_from_names_on_windows() {
    assert!(doorstop::patches::asks_by_ordinal(0, Platform::Windows));
    assert!(doorstop::patches::asks_by_ordinal(0xffff, Platform::Windows));
    assert!(!doorstop::patches::asks_by_ordinal(0x1_0000, Platform::Windows));
    assert!(!doorstop::patches::asks_by_ordinal(0x7fff_0000, Platform::Windows));
    assert!(!doorstop::patches::asks_by_ordinal(12, Platform::Linux));
    assert!(!doorstop::patches::asks_by_ordinal(12, Platform::MacOs));
}

#[test]
fn linked_runtime_symbols() {
    assert_eq!(linked_runtime_symbol("_mono_jit_init_version"), Some("mono_jit_init_version"));
    assert_eq!(linked_runtime_symbol("_unity_mono_install_memory_callbacks"), Some("unity_mono_install_memory_callbacks"));
    assert_eq!(linked_runtime_symbol("_GC_malloc"), Some("GC_malloc"));
    assert_eq!(linked_runtime_symbol("_g_free"), Some("g_free"));
    assert_eq!(linked_runtime_symbol("_g_free2"), None);
    assert_eq!(linked_runtime_symbol("_g_malloc"), None);
    assert_eq!(linked_runtime_symbol("mono_jit_init_version"), None);
    assert_eq!(linked_runtime_symbol("_malloc"), None);
    assert_eq!(linked_runtime_symbol("_"), None);
    assert_eq!(linked_runtime_symbol(""), None);
    assert_eq!(linked_runtime_symbol("__mono_x"), None);
}

#[test]
fn linked_symbols_are_pointed_at_hook_or_override() {
    assert_eq!(
        linked_target(Some(MonoHook::DebugInit), false),
        LinkedTarget::Hook(MonoHook::DebugInit)
    );
    assert_eq!(
        linked_target(Some(MonoHook::JitInitVersion), true),
        LinkedTarget::Hook(MonoHook::JitInitVersion)
    );
    assert_eq!(linked_target(None, true), LinkedTarget::Override);
    assert_eq!(linked_target(None, false), LinkedTarget::Keep);
}

#[test]
fn patch_of_a_host_that_links_the_runtime() {
    let mut module = ModuleView::new();
    module.imports.define("dup2", 0x2);
    module.imports.define("fclose", 0x3);
    module.imports.define("_mono_jit_init_version", 0x7);
    let config = Config::default();
    let mut environment = Environment::new();
    let search = SymbolTable::new();
    let installed = patch(
        &mut module,
        &config,
        &mut environment,
        "/Game.app/Contents/MacOS/Game",
        Platform::MacOs,
        false,
        true,
        &replacements(),
        BindingModel::Eager,
        &search,
    )
    .unwrap();
    let summary: Vec<(&str, usize, usize)> =
        installed.iter().map(|h| (h.symbol(), h.replacement(), h.original_address())).collect();
    assert_eq!(summary, vec![("dup2", 0xa3, 0x2), ("fclose", 0xa4, 0x3)]);
    assert_eq!(environment.get("DOORSTOP_INITIALIZED"), Some("TRUE"));
    assert_eq!(module.imports.lookup("_mono_jit_init_version"), Some(0x7));
}
