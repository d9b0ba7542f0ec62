use doorstop::config::Config;
use doorstop::environment::Environment;
use doorstop::launcher::architecture::ProcessorArchitecture;
use doorstop::platform::Platform;
use doorstop::runtimes::il2cpp::{
    bootstrap_failure, bootstrap_step, domain_name, dotnet_rid, holds_char, join_paths, list_entry,
    plan, property_names, publish_directories,
    try_hook, wanted_functions, Hosting, HostingAction, HostingEvent, HostingRuntime,
    HostingStage, Il2CppHook, PlanError,
};
use doorstop::runtimes::{code_bits, BootstrapError};

#[test]
fn hosting_hook_answers_for_runtime_init() {
    let mut runtime = HostingRuntime::new();
    assert_eq!(try_hook(&mut runtime, "il2cpp_runtime_invoke", 0x10), None);
    assert_eq!(runtime.original_init, None);
    assert_eq!(try_hook(&mut runtime, "il2cpp_init", 0x20), Some(Il2CppHook::Init));
    assert_eq!(runtime.original_init, Some(0x20));
    assert_eq!(try_hook(&mut runtime, "mono_debug_init", 0x30), None);
    assert_eq!(runtime.original_init, Some(0x20));
}

#[test]
fn hosting_bootstrap_is_claimed_once() {
    let mut runtime = HostingRuntime::new();
    let claims: Vec<bool> = (0..5).map(|_| runtime.claim_entrypoint()).collect();
    assert_eq!(claims, vec![true, false, false, false, false]);
}

#[test]
fn coreclr_functions() {
    let wanted = wanted_functions();
    assert_eq!(wanted.len(), 3);
    assert_eq!(wanted[0].name, "coreclr_set_error_writer");
    assert!(!wanted[0].required);
    assert_eq!(wanted[1].name, "coreclr_initialize");
    assert!(wanted[1].required);
    assert_eq!(wanted[2].name, "coreclr_create_delegate");
    assert!(wanted[2].required);
}

#[test]
fn runtime_identifiers() {
    assert_eq!(dotnet_rid(Platform::Linux, ProcessorArchitecture::X64), "linux-x64");
    assert_eq!(dotnet_rid(Platform::Windows, ProcessorArchitecture::X86), "win-x86");
    assert_eq!(dotnet_rid(Platform::MacOs, ProcessorArchitecture::Arm64), "osx-arm64");
}

#[test]
fn path_lists() {
    assert!(holds_char("a:b", ':'));
    assert!(!holds_char("ab", ':'));
    assert_eq!(list_entry("/a", Platform::Linux), Some("/a".to_string()));
    assert_eq!(list_entry("/a:b", Platform::Linux), None);
    assert_eq!(list_entry("C:\\a", Platform::Windows), Some("C:\\a".to_string()));
    assert_eq!(list_entry("C:\\a;b", Platform::Windows), Some("\"C:\\a;b\"".to_string()));
    assert_eq!(list_entry("C:\\a\"b", Platform::Windows), None);
    assert_eq!(join_paths("/a", Some("/b"), Platform::Linux), Some("/a:/b".to_string()));
    assert_eq!(join_paths("/a", None, Platform::MacOs), Some("/a".to_string()));
    assert_eq!(join_paths("/a", Some("/b:c"), Platform::Linux), None);
    assert_eq!(join_paths("/a:", Some("/b"), Platform::Linux), None);
    assert_eq!(join_paths("C:\\a", Some("D:\\b"), Platform::Windows), Some("C:\\a;D:\\b".to_string()));
}

#[test]
fn plan_skips_without_target_or_runtime() {
    let mut config = Config::default();
    assert!(matches!(plan(&config, Platform::Linux, ProcessorArchitecture::X64), Hosting::SkipNoTarget));
    config.clr_corlib_dir = Some("/dotnet".to_string());
    assert!(matches!(plan(&config, Platform::Linux, ProcessorArchitecture::X64), Hosting::SkipNoTarget));
    config.clr_corlib_dir = None;
    config.target_assembly = Some("/mods/Loader.dll".to_string());
    assert!(matches!(plan(&config, Platform::Linux, ProcessorArchitecture::X64), Hosting::SkipNoRuntime));
}

#[test]
fn plan_for_linux() {
    let mut config = Config::default();
    config.target_assembly = Some("/mods/core/Loader.dll".to_string());
    config.clr_corlib_dir = Some("/dotnet".to_string());
    match plan(&config, Platform::Linux, ProcessorArchitecture::X64) {
        Hosting::Run(plan) => {
            assert_eq!(plan.coreclr_path, "/dotnet/libcoreclr.so");
            assert_eq!(plan.corlib_dir, "/dotnet");
            assert_eq!(plan.app_paths, "/dotnet:/mods/core");
            assert_eq!(plan.native_paths, "/mods/core/runtimes/linux-x64/native");
            assert_eq!(plan.target_assembly, "/mods/core/Loader.dll");
            assert_eq!(plan.assembly_name, "Loader");
        }
        _ => panic!("hosting was not planned"),
    }
    config.clr_runtime_coreclr_path = Some("/other/libcoreclr.so".to_string());
    match plan(&config, Platform::MacOs, ProcessorArchitecture::Arm64) {
        Hosting::Run(plan) => {
            assert_eq!(plan.coreclr_path, "/other/libcoreclr.so");
            assert_eq!(plan.native_paths, "/mods/core/runtimes/osx-arm64/native");
        }
        _ => panic!("hosting was not planned"),
    }
}

#[test]
fn plan_refusals() {
    let mut config = Config::default();
    config.target_assembly = Some("/mods/Loader.dll".to_string());
    config.clr_runtime_coreclr_path = Some("/dotnet/libcoreclr.so".to_string());
    assert!(matches!(
        plan(&config, Platform::Linux, ProcessorArchitecture::X64),
        Hosting::Refuse(PlanError::CorlibDirMissing)
    ));
    config.clr_corlib_dir = Some("/dotnet".to_string());
    config.target_assembly = Some("/".to_string());
    assert!(matches!(
        plan(&config, Platform::Linux, ProcessorArchitecture::X64),
        Hosting::Refuse(PlanError::TargetWithoutDirectory)
    ));
    config.target_assembly = Some("/mods/..".to_string());
    assert!(matches!(
        plan(&config, Platform::Linux, ProcessorArchitecture::X64),
        Hosting::Refuse(PlanError::TargetWithoutName)
    ));
    config.target_assembly = Some("/mo:ds/Loader.dll".to_string());
    assert!(matches!(
        plan(&config, Platform::Linux, ProcessorArchitecture::X64),
        Hosting::Refuse(PlanError::UnlistableDirectory)
    ));
}

#[test]
fn hosting_runs_to_completion() {
    let (stage, action) = bootstrap_step(HostingStage::Ready, HostingEvent::Planned);
    assert_eq!((stage, action), (HostingStage::LoadingLibrary, HostingAction::LoadLibrary));
    let (stage, action) = bootstrap_step(stage, HostingEvent::LibraryLoaded { loaded: true, bound: true });
    assert_eq!((stage, action), (HostingStage::Initializing, HostingAction::Initialize));
    let (stage, action) = bootstrap_step(stage, HostingEvent::Initialized { code: 0 });
    assert_eq!((stage, action), (HostingStage::CheckingTarget, HostingAction::CheckTarget));
    let (stage, action) = bootstrap_step(stage, HostingEvent::TargetChecked { exists: true });
    assert_eq!((stage, action), (HostingStage::BindingEntrypoint, HostingAction::BindEntrypoint));
    let (stage, action) = bootstrap_step(stage, HostingEvent::EntrypointBound { code: 0 });
    assert_eq!((stage, action), (HostingStage::Invoking, HostingAction::InvokeEntrypoint));
    let (stage, action) = bootstrap_step(stage, HostingEvent::Invoked);
    assert_eq!((stage, action), (HostingStage::Finished, HostingAction::Complete));
    assert_eq!(
        bootstrap_step(stage, HostingEvent::Planned),
        (HostingStage::Finished, HostingAction::Ignore)
    );
}

#[test]
fn hosting_failures_end_the_sequence() {
    assert_eq!(
        bootstrap_step(HostingStage::LoadingLibrary, HostingEvent::LibraryLoaded { loaded: false, bound: false }),
        (HostingStage::Finished, HostingAction::FailLibraryLoad)
    );
    assert_eq!(
        bootstrap_step(HostingStage::LoadingLibrary, HostingEvent::LibraryLoaded { loaded: true, bound: false }),
        (HostingStage::Finished, HostingAction::FailBindingLoad)
    );
    assert_eq!(
        bootstrap_step(HostingStage::Initializing, HostingEvent::Initialized { code: -2147467259 }),
        (HostingStage::Finished, HostingAction::FailRuntimeInit { code: -2147467259 })
    );
    assert_eq!(
        bootstrap_step(HostingStage::CheckingTarget, HostingEvent::TargetChecked { exists: false }),
        (HostingStage::Finished, HostingAction::FailTargetAssemblyMissing)
    );
    assert_eq!(
        bootstrap_step(HostingStage::BindingEntrypoint, HostingEvent::EntrypointBound { code: 5 }),
        (HostingStage::Finished, HostingAction::FailEntrypointNotFound { code: 5 })
    );
    assert_eq!(
        bootstrap_step(HostingStage::Ready, HostingEvent::Invoked),
        (HostingStage::Ready, HostingAction::Ignore)
    );
}

#[test]
fn hosting_error_messages() {
    assert_eq!(
        BootstrapError::RuntimeInitFailure { code: -2147467259 }.message(),
        "Failed to initialize CoreCLR (80004005)"
    );
    assert_eq!(
        BootstrapError::RuntimeInitFailure { code: 1 }.message(),
        format!("Failed to initialize CoreCLR ({:X})", 1)
    );
    assert_eq!(
        BootstrapError::EntrypointNotFound { code: Some(-2146233054) }.message(),
        format!("Failed to find entrypoint method in target assembly ({:X})", -2146233054i32)
    );
    assert_eq!(BootstrapError::TargetAssemblyMissing.message(), "Failed to load target assembly");
    assert_eq!(code_bits(-1), u32::MAX);
    assert_eq!(code_bits(i32::MIN), 0x8000_0000);
    assert_eq!(code_bits(0), 0);
    assert_eq!(code_bits(i32::MAX), 0x7fff_ffff);
}

#[test]
fn hosting_publishes_directories() {
    let mut config = Config::default();
    config.target_assembly = Some("/mods/Loader.dll".to_string());
    config.clr_corlib_dir = Some("/dotnet".to_string());
    let planned = match plan(&config, Platform::Linux, ProcessorArchitecture::X64) {
        Hosting::Run(plan) => plan,
        _ => panic!("hosting was not planned"),
    };
    let mut environment = Environment::new();
    environment.set("DOORSTOP_DLL_SEARCH_DIRS", "old");
    publish_directories(&mut environment, &planned);
    assert_eq!(environment.get("DOORSTOP_MANAGED_FOLDER_DIR"), Some("/dotnet"));
    assert_eq!(environment.get("DOORSTOP_DLL_SEARCH_DIRS"), Some("/dotnet:/mods"));
}

#[test]
fn hosting_names() {
    assert_eq!(domain_name(), "Doorstop Domain");
    assert_eq!(property_names(), ("APP_PATHS", "NATIVE_DLL_SEARCH_DIRECTORIES"));
}

#[test]
fn hosting_failures_name_their_cause() {
    let lacking = bootstrap_failure(HostingAction::FailBindingLoad, "coreclr_initialize".to_string()).unwrap();
    assert_eq!(lacking.message(), "failed to get symbol `coreclr_initialize`");
    let unloaded = bootstrap_failure(HostingAction::FailLibraryLoad, String::new()).unwrap();
    assert_eq!(unloaded.message(), "Failed to load the hosting library");
    let refused = bootstrap_failure(HostingAction::FailRuntimeInit { code: -2147467259 }, String::new()).unwrap();
    assert_eq!(refused.message(), "Failed to initialize CoreCLR (80004005)");
    let missing = bootstrap_failure(HostingAction::FailTargetAssemblyMissing, String::new()).unwrap();
    assert_eq!(missing.message(), "Failed to load target assembly");
    let unbound = bootstrap_failure(HostingAction::FailEntrypointNotFound { code: 16 }, String::new()).unwrap();
    assert_eq!(unbound.message(), "Failed to find entrypoint method in target assembly (10)");
    assert!(bootstrap_failure(HostingAction::Complete, String::new()).is_none());
    assert!(bootstrap_failure(HostingAction::InvokeEntrypoint, String::new()).is_none());
}
