//! The bootstrap machine of the hosting runtime family: when the host's own
//! runtime has come up, a managed runtime is hosted beside it and made to
//! invoke the entrypoint.

use vstd::prelude::*;
use crate::config::{Config, Settings};
use crate::environment::Environment;
use crate::launcher::architecture::ProcessorArchitecture;
use crate::paths::{file_stem, join, parent, path_file_stem, path_join, path_parent, text_of};
use crate::platform::Platform;
use crate::runtimes::mono::claim;
use crate::runtimes::{BootstrapError, BootstrapState};
use crate::table::bind;
use crate::text::str_equal;
use crate::utils::bindings::{wanted_view, Wanted};

verus! {

/// A point at which the machine listens to the host.
#[derive(Debug, Clone, Copy, PartialEq, Eq, Structural)]
pub enum Il2CppHook {
    /// The host's runtime is initialized.
    Init,
}

/// The hook that answers for a symbol.
pub open spec fn hook_named(name: Seq<char>) -> Option<Il2CppHook> {
    if name == "il2cpp_init"@ {
        Some(Il2CppHook::Init)
    } else {
        None
    }
}

/// The functions of the hosting library that the machine calls, each with
/// whether the machine cannot do without it, in the order of their slots.
pub open spec fn coreclr_wanted() -> Seq<(Seq<char>, bool)> {
    seq![
        ("coreclr_set_error_writer"@, false),
        ("coreclr_initialize"@, true),
        ("coreclr_create_delegate"@, true),
    ]
}

/// The slot of `coreclr_set_error_writer`.
pub const CORECLR_SET_ERROR_WRITER: usize = 0;

/// The slot of `coreclr_initialize`.
pub const CORECLR_INITIALIZE: usize = 1;

/// The slot of `coreclr_create_delegate`.
pub const CORECLR_CREATE_DELEGATE: usize = 2;

/// The name of the domain that the hosting runtime is initialized with.
pub fn domain_name() -> (name: &'static str)
    ensures
        name@ == "Doorstop Domain"@,
{
    "Doorstop Domain"
}

/// The names of the two properties that the hosting runtime is initialized
/// with: where managed assemblies are looked for, and where native
/// libraries are.
pub fn property_names() -> (names: (&'static str, &'static str))
    ensures
        names.0@ == "APP_PATHS"@,
        names.1@ == "NATIVE_DLL_SEARCH_DIRECTORIES"@,
{
    ("APP_PATHS", "NATIVE_DLL_SEARCH_DIRECTORIES")
}

/// The functions of the hosting library that the machine calls, in slot
/// order.
pub fn wanted_functions() -> (wanted: Vec<Wanted>)
    ensures
        wanted_view(wanted@) == coreclr_wanted(),
{
    let mut wanted: Vec<Wanted> = Vec::new();
    wanted.push(Wanted { name: "coreclr_set_error_writer", required: false });
    wanted.push(Wanted { name: "coreclr_initialize", required: true });
    wanted.push(Wanted { name: "coreclr_create_delegate", required: true });
    assert(wanted_view(wanted@) =~= coreclr_wanted());
    wanted
}

/// What the machine remembers between the calls of the host.
pub struct HostingRuntime {
    /// The address that the host's initialization really resolves to.
    pub original_init: Option<usize>,
    /// The one invocation of the entrypoint has been given out.
    pub entrypoint_claimed: bool,
}

impl HostingRuntime {
    /// The machine has seen nothing yet.
    pub open spec fn is_fresh(&self) -> bool {
        self.original_init is None && !self.entrypoint_claimed
    }

    /// A machine that has seen nothing yet.
    pub fn new() -> (runtime: HostingRuntime)
        ensures
            runtime.is_fresh(),
            runtime.state() == BootstrapState::Idle,
    {
        HostingRuntime { original_init: None, entrypoint_claimed: false }
    }

    /// How far the bootstrap has come: this family knows the first and the
    /// last state only.
    pub open spec fn state(&self) -> BootstrapState {
        if self.entrypoint_claimed {
            BootstrapState::EntrypointInvoked
        } else {
            BootstrapState::Idle
        }
    }

    /// The host's runtime has initialized. Says whether this call is the one
    /// that bootstraps: the first one is, and no other.
    pub fn claim_entrypoint(&mut self) -> (first: bool)
        ensures
            (first, final(self).entrypoint_claimed) == claim(old(self).entrypoint_claimed),
            final(self).original_init == old(self).original_init,
            final(self).state() == BootstrapState::EntrypointInvoked,
    {
        let first = !self.entrypoint_claimed;
        self.entrypoint_claimed = true;
        first
    }
}

/// The host resolved `name` and got `address`. The family's initialization
/// is answered with a hook, and `address` is kept as what the hook calls
/// first.
pub fn try_hook(runtime: &mut HostingRuntime, name: &str, address: usize) -> (hook: Option<
    Il2CppHook,
>)
    ensures
        hook == hook_named(name@),
        final(runtime).entrypoint_claimed == old(runtime).entrypoint_claimed,
        final(runtime).original_init == (if hook is Some {
            Some(address)
        } else {
            old(runtime).original_init
        }),
{
    if str_equal(name, "il2cpp_init") {
        runtime.original_init = Some(address);
        Some(Il2CppHook::Init)
    } else {
        None
    }
}

/// The runtime identifier of a platform and an architecture: `linux-x64`.
pub open spec fn runtime_identifier(platform: Platform, architecture: ProcessorArchitecture) -> Seq<
    char,
> {
    platform.spec_runtime_name() + "-"@ + architecture.spec_lower_name()
}

/// The runtime identifier of a platform and an architecture.
pub fn dotnet_rid(platform: Platform, architecture: ProcessorArchitecture) -> (rid: String)
    ensures
        rid@ == runtime_identifier(platform, architecture),
{
    let mut rid = String::from_str(platform.runtime_name());
    rid.append("-");
    rid.append(architecture.lower_name());
    rid
}

/// The file name of the hosting library: `libcoreclr.so`.
pub open spec fn hosting_library_name(platform: Platform) -> Seq<char> {
    platform.spec_library_prefix() + "coreclr"@ + platform.spec_library_suffix()
}

/// The directory below the target's in which native libraries are looked
/// for, relative to it: `runtimes/linux-x64/native`.
pub open spec fn native_directory(platform: Platform, architecture: ProcessorArchitecture) -> Seq<
    char,
> {
    "runtimes/"@ + runtime_identifier(platform, architecture) + "/native"@
}

/// Whether the text holds the character.
pub open spec fn has_char(text: Seq<char>, c: char) -> bool {
    exists|i: int| 0 <= i < text.len() && text[i] == c
}

/// One path as it stands in a list of paths; `None` where it cannot stand
/// in one. Elsewhere than on Windows a path cannot hold the separator. On
/// Windows it cannot hold a double quote, and is put in double quotes where
/// it holds the separator.
pub open spec fn listed_path(path: Seq<char>, platform: Platform) -> Option<Seq<char>> {
    match platform {
        Platform::Windows => if has_char(path, '"') {
            None
        } else if has_char(path, ';') {
            Some("\""@ + path + "\""@)
        } else {
            Some(path)
        },
        _ => if has_char(path, ':') {
            None
        } else {
            Some(path)
        },
    }
}

/// A list of one or two paths; `None` where one of them cannot stand in a
/// list.
pub open spec fn path_list(first: Seq<char>, second: Option<Seq<char>>, platform: Platform) -> Option<
    Seq<char>,
> {
    match (listed_path(first, platform), second) {
        (Some(head), None) => Some(head),
        (Some(head), Some(second)) => match listed_path(second, platform) {
            Some(tail) => Some(head.push(platform.spec_list_separator()) + tail),
            None => None,
        },
        (None, _) => None,
    }
}

/// Whether `text` holds `c`.
pub fn holds_char(text: &str, c: char) -> (holds: bool)
    ensures
        holds == has_char(text@, c),
{
    let len = text.unicode_len();
    let mut i: usize = 0;
    while i < len
        invariant
            len == text@.len(),
            i <= len,
            forall|k: int| 0 <= k < i ==> text@[k] != c,
        decreases len - i,
    {
        if text.get_char(i) == c {
            return true;
        }
        i = i + 1;
    }
    false
}

/// One path as it stands in a list of paths.
pub fn list_entry(path: &str, platform: Platform) -> (entry: Option<String>)
    ensures
        text_of(entry) == listed_path(path@, platform),
{
    match platform {
        Platform::Windows => {
            if holds_char(path, '"') {
                None
            } else if holds_char(path, ';') {
                let mut quoted = String::from_str("\"");
                quoted.append(path);
                quoted.append("\"");
                Some(quoted)
            } else {
                Some(String::from_str(path))
            }
        },
        _ => {
            if holds_char(path, ':') {
                None
            } else {
                Some(String::from_str(path))
            }
        },
    }
}

/// A list of one or two paths for a search-path property.
pub fn join_paths(first: &str, second: Option<&str>, platform: Platform) -> (list: Option<String>)
    ensures
        text_of(list) == path_list(
            first@,
            crate::environment::borrowed_text(second),
            platform,
        ),
{
    let mut list = match list_entry(first, platform) {
        Some(head) => head,
        None => {
            return None;
        },
    };
    if let Some(second) = second {
        match list_entry(second, platform) {
            Some(tail) => {
                list.append(platform.list_separator_text());
                list.append(tail.as_str());
                assert(list@ =~= listed_path(first@, platform).unwrap().push(
                    platform.spec_list_separator(),
                ) + tail@);
            },
            None => {
                return None;
            },
        }
    }
    Some(list)
}

/// Why the hosting runtime cannot be set up from the settings.
#[derive(Debug, Clone, Copy, PartialEq, Eq, Structural)]
pub enum PlanError {
    /// The hosting library is named, but not the directory of the base
    /// library.
    CorlibDirMissing,
    /// The target assembly has no directory above it.
    TargetWithoutDirectory,
    /// The target assembly has no file name.
    TargetWithoutName,
    /// A directory cannot stand in a list of paths.
    UnlistableDirectory,
}

/// What the hosting runtime is set up with.
pub struct HostingPlan {
    /// The hosting library to load.
    pub coreclr_path: String,
    /// The directory of the base library, left in the environment for the
    /// entrypoint.
    pub corlib_dir: String,
    /// The property `APP_PATHS`: where managed assemblies are looked for.
    pub app_paths: String,
    /// The property `NATIVE_DLL_SEARCH_DIRECTORIES`.
    pub native_paths: String,
    /// The target assembly, which must be there before the entrypoint is
    /// bound.
    pub target_assembly: String,
    /// The name the assembly is bound by: its file name without extension.
    pub assembly_name: String,
}

/// What the settings say of hosting.
pub enum Hosting {
    /// No target assembly is set: nothing is done.
    SkipNoTarget,
    /// Neither the hosting library nor the directory of the base library is
    /// set: nothing is done.
    SkipNoRuntime,
    /// The settings do not fit together.
    Refuse(PlanError),
    /// The runtime is hosted as planned.
    Run(HostingPlan),
}

/// The hosting library to load: the one the settings name, else the one in
/// the directory of the base library.
pub open spec fn hosting_library(settings: Settings, platform: Platform) -> Option<Seq<char>> {
    match settings.clr_runtime_coreclr_path {
        Some(path) => Some(path),
        None => match settings.clr_corlib_dir {
            Some(dir) => Some(path_join(dir, hosting_library_name(platform))),
            None => None,
        },
    }
}

/// Why settings that name a target assembly and give a hosting library do
/// not fit together; `None` where they do.
pub open spec fn refusal(
    settings: Settings,
    platform: Platform,
    architecture: ProcessorArchitecture,
) -> Option<PlanError> {
    if settings.clr_corlib_dir is None {
        Some(PlanError::CorlibDirMissing)
    } else if path_parent(settings.target_assembly.unwrap()) is None {
        Some(PlanError::TargetWithoutDirectory)
    } else if path_file_stem(settings.target_assembly.unwrap()) is None {
        Some(PlanError::TargetWithoutName)
    } else if path_list(
        settings.clr_corlib_dir.unwrap(),
        path_parent(settings.target_assembly.unwrap()),
        platform,
    ) is None || path_list(
        path_join(
            path_parent(settings.target_assembly.unwrap()).unwrap(),
            native_directory(platform, architecture),
        ),
        None,
        platform,
    ) is None {
        Some(PlanError::UnlistableDirectory)
    } else {
        None
    }
}

/// The plan holds what the settings give for the platform and architecture.
pub open spec fn plan_matches(
    plan: HostingPlan,
    settings: Settings,
    platform: Platform,
    architecture: ProcessorArchitecture,
) -> bool {
    &&& settings.target_assembly is Some
    &&& settings.clr_corlib_dir is Some
    &&& path_parent(settings.target_assembly.unwrap()) is Some
    &&& path_file_stem(settings.target_assembly.unwrap()) is Some
    &&& Some(plan.coreclr_path@) == hosting_library(settings, platform)
    &&& plan.corlib_dir@ == settings.clr_corlib_dir.unwrap()
    &&& plan.target_assembly@ == settings.target_assembly.unwrap()
    &&& plan.assembly_name@ == path_file_stem(settings.target_assembly.unwrap()).unwrap()
    &&& Some(plan.app_paths@) == path_list(
        settings.clr_corlib_dir.unwrap(),
        Some(path_parent(settings.target_assembly.unwrap()).unwrap()),
        platform,
    )
    &&& Some(plan.native_paths@) == path_list(
        path_join(
            path_parent(settings.target_assembly.unwrap()).unwrap(),
            native_directory(platform, architecture),
        ),
        None,
        platform,
    )
}

/// What is made of a target assembly whose directory and name are known.
///
/// `target_dir` and `assembly_name` are what the target's path gives for its
/// directory and for its file name without extension.
pub fn plan_for_target(
    config: &Config,
    coreclr_path: String,
    corlib_dir: &str,
    target: &str,
    target_dir: Option<String>,
    assembly_name: Option<String>,
    platform: Platform,
    architecture: ProcessorArchitecture,
) -> (hosting: Hosting)
    requires
        config@.target_assembly == Some(target@),
        config@.clr_corlib_dir == Some(corlib_dir@),
        Some(coreclr_path@) == hosting_library(config@, platform),
        text_of(target_dir) == path_parent(target@),
        text_of(assembly_name) == path_file_stem(target@),
    ensures
        match hosting {
            Hosting::Run(plan) => refusal(config@, platform, architecture) is None
                && plan_matches(plan, config@, platform, architecture),
            Hosting::Refuse(error) => refusal(config@, platform, architecture) == Some(error),
            _ => false,
        },
{
    let target_dir = match target_dir {
        Some(dir) => dir,
        None => {
            return Hosting::Refuse(PlanError::TargetWithoutDirectory);
        },
    };
    let assembly_name = match assembly_name {
        Some(name) => name,
        None => {
            return Hosting::Refuse(PlanError::TargetWithoutName);
        },
    };
    let app_paths = match join_paths(corlib_dir, Some(target_dir.as_str()), platform) {
        Some(list) => list,
        None => {
            return Hosting::Refuse(PlanError::UnlistableDirectory);
        },
    };
    let mut native = String::from_str("runtimes/");
    let rid = dotnet_rid(platform, architecture);
    native.append(rid.as_str());
    native.append("/native");
    assert(native@ =~= native_directory(platform, architecture));
    let native_dir = join(target_dir.as_str(), native.as_str());
    let native_paths = match join_paths(native_dir.as_str(), None, platform) {
        Some(list) => list,
        None => {
            return Hosting::Refuse(PlanError::UnlistableDirectory);
        },
    };
    Hosting::Run(
        HostingPlan {
            coreclr_path,
            corlib_dir: String::from_str(corlib_dir),
            app_paths,
            native_paths,
            target_assembly: String::from_str(target),
            assembly_name,
        },
    )
}

/// Decides from the settings whether and how the runtime is hosted.
pub fn plan(config: &Config, platform: Platform, architecture: ProcessorArchitecture) -> (hosting:
    Hosting)
    ensures
        match hosting {
            Hosting::SkipNoTarget => config@.target_assembly is None,
            Hosting::SkipNoRuntime => config@.target_assembly is Some && hosting_library(
                config@,
                platform,
            ) is None,
            Hosting::Refuse(error) => {
                &&& config@.target_assembly is Some
                &&& hosting_library(config@, platform) is Some
                &&& refusal(config@, platform, architecture) == Some(error)
            },
            Hosting::Run(plan) => refusal(config@, platform, architecture) is None
                && plan_matches(plan, config@, platform, architecture),
        },
{
    let target = match &config.target_assembly {
        Some(target) => target,
        None => {
            return Hosting::SkipNoTarget;
        },
    };
    let coreclr_path = match &config.clr_runtime_coreclr_path {
        Some(path) => path.clone(),
        None => match &config.clr_corlib_dir {
            Some(dir) => {
                let mut library = String::from_str(platform.library_prefix());
                library.append("coreclr");
                library.append(platform.library_suffix());
                assert(library@ =~= hosting_library_name(platform));
                join(dir.as_str(), library.as_str())
            },
            None => {
                return Hosting::SkipNoRuntime;
            },
        },
    };
    let corlib_dir = match &config.clr_corlib_dir {
        Some(dir) => dir,
        None => {
            return Hosting::Refuse(PlanError::CorlibDirMissing);
        },
    };
    let target_dir = parent(target.as_str());
    let assembly_name = file_stem(target.as_str());
    plan_for_target(
        config,
        coreclr_path,
        corlib_dir.as_str(),
        target.as_str(),
        target_dir,
        assembly_name,
        platform,
        architecture,
    )
}

/// A step of the sequence that hosts the runtime and invokes the entrypoint.
#[derive(Debug, Clone, Copy, PartialEq, Eq, Structural)]
pub enum HostingStage {
    /// Nothing was done yet.
    Ready,
    /// The hosting library is being loaded.
    LoadingLibrary,
    /// The hosting runtime is being initialized.
    Initializing,
    /// The target assembly is being looked for.
    CheckingTarget,
    /// The entrypoint is being bound.
    BindingEntrypoint,
    /// The entrypoint is running.
    Invoking,
    /// The sequence is over, for good or bad.
    Finished,
}

/// What happened at the machine's request.
#[derive(Debug, Clone, Copy, PartialEq, Eq, Structural)]
pub enum HostingEvent {
    /// The settings allow hosting.
    Planned,
    /// The hosting library was loaded and its functions were looked up.
    LibraryLoaded { loaded: bool, bound: bool },
    /// The hosting runtime returned `code` from its initialization.
    Initialized { code: i32 },
    /// The target assembly was looked for.
    TargetChecked { exists: bool },
    /// The hosting runtime returned `code` from binding the entrypoint.
    EntrypointBound { code: i32 },
    /// The entrypoint returned.
    Invoked,
}

/// What the machine asks for next.
#[derive(Debug, Clone, Copy, PartialEq, Eq, Structural)]
pub enum HostingAction {
    /// Load the hosting library and look up its functions; register the sink
    /// for its error messages where it takes one.
    LoadLibrary,
    /// Initialize the hosting runtime with the two search-path properties.
    Initialize,
    /// See whether the target assembly is there.
    CheckTarget,
    /// Bind the entrypoint in the target assembly.
    BindEntrypoint,
    /// Leave the directories in the environment and invoke the entrypoint.
    InvokeEntrypoint,
    /// The entrypoint ran; nothing is left to do.
    Complete,
    /// The hosting library could not be loaded.
    FailLibraryLoad,
    /// The hosting library lacks a function the machine cannot do without.
    FailBindingLoad,
    /// The hosting runtime refused to initialize.
    FailRuntimeInit { code: i32 },
    /// The target assembly is not there.
    FailTargetAssemblyMissing,
    /// The entrypoint could not be bound.
    FailEntrypointNotFound { code: i32 },
    /// The event does not belong to the stage; it is passed over.
    Ignore,
}

/// The stage after an event, and what the machine asks for.
pub open spec fn hosting_transition(stage: HostingStage, event: HostingEvent) -> (
    HostingStage,
    HostingAction,
) {
    match (stage, event) {
        (HostingStage::Ready, HostingEvent::Planned) => (
            HostingStage::LoadingLibrary,
            HostingAction::LoadLibrary,
        ),
        (HostingStage::LoadingLibrary, HostingEvent::LibraryLoaded { loaded, bound }) => if !loaded {
            (HostingStage::Finished, HostingAction::FailLibraryLoad)
        } else if !bound {
            (HostingStage::Finished, HostingAction::FailBindingLoad)
        } else {
            (HostingStage::Initializing, HostingAction::Initialize)
        },
        (HostingStage::Initializing, HostingEvent::Initialized { code }) => if code != 0 {
            (HostingStage::Finished, HostingAction::FailRuntimeInit { code })
        } else {
            (HostingStage::CheckingTarget, HostingAction::CheckTarget)
        },
        (HostingStage::CheckingTarget, HostingEvent::TargetChecked { exists }) => if exists {
            (HostingStage::BindingEntrypoint, HostingAction::BindEntrypoint)
        } else {
            (HostingStage::Finished, HostingAction::FailTargetAssemblyMissing)
        },
        (HostingStage::BindingEntrypoint, HostingEvent::EntrypointBound { code }) => if code != 0 {
            (HostingStage::Finished, HostingAction::FailEntrypointNotFound { code })
        } else {
            (HostingStage::Invoking, HostingAction::InvokeEntrypoint)
        },
        (HostingStage::Invoking, HostingEvent::Invoked) => (
            HostingStage::Finished,
            HostingAction::Complete,
        ),
        _ => (stage, HostingAction::Ignore),
    }
}

/// Takes the sequence that hosts the runtime one step further.
pub fn bootstrap_step(stage: HostingStage, event: HostingEvent) -> (next: (
    HostingStage,
    HostingAction,
))
    ensures
        next == hosting_transition(stage, event),
{
    match (stage, event) {
        (HostingStage::Ready, HostingEvent::Planned) => (
            HostingStage::LoadingLibrary,
            HostingAction::LoadLibrary,
        ),
        (HostingStage::LoadingLibrary, HostingEvent::LibraryLoaded { loaded, bound }) => {
            if !loaded {
                (HostingStage::Finished, HostingAction::FailLibraryLoad)
            } else if !bound {
                (HostingStage::Finished, HostingAction::FailBindingLoad)
            } else {
                (HostingStage::Initializing, HostingAction::Initialize)
            }
        },
        (HostingStage::Initializing, HostingEvent::Initialized { code }) => {
            if code != 0 {
                (HostingStage::Finished, HostingAction::FailRuntimeInit { code })
            } else {
                (HostingStage::CheckingTarget, HostingAction::CheckTarget)
            }
        },
        (HostingStage::CheckingTarget, HostingEvent::TargetChecked { exists }) => {
            if exists {
                (HostingStage::BindingEntrypoint, HostingAction::BindEntrypoint)
            } else {
                (HostingStage::Finished, HostingAction::FailTargetAssemblyMissing)
            }
        },
        (HostingStage::BindingEntrypoint, HostingEvent::EntrypointBound { code }) => {
            if code != 0 {
                (HostingStage::Finished, HostingAction::FailEntrypointNotFound { code })
            } else {
                (HostingStage::Invoking, HostingAction::InvokeEntrypoint)
            }
        },
        (HostingStage::Invoking, HostingEvent::Invoked) => (
            HostingStage::Finished,
            HostingAction::Complete,
        ),
        _ => (stage, HostingAction::Ignore),
    }
}

/// The error that a failing action stands for. `missing` is the function
/// that the hosting library lacks, where it lacks one.
pub fn bootstrap_failure(action: HostingAction, missing: String) -> (error: Option<BootstrapError>)
    ensures
        match action {
            HostingAction::FailLibraryLoad => error == Some(BootstrapError::LibraryLoadFailure),
            HostingAction::FailBindingLoad => error == Some(
                BootstrapError::BindingLoadFailure { symbol: missing },
            ),
            HostingAction::FailRuntimeInit { code } => error == Some(
                BootstrapError::RuntimeInitFailure { code },
            ),
            HostingAction::FailTargetAssemblyMissing => error == Some(
                BootstrapError::TargetAssemblyMissing,
            ),
            HostingAction::FailEntrypointNotFound { code } => error == Some(
                BootstrapError::EntrypointNotFound { code: Some(code) },
            ),
            _ => error is None,
        },
{
    match action {
        HostingAction::FailLibraryLoad => Some(BootstrapError::LibraryLoadFailure),
        HostingAction::FailBindingLoad => Some(BootstrapError::BindingLoadFailure { symbol: missing }),
        HostingAction::FailRuntimeInit { code } => Some(BootstrapError::RuntimeInitFailure { code }),
        HostingAction::FailTargetAssemblyMissing => Some(BootstrapError::TargetAssemblyMissing),
        HostingAction::FailEntrypointNotFound { code } => Some(
            BootstrapError::EntrypointNotFound { code: Some(code) },
        ),
        _ => None,
    }
}

/// The entrypoint is invoked only from the step that bound it, which is
/// reached only when the runtime initialized and the target assembly is
/// there; a sequence that is over takes no further step.
pub proof fn lemma_invocation_needs_every_step(stage: HostingStage, event: HostingEvent)
    ensures
        hosting_transition(stage, event).1 == HostingAction::InvokeEntrypoint ==> stage
            == HostingStage::BindingEntrypoint && event == (HostingEvent::EntrypointBound {
            code: 0,
        }),
        hosting_transition(stage, event).1 == HostingAction::BindEntrypoint ==> stage
            == HostingStage::CheckingTarget && event == (HostingEvent::TargetChecked {
            exists: true,
        }),
        hosting_transition(stage, event).1 == HostingAction::CheckTarget ==> stage
            == HostingStage::Initializing && event == (HostingEvent::Initialized { code: 0 }),
        stage == HostingStage::Finished ==> hosting_transition(stage, event) == (
            HostingStage::Finished,
            HostingAction::Ignore,
        ),
{
}

/// Leaves in the environment, for the entrypoint to read, the directory of
/// the base library and the search path of the hosted runtime.
pub fn publish_directories(environment: &mut Environment, plan: &HostingPlan)
    ensures
        final(environment)@ == bind(
            bind(old(environment)@, "DOORSTOP_MANAGED_FOLDER_DIR"@, plan.corlib_dir@),
            "DOORSTOP_DLL_SEARCH_DIRS"@,
            plan.app_paths@,
        ),
{
    environment.set("DOORSTOP_MANAGED_FOLDER_DIR", plan.corlib_dir.as_str());
    environment.set("DOORSTOP_DLL_SEARCH_DIRS", plan.app_paths.as_str());
}

} // verus!
