//! The patches applied to the host's module: the generic ones, and the hook
//! on symbol resolution through which the bootstrap machines are reached.

pub mod boot_config_override_patch;
pub mod disable_console_redirect_patch;
pub mod mono_override_patch;

use vstd::prelude::*;
use crate::config::{Config, Settings};
use crate::environment::Environment;
use crate::hook::{
    captured_original, install, BindingModel, HookError, HookInstallation, ModuleView, Rows,
    SymbolTable,
};
use crate::platform::Platform;
use crate::runtimes::il2cpp::{HostingRuntime, Il2CppHook};
use crate::runtimes::mono::{MonoHook, MonoRuntime};
use crate::runtimes::BootstrapError;
use crate::table::{bind, redirect, resolve};

verus! {

/// A replacement function of the engine.
#[derive(Debug, Clone, Copy, PartialEq, Eq, Structural)]
pub enum PatchHook {
    /// Opens a stream, perhaps on another file.
    OpenStream,
    /// Opens a file, perhaps another one.
    CreateFile,
    /// Duplicates a descriptor, unless onto a standard stream.
    DuplicateDescriptor,
    /// Closes a stream, unless a standard one.
    CloseStream,
    /// Closes a handle, unless that of a standard stream.
    CloseHandle,
    /// Loads a library, perhaps another one.
    LoadLibrary,
    /// Resolves a symbol, perhaps to a hook of a bootstrap machine.
    ResolveSymbol,
}

/// Where the replacement functions of the engine are in memory.
pub struct Replacements {
    pub open_stream: usize,
    pub create_file: usize,
    pub duplicate_descriptor: usize,
    pub close_stream: usize,
    pub close_handle: usize,
    pub load_library: usize,
    pub resolve_symbol: usize,
}

impl Replacements {
    /// The address of a replacement function.
    pub open spec fn spec_address(&self, hook: PatchHook) -> usize {
        match hook {
            PatchHook::OpenStream => self.open_stream,
            PatchHook::CreateFile => self.create_file,
            PatchHook::DuplicateDescriptor => self.duplicate_descriptor,
            PatchHook::CloseStream => self.close_stream,
            PatchHook::CloseHandle => self.close_handle,
            PatchHook::LoadLibrary => self.load_library,
            PatchHook::ResolveSymbol => self.resolve_symbol,
        }
    }

    /// The address of a replacement function.
    #[verifier::when_used_as_spec(spec_address)]
    pub fn address(&self, hook: PatchHook) -> (address: usize)
        ensures
            address == self.spec_address(hook),
    {
        match hook {
            PatchHook::OpenStream => self.open_stream,
            PatchHook::CreateFile => self.create_file,
            PatchHook::DuplicateDescriptor => self.duplicate_descriptor,
            PatchHook::CloseStream => self.close_stream,
            PatchHook::CloseHandle => self.close_handle,
            PatchHook::LoadLibrary => self.load_library,
            PatchHook::ResolveSymbol => self.resolve_symbol,
        }
    }
}

/// A symbol to hook.
pub struct HookRequest {
    pub symbol: &'static str,
    /// Whether the patch fails where the module does not resolve the symbol.
    /// A symbol that is not required is passed over then.
    pub required: bool,
    pub hook: PatchHook,
}

/// A list of requests as symbols, whether each is required, and its hook.
pub open spec fn requests_view(requests: Seq<HookRequest>) -> Seq<(Seq<char>, bool, PatchHook)> {
    Seq::new(requests.len(), |i: int| (requests[i].symbol@, requests[i].required, requests[i].hook))
}

/// An installed hook as its symbol, its replacement and the original kept.
pub open spec fn installations_view(installed: Seq<HookInstallation>) -> Seq<
    (Seq<char>, usize, usize),
> {
    Seq::new(
        installed.len(),
        |i: int|
            (installed[i].spec_symbol(), installed[i].spec_replacement(), installed[i].spec_original()),
    )
}

/// What a list of requests makes of a resolution table.
pub struct Patched {
    /// The table after the hooks that were installed.
    pub imports: Rows,
    /// The hooks that were installed, in order.
    pub installed: Seq<(Seq<char>, usize, usize)>,
    /// Whether a required symbol was missing. The requests after it were not
    /// looked at; the hooks before it stay.
    pub failed: bool,
}

/// Installs the requests one after the other. A symbol that the table does
/// not resolve is passed over where it is not required, and ends the list
/// where it is.
pub open spec fn install_all(
    imports: Rows,
    requests: Seq<(Seq<char>, bool, PatchHook)>,
    replacements: Replacements,
    binding: BindingModel,
    search: Rows,
) -> Patched
    decreases requests.len(),
{
    if requests.len() == 0 {
        Patched { imports, installed: Seq::empty(), failed: false }
    } else {
        let (symbol, required, hook) = requests[0];
        if resolve(imports, symbol) is Some {
            let rest = install_all(
                redirect(imports, symbol, replacements.spec_address(hook)),
                requests.drop_first(),
                replacements,
                binding,
                search,
            );
            Patched {
                imports: rest.imports,
                installed: seq![
                    (
                        symbol,
                        replacements.spec_address(hook),
                        captured_original(binding, imports, search, symbol),
                    ),
                ] + rest.installed,
                failed: rest.failed,
            }
        } else if required {
            Patched { imports, installed: Seq::empty(), failed: true }
        } else {
            install_all(imports, requests.drop_first(), replacements, binding, search)
        }
    }
}

/// Installs a list of hooks in the module.
///
/// The result holds the hooks that were installed. Where a required symbol
/// is missing the result is the error, and the hooks installed before it
/// stay in the module.
pub fn install_requests(
    module: &mut ModuleView,
    requests: &Vec<HookRequest>,
    replacements: &Replacements,
    binding: BindingModel,
    search: &SymbolTable,
) -> (result: Result<Vec<HookInstallation>, HookError>)
    ensures
        final(module).exports@ == old(module).exports@,
        final(module).imports@ == install_all(
            old(module).imports@,
            requests_view(requests@),
            *replacements,
            binding,
            search@,
        ).imports,
        match result {
            Ok(installed) => {
                let patched = install_all(
                    old(module).imports@,
                    requests_view(requests@),
                    *replacements,
                    binding,
                    search@,
                );
                !patched.failed && installations_view(installed@) == patched.installed
            },
            Err(error) => error == HookError::NotFound && install_all(
                old(module).imports@,
                requests_view(requests@),
                *replacements,
                binding,
                search@,
            ).failed,
        },
{
    let ghost all = requests_view(requests@);
    let ghost whole = install_all(old(module).imports@, all, *replacements, binding, search@);
    let mut installed: Vec<HookInstallation> = Vec::new();
    let mut i: usize = 0;
    assert(all.subrange(0, all.len() as int) == all);
    assert(installations_view(installed@) =~= Seq::<(Seq<char>, usize, usize)>::empty());
    while i < requests.len()
        invariant
            all == requests_view(requests@),
            i <= requests@.len(),
            module.exports@ == old(module).exports@,
            whole == install_all(old(module).imports@, all, *replacements, binding, search@),
            ({
                let rest = install_all(
                    module.imports@,
                    all.subrange(i as int, all.len() as int),
                    *replacements,
                    binding,
                    search@,
                );
                &&& whole.imports == rest.imports
                &&& whole.failed == rest.failed
                &&& whole.installed == installations_view(installed@) + rest.installed
            }),
        decreases requests.len() - i,
    {
        let ghost remaining = all.subrange(i as int, all.len() as int);
        let ghost before = module.imports@;
        proof {
            assert(remaining[0] == (
                requests@[i as int].symbol@,
                requests@[i as int].required,
                requests@[i as int].hook,
            ));
            assert(remaining.drop_first() == all.subrange(i + 1, all.len() as int));
        }
        let request = &requests[i];
        match install(module, request.symbol, replacements.address(request.hook), binding, search) {
            Ok(hook) => {
                proof {
                    assert(installations_view(installed@.push(hook)) =~= installations_view(
                        installed@,
                    ) + seq![(hook.spec_symbol(), hook.spec_replacement(), hook.spec_original())]);
                }
                installed.push(hook);
            },
            Err(error) => {
                if request.required {
                    return Err(error);
                }
            },
        }
        i = i + 1;
    }
    Ok(installed)
}

/// The name of the function through which the host resolves symbols.
pub open spec fn resolver_symbol(platform: Platform) -> Seq<char> {
    match platform {
        Platform::Windows => "GetProcAddress"@,
        _ => "dlsym"@,
    }
}

/// The request for the function that resolves symbols. A host that links
/// the runtime directly resolves nothing by name, and nothing is asked for.
pub open spec fn resolver_request(platform: Platform, runtime_linked: bool) -> Seq<
    (Seq<char>, bool, PatchHook),
> {
    if runtime_linked {
        Seq::empty()
    } else {
        seq![(resolver_symbol(platform), true, PatchHook::ResolveSymbol)]
    }
}

/// The symbols hooked when the host is patched: those of the override of the
/// boot configuration, those that guard the console, those of the override
/// of the runtime library, and at last the function that resolves symbols.
pub open spec fn patch_requests(
    settings: Settings,
    platform: Platform,
    handles_known: bool,
    runtime_linked: bool,
) -> Seq<(Seq<char>, bool, PatchHook)> {
    generic_requests(settings, platform, handles_known) + resolver_request(
        platform,
        runtime_linked,
    )
}

/// The environment after the host's output log was redirected, where the
/// settings ask for it.
pub open spec fn with_output_log(
    environment: Seq<(Seq<char>, Seq<char>)>,
    settings: Settings,
) -> Seq<(Seq<char>, Seq<char>)> {
    if settings.redirect_output_log {
        bind(environment, "UNITY_LOG_FILE"@, "output_log.txt"@)
    } else {
        environment
    }
}

/// The environment with what the entrypoint is to read: that the engine
/// ran, the path of the process, and the target assembly where one is set.
pub open spec fn with_signals(
    environment: Seq<(Seq<char>, Seq<char>)>,
    settings: Settings,
    process_path: Seq<char>,
) -> Seq<(Seq<char>, Seq<char>)> {
    let marked = bind(
        bind(environment, "DOORSTOP_INITIALIZED"@, "TRUE"@),
        "DOORSTOP_PROCESS_PATH"@,
        process_path,
    );
    match settings.target_assembly {
        Some(target) => bind(marked, "DOORSTOP_INVOKE_DLL_PATH"@, target),
        None => marked,
    }
}

/// What the entrypoint reads from the environment after the host was
/// patched: that the engine ran, the path of the process, and the target
/// assembly where one is set.
pub proof fn lemma_signals_are_read(
    environment: Seq<(Seq<char>, Seq<char>)>,
    settings: Settings,
    process_path: Seq<char>,
)
    ensures
        resolve(with_signals(environment, settings, process_path), "DOORSTOP_INITIALIZED"@)
            == Some("TRUE"@),
        resolve(with_signals(environment, settings, process_path), "DOORSTOP_PROCESS_PATH"@)
            == Some(process_path),
        resolve(with_signals(environment, settings, process_path), "DOORSTOP_INVOKE_DLL_PATH"@)
            == (match settings.target_assembly {
            Some(target) => Some(target),
            None => resolve(environment, "DOORSTOP_INVOKE_DLL_PATH"@),
        }),
{
    reveal_strlit("DOORSTOP_INITIALIZED");
    reveal_strlit("DOORSTOP_PROCESS_PATH");
    reveal_strlit("DOORSTOP_INVOKE_DLL_PATH");
    let initialized = "DOORSTOP_INITIALIZED"@;
    let path = "DOORSTOP_PROCESS_PATH"@;
    let target = "DOORSTOP_INVOKE_DLL_PATH"@;
    assert(initialized.len() != path.len());
    assert(initialized.len() != target.len());
    assert(path.len() != target.len());
    let first = bind(environment, initialized, "TRUE"@);
    let second = bind(first, path, process_path);
    crate::table::lemma_bind_resolves(environment, initialized, "TRUE"@, initialized);
    crate::table::lemma_bind_resolves(environment, initialized, "TRUE"@, target);
    crate::table::lemma_bind_resolves(first, path, process_path, initialized);
    crate::table::lemma_bind_resolves(first, path, process_path, path);
    crate::table::lemma_bind_resolves(first, path, process_path, target);
    match settings.target_assembly {
        Some(assembly) => {
            crate::table::lemma_bind_resolves(second, target, assembly, initialized);
            crate::table::lemma_bind_resolves(second, target, assembly, path);
            crate::table::lemma_bind_resolves(second, target, assembly, target);
        },
        None => {},
    }
}

/// The requests before the last, which is the function that resolves symbols.
pub open spec fn generic_requests(settings: Settings, platform: Platform, handles_known: bool) -> Seq<
    (Seq<char>, bool, PatchHook),
> {
    boot_config_override_patch::wanted(settings, platform)
        + disable_console_redirect_patch::wanted(platform, handles_known)
        + mono_override_patch::wanted(settings, platform)
}

/// Installing two lists one after the other is installing their
/// concatenation, as long as the first does not fail.
pub proof fn lemma_install_all_append(
    imports: Rows,
    first: Seq<(Seq<char>, bool, PatchHook)>,
    second: Seq<(Seq<char>, bool, PatchHook)>,
    replacements: Replacements,
    binding: BindingModel,
    search: Rows,
)
    ensures
        ({
            let head = install_all(imports, first, replacements, binding, search);
            let whole = install_all(imports, first + second, replacements, binding, search);
            if head.failed {
                whole == head
            } else {
                let tail = install_all(head.imports, second, replacements, binding, search);
                &&& whole.imports == tail.imports
                &&& whole.failed == tail.failed
                &&& whole.installed == head.installed + tail.installed
            }
        }),
    decreases first.len(),
{
    if first.len() == 0 {
        assert(first + second == second);
        let tail = install_all(imports, second, replacements, binding, search);
        assert(Seq::<(Seq<char>, usize, usize)>::empty() + tail.installed == tail.installed);
    } else {
        let (symbol, required, hook) = first[0];
        assert((first + second)[0] == first[0]);
        assert((first + second).drop_first() == first.drop_first() + second);
        if resolve(imports, symbol) is Some {
            let next = redirect(imports, symbol, replacements.spec_address(hook));
            lemma_install_all_append(
                next,
                first.drop_first(),
                second,
                replacements,
                binding,
                search,
            );
            let head_rest = install_all(next, first.drop_first(), replacements, binding, search);
            if !head_rest.failed {
                let tail = install_all(head_rest.imports, second, replacements, binding, search);
                let one = seq![
                    (
                        symbol,
                        replacements.spec_address(hook),
                        captured_original(binding, imports, search, symbol),
                    ),
                ];
                assert(one + (head_rest.installed + tail.installed) == (one + head_rest.installed)
                    + tail.installed);
            }
        } else if !required {
            lemma_install_all_append(
                imports,
                first.drop_first(),
                second,
                replacements,
                binding,
                search,
            );
        }
    }
}

/// A symbol is asked for by one of the requests.
pub open spec fn requested(requests: Seq<(Seq<char>, bool, PatchHook)>, symbol: Seq<char>) -> bool {
    exists|i: int| 0 <= i < requests.len() && (#[trigger] requests[i]).0 == symbol
}

/// The requests touch nothing but what they ask for: a symbol that none of
/// them names resolves after them as it did before.
pub proof fn lemma_install_all_keeps_others(
    imports: Rows,
    requests: Seq<(Seq<char>, bool, PatchHook)>,
    replacements: Replacements,
    binding: BindingModel,
    search: Rows,
    other: Seq<char>,
)
    requires
        !requested(requests, other),
    ensures
        resolve(install_all(imports, requests, replacements, binding, search).imports, other)
            == resolve(imports, other),
    decreases requests.len(),
{
    if requests.len() != 0 {
        let (symbol, required, hook) = requests[0];
        let rest = requests.drop_first();
        assert(requests[0].0 != other);
        assert(!requested(rest, other)) by {
            if requested(rest, other) {
                let i = choose|i: int| 0 <= i < rest.len() && (#[trigger] rest[i]).0 == other;
                assert(requests[i + 1].0 == other);
            }
        }
        if resolve(imports, symbol) is Some {
            let next = redirect(imports, symbol, replacements.spec_address(hook));
            crate::table::lemma_redirect_resolves(
                imports,
                symbol,
                replacements.spec_address(hook),
                other,
            );
            lemma_install_all_keeps_others(next, rest, replacements, binding, search, other);
        } else if !required {
            lemma_install_all_keeps_others(imports, rest, replacements, binding, search, other);
        }
    }
}

/// Patches the host's module.
///
/// The host's output log is redirected where the settings ask for it. Then
/// the generic patches are installed; where one of them fails nothing more
/// is done. Then the environment gets what the entrypoint is to read, and
/// the function through which the host resolves symbols is hooked, unless
/// the host links the runtime directly.
pub fn patch(
    module: &mut ModuleView,
    config: &Config,
    environment: &mut Environment,
    process_path: &str,
    platform: Platform,
    handles_known: bool,
    runtime_linked: bool,
    replacements: &Replacements,
    binding: BindingModel,
    search: &SymbolTable,
) -> (result: Result<Vec<HookInstallation>, HookError>)
    ensures
        final(module).exports@ == old(module).exports@,
        ({
            let generic = install_all(
                old(module).imports@,
                generic_requests(config@, platform, handles_known),
                *replacements,
                binding,
                search@,
            );
            let whole = install_all(
                old(module).imports@,
                patch_requests(config@, platform, handles_known, runtime_linked),
                *replacements,
                binding,
                search@,
            );
            &&& final(module).imports@ == whole.imports
            &&& result is Err <==> whole.failed
            &&& result matches Err(error) ==> error == HookError::NotFound
            &&& result matches Ok(installed) ==> installations_view(installed@) == whole.installed
            &&& final(environment)@ == (if generic.failed {
                with_output_log(old(environment)@, config@)
            } else {
                with_signals(with_output_log(old(environment)@, config@), config@, process_path@)
            })
        }),
{
    if config.redirect_output_log {
        environment.set("UNITY_LOG_FILE", "output_log.txt");
    }
    let mut requests = boot_config_override_patch::requests(config, platform);
    let mut console = disable_console_redirect_patch::requests(platform, handles_known);
    let mut library = mono_override_patch::requests(config, platform);
    let ghost boot_view = requests_view(requests@);
    let ghost console_view = requests_view(console@);
    let ghost library_view = requests_view(library@);
    requests.append(&mut console);
    requests.append(&mut library);
    assert(requests_view(requests@) =~= generic_requests(config@, platform, handles_known));
    let ghost generic = generic_requests(config@, platform, handles_known);
    let ghost last = resolver_request(platform, runtime_linked);
    proof {
        lemma_install_all_append(
            old(module).imports@,
            generic,
            last,
            *replacements,
            binding,
            search@,
        );
    }
    let mut installed = match install_requests(module, &requests, replacements, binding, search) {
        Ok(installed) => installed,
        Err(error) => {
            return Err(error);
        },
    };
    environment.set("DOORSTOP_INITIALIZED", "TRUE");
    environment.set("DOORSTOP_PROCESS_PATH", process_path);
    if let Some(target) = &config.target_assembly {
        environment.set("DOORSTOP_INVOKE_DLL_PATH", target.as_str());
    }
    let mut resolver: Vec<HookRequest> = Vec::new();
    if !runtime_linked {
        resolver.push(
            HookRequest {
                symbol: match platform {
                    Platform::Windows => "GetProcAddress",
                    _ => "dlsym",
                },
                required: true,
                hook: PatchHook::ResolveSymbol,
            },
        );
    }
    assert(requests_view(resolver@) =~= last);
    let ghost first_part = installations_view(installed@);
    match install_requests(module, &resolver, replacements, binding, search) {
        Ok(mut more) => {
            let ghost second_part = installations_view(more@);
            installed.append(&mut more);
            assert(installations_view(installed@) =~= first_part + second_part);
            Ok(installed)
        },
        Err(error) => Err(error),
    }
}

/// Whether the host asks for a symbol by its ordinal and not by a name, as
/// it can on Windows: then what looks like the address of a name is a
/// number below 65536.
pub fn asks_by_ordinal(name_address: usize, platform: Platform) -> (by_ordinal: bool)
    ensures
        by_ordinal == (platform == Platform::Windows && name_address < 0x1_0000),
{
    match platform {
        Platform::Windows => name_address < 0x1_0000,
        _ => false,
    }
}

/// Whether a symbol of a host that links the runtime directly belongs to the
/// runtime. Such a symbol begins with an underscore, and what follows begins
/// with `mono_`, `unity_mono_` or `GC_`, or is `g_free`.
pub open spec fn is_linked_runtime_symbol(symbol: Seq<char>) -> bool {
    &&& symbol.len() >= 1
    &&& symbol[0] == '_'
    &&& {
        let name = symbol.subrange(1, symbol.len() as int);
        ||| "mono_"@.is_prefix_of(name)
        ||| "unity_mono_"@.is_prefix_of(name)
        ||| "GC_"@.is_prefix_of(name)
        ||| name == "g_free"@
    }
}

/// The name under which the runtime exports a symbol of a host that links
/// the runtime directly: the symbol without its underscore, where the
/// symbol belongs to the runtime.
pub fn linked_runtime_symbol(symbol: &str) -> (name: Option<&str>)
    ensures
        match name {
            Some(name) => is_linked_runtime_symbol(symbol@) && name@ == symbol@.subrange(
                1,
                symbol@.len() as int,
            ),
            None => !is_linked_runtime_symbol(symbol@),
        },
{
    let len = symbol.unicode_len();
    if len == 0 || symbol.get_char(0) != '_' {
        return None;
    }
    let name = symbol.substring_char(1, len);
    if crate::text::starts_with(name, "mono_") || crate::text::starts_with(name, "unity_mono_")
        || crate::text::starts_with(name, "GC_") || crate::text::str_equal(name, "g_free") {
        Some(name)
    } else {
        None
    }
}

/// What the import of a symbol is pointed at in a host that links the
/// runtime directly.
#[derive(Debug, Clone, Copy, PartialEq, Eq, Structural)]
pub enum LinkedTarget {
    /// The hook of the machine.
    Hook(MonoHook),
    /// The function of the runtime that is loaded in place of the linked one.
    Override,
    /// What it points at already.
    Keep,
}

/// Decides what the import of a runtime symbol is pointed at: the hook where
/// the machine has one for it, else the overriding runtime where one is set.
pub fn linked_target(hook: Option<MonoHook>, overridden: bool) -> (target: LinkedTarget)
    ensures
        target == (match hook {
            Some(hook) => LinkedTarget::Hook(hook),
            None => if overridden {
                LinkedTarget::Override
            } else {
                LinkedTarget::Keep
            },
        }),
{
    match hook {
        Some(hook) => LinkedTarget::Hook(hook),
        None => {
            if overridden {
                LinkedTarget::Override
            } else {
                LinkedTarget::Keep
            }
        },
    }
}

/// How a resolved symbol is answered.
#[derive(Debug, Clone, Copy, PartialEq, Eq, Structural)]
pub enum Dispatch {
    /// With the address the symbol really has.
    PassThrough,
    /// With a hook of the JIT family's machine.
    Mono(MonoHook),
    /// With a hook of the hosting family's machine.
    Il2Cpp(Il2CppHook),
}

/// The answer for a name: the JIT family's hook where it has one for the
/// name, else the hosting family's, else the real address.
pub open spec fn dispatch_of(name: Option<Seq<char>>) -> Dispatch {
    match name {
        Some(name) => match crate::runtimes::mono::hook_named(name) {
            Some(hook) => Dispatch::Mono(hook),
            None => match crate::runtimes::il2cpp::hook_named(name) {
                Some(hook) => Dispatch::Il2Cpp(hook),
                None => Dispatch::PassThrough,
            },
        },
        None => Dispatch::PassThrough,
    }
}

/// The host resolved a symbol in `module` and got `address`.
///
/// `name` is the name it asked for; it is `None` where the host asked by
/// ordinal or the name is no text. Both machines are consulted for a name,
/// the JIT family's first.
pub fn dispatch(
    mono: &mut MonoRuntime,
    hosting: &mut HostingRuntime,
    module: &SymbolTable,
    name: Option<&str>,
    address: usize,
) -> (result: Result<Dispatch, BootstrapError>)
    ensures
        match name {
            None => {
                &&& result == Ok::<Dispatch, BootstrapError>(Dispatch::PassThrough)
                &&& *final(mono) == *old(mono)
                &&& *final(hosting) == *old(hosting)
            },
            Some(name) => {
                &&& result is Err <==> crate::runtimes::mono::refuses(*old(mono), module@, name@)
                &&& result matches Ok(answer) ==> {
                    &&& answer == dispatch_of(Some(name@))
                    &&& crate::runtimes::mono::resolved(
                        *old(mono),
                        *final(mono),
                        module@,
                        name@,
                        address,
                    )
                    &&& final(hosting).entrypoint_claimed == old(hosting).entrypoint_claimed
                    &&& final(hosting).original_init == (if answer is Il2Cpp {
                        Some(address)
                    } else {
                        old(hosting).original_init
                    })
                }
                &&& result matches Err(error) ==> {
                    &&& *final(mono) == *old(mono)
                    &&& *final(hosting) == *old(hosting)
                    &&& error is BindingLoadFailure
                }
            },
        },
{
    let name = match name {
        Some(name) => name,
        None => {
            return Ok(Dispatch::PassThrough);
        },
    };
    let mono_hook = match crate::runtimes::mono::try_hook(mono, module, name, address) {
        Ok(hook) => hook,
        Err(error) => {
            return Err(error);
        },
    };
    proof {
        reveal_strlit("il2cpp_init");
        reveal_strlit("mono_debug_init");
        reveal_strlit("mono_jit_init_version");
        reveal_strlit("mono_assembly_load_from_full");
        reveal_strlit("mono_profiler_set_events");
        reveal_strlit("mono_image_open_from_data_with_name");
    }
    let hosting_hook = crate::runtimes::il2cpp::try_hook(hosting, name, address);
    match mono_hook {
        Some(hook) => Ok(Dispatch::Mono(hook)),
        None => match hosting_hook {
            Some(hook) => Ok(Dispatch::Il2Cpp(hook)),
            None => Ok(Dispatch::PassThrough),
        },
    }
}

} // verus!
