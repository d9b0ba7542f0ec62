//! The bootstrap machine of the JIT runtime family.
//!
//! The host resolves the runtime's functions by name. Five of those names
//! are answered with a hook; the hooks observe the runtime coming up and
//! lead it to invoke the entrypoint once.

use vstd::prelude::*;
use crate::config::{Config, Settings};
use crate::environment::Environment;
use crate::hook::{Rows, SymbolTable};
use crate::paths::{file_name, join, path_file_name, path_join};
use crate::platform::Platform;
use crate::runtimes::{BootstrapError, BootstrapState};
use crate::table::{bind, resolve};
use crate::text::{
    contains, contains_text, joined, lemma_joined_push, occurs_at, split, split_text, starts_with,
    str_equal, views_of,
};
use crate::utils::bindings::{complete, first_missing, wanted_view, BindingTable, Wanted};

verus! {

/// The format of debugging information that the runtime is started with.
#[derive(Debug, Clone, Copy, PartialEq, Eq, Structural)]
pub enum MonoDebugFormat {
    NoFormat,
    Mono,
}

impl MonoDebugFormat {
    /// The number the runtime knows the format by.
    pub fn code(self) -> (code: i32)
        ensures
            code == (match self {
                MonoDebugFormat::NoFormat => 0i32,
                MonoDebugFormat::Mono => 1i32,
            }),
    {
        match self {
            MonoDebugFormat::NoFormat => 0,
            MonoDebugFormat::Mono => 1,
        }
    }
}

/// How the runtime fared in opening an image.
#[derive(Debug, Clone, Copy, PartialEq, Eq, Structural)]
pub enum MonoImageOpenStatus {
    OK,
    ErrorErrno,
    MissingAssemblyRef,
    ImageInvalid,
}

impl MonoImageOpenStatus {
    /// The number the runtime knows the status by.
    pub fn code(self) -> (code: i32)
        ensures
            code == (match self {
                MonoImageOpenStatus::OK => 0i32,
                MonoImageOpenStatus::ErrorErrno => 1i32,
                MonoImageOpenStatus::MissingAssemblyRef => 2i32,
                MonoImageOpenStatus::ImageInvalid => 3i32,
            }),
    {
        match self {
            MonoImageOpenStatus::OK => 0,
            MonoImageOpenStatus::ErrorErrno => 1,
            MonoImageOpenStatus::MissingAssemblyRef => 2,
            MonoImageOpenStatus::ImageInvalid => 3,
        }
    }
}

/// A set of profiler events, one bit each.
#[derive(Debug, Clone, Copy, PartialEq, Eq, Structural)]
pub struct MonoProfileFlags {
    pub bits: u32,
}

impl MonoProfileFlags {
    /// No event.
    pub const NONE: u32 = 0;

    /// Application domains are created and unloaded.
    pub const APPDOMAIN_EVENTS: u32 = 0x1;

    /// Assemblies are loaded and unloaded.
    pub const ASSEMBLY_EVENTS: u32 = 0x2;

    /// Modules are loaded and unloaded.
    pub const MODULE_EVENTS: u32 = 0x4;

    /// Classes are loaded and unloaded.
    pub const CLASS_EVENTS: u32 = 0x8;

    /// Methods are compiled.
    pub const JIT_COMPILATION: u32 = 0x10;

    /// Methods are inlined.
    pub const INLINING: u32 = 0x20;

    /// Exceptions are thrown and caught.
    pub const EXCEPTIONS: u32 = 0x40;

    /// Objects are allocated.
    pub const ALLOCATIONS: u32 = 0x80;

    /// The collector runs.
    pub const GC: u32 = 0x100;

    /// Threads start and end.
    pub const THREADS: u32 = 0x200;

    /// Remote calls are made.
    pub const REMOTING: u32 = 0x400;

    /// Calls cross between managed and native code.
    pub const TRANSITIONS: u32 = 0x800;

    /// Methods are entered and left.
    pub const ENTER_LEAVE: u32 = 0x1000;

    /// Coverage of methods.
    pub const COVERAGE: u32 = 0x2000;

    /// Coverage of instructions.
    pub const INS_COVERAGE: u32 = 0x4000;

    /// Statistical sampling.
    pub const STATISTICAL: u32 = 0x8000;

    /// Methods are prepared or freed.
    pub const METHOD_EVENTS: u32 = 0x1_0000;

    /// Monitors are contended for.
    pub const MONITOR_EVENTS: u32 = 0x2_0000;

    /// File names are mapped.
    pub const IOMAP_EVENTS: u32 = 0x4_0000;

    /// The collector moves objects.
    pub const GC_MOVES: u32 = 0x8_0000;

    /// The set with the given bits.
    pub fn from_bits(bits: u32) -> (flags: MonoProfileFlags)
        ensures
            flags.bits == bits,
    {
        MonoProfileFlags { bits }
    }

    /// The events that are in either set.
    pub fn union(self, other: MonoProfileFlags) -> (both: MonoProfileFlags)
        ensures
            both.bits == self.bits | other.bits,
    {
        MonoProfileFlags { bits: self.bits | other.bits }
    }

    /// Whether every event of `other` is in this set.
    pub fn contains(self, other: MonoProfileFlags) -> (all: bool)
        ensures
            all == (self.bits & other.bits == other.bits),
    {
        self.bits & other.bits == other.bits
    }
}

/// The events handed on to the runtime when the host asks for `requested`:
/// what the runtime reports as active stays on.
pub open spec fn merged_events(requested: u32, active: Option<u32>) -> u32 {
    match active {
        Some(active) => active | requested,
        None => requested,
    }
}

/// A point at which the machine listens to the host.
#[derive(Debug, Clone, Copy, PartialEq, Eq, Structural)]
pub enum MonoHook {
    DebugInit,
    JitInitVersion,
    AssemblyLoadFromFull,
    ProfilerSetEvents,
    ImageOpenFromDataWithName,
}

/// The hook that answers for a symbol.
pub open spec fn hook_named(name: Seq<char>) -> Option<MonoHook> {
    if name == "mono_debug_init"@ {
        Some(MonoHook::DebugInit)
    } else if name == "mono_jit_init_version"@ {
        Some(MonoHook::JitInitVersion)
    } else if name == "mono_assembly_load_from_full"@ {
        Some(MonoHook::AssemblyLoadFromFull)
    } else if name == "mono_profiler_set_events"@ {
        Some(MonoHook::ProfilerSetEvents)
    } else if name == "mono_image_open_from_data_with_name"@ {
        Some(MonoHook::ImageOpenFromDataWithName)
    } else {
        None
    }
}

/// Whether a symbol belongs to the runtime of this family.
pub open spec fn is_mono_symbol(name: Seq<char>) -> bool {
    "mono_"@.is_prefix_of(name)
}

/// The functions of the runtime that the machine calls, each with whether
/// the machine cannot do without it, in the order of their slots.
pub open spec fn mono_wanted() -> Seq<(Seq<char>, bool)> {
    seq![
        ("g_free"@, false),
        ("mono_free"@, false),
        ("mono_unity_g_free"@, false),
        ("mono_assembly_getrootdir"@, true),
        ("mono_set_assemblies_path"@, true),
        ("mono_jit_parse_options"@, true),
        ("mono_debug_enabled"@, false),
        ("mono_debug_init"@, true),
        ("mono_profiler_get_events"@, false),
        ("mono_domain_get"@, true),
        ("mono_domain_assembly_open"@, true),
        ("mono_assembly_get_image"@, true),
        ("mono_method_desc_search_in_image"@, true),
        ("mono_method_desc_new"@, true),
        ("mono_method_desc_free"@, true),
        ("mono_runtime_invoke"@, true),
        ("mono_print_unhandled_exception"@, true),
        ("mono_object_to_string"@, false),
        ("mono_string_to_utf8"@, false),
    ]
}

/// The slot of `g_free`.
pub const G_FREE: usize = 0;

/// The slot of `mono_free`.
pub const MONO_FREE: usize = 1;

/// The slot of `mono_unity_g_free`.
pub const MONO_UNITY_G_FREE: usize = 2;

/// The slot of `mono_assembly_getrootdir`.
pub const MONO_ASSEMBLY_GETROOTDIR: usize = 3;

/// The slot of `mono_set_assemblies_path`.
pub const MONO_SET_ASSEMBLIES_PATH: usize = 4;

/// The slot of `mono_jit_parse_options`.
pub const MONO_JIT_PARSE_OPTIONS: usize = 5;

/// The slot of `mono_debug_enabled`.
pub const MONO_DEBUG_ENABLED: usize = 6;

/// The slot of `mono_debug_init`.
pub const MONO_DEBUG_INIT: usize = 7;

/// The slot of `mono_profiler_get_events`.
pub const MONO_PROFILER_GET_EVENTS: usize = 8;

/// The slot of `mono_domain_get`.
pub const MONO_DOMAIN_GET: usize = 9;

/// The slot of `mono_domain_assembly_open`.
pub const MONO_DOMAIN_ASSEMBLY_OPEN: usize = 10;

/// The slot of `mono_assembly_get_image`.
pub const MONO_ASSEMBLY_GET_IMAGE: usize = 11;

/// The slot of `mono_method_desc_search_in_image`.
pub const MONO_METHOD_DESC_SEARCH_IN_IMAGE: usize = 12;

/// The slot of `mono_method_desc_new`.
pub const MONO_METHOD_DESC_NEW: usize = 13;

/// The slot of `mono_method_desc_free`.
pub const MONO_METHOD_DESC_FREE: usize = 14;

/// The slot of `mono_runtime_invoke`.
pub const MONO_RUNTIME_INVOKE: usize = 15;

/// The slot of `mono_print_unhandled_exception`.
pub const MONO_PRINT_UNHANDLED_EXCEPTION: usize = 16;

/// The slot of `mono_object_to_string`.
pub const MONO_OBJECT_TO_STRING: usize = 17;

/// The slot of `mono_string_to_utf8`.
pub const MONO_STRING_TO_UTF8: usize = 18;

/// Each slot holds the function it is named after.
pub proof fn lemma_slots()
    ensures
        mono_wanted().len() == 19,
        mono_wanted()[G_FREE as int].0 == "g_free"@,
        mono_wanted()[MONO_FREE as int].0 == "mono_free"@,
        mono_wanted()[MONO_UNITY_G_FREE as int].0 == "mono_unity_g_free"@,
        mono_wanted()[MONO_ASSEMBLY_GETROOTDIR as int].0 == "mono_assembly_getrootdir"@,
        mono_wanted()[MONO_SET_ASSEMBLIES_PATH as int].0 == "mono_set_assemblies_path"@,
        mono_wanted()[MONO_JIT_PARSE_OPTIONS as int].0 == "mono_jit_parse_options"@,
        mono_wanted()[MONO_DEBUG_ENABLED as int].0 == "mono_debug_enabled"@,
        mono_wanted()[MONO_DEBUG_INIT as int].0 == "mono_debug_init"@,
        mono_wanted()[MONO_PROFILER_GET_EVENTS as int].0 == "mono_profiler_get_events"@,
        mono_wanted()[MONO_DOMAIN_GET as int].0 == "mono_domain_get"@,
        mono_wanted()[MONO_DOMAIN_ASSEMBLY_OPEN as int].0 == "mono_domain_assembly_open"@,
        mono_wanted()[MONO_ASSEMBLY_GET_IMAGE as int].0 == "mono_assembly_get_image"@,
        mono_wanted()[MONO_METHOD_DESC_SEARCH_IN_IMAGE as int].0 == "mono_method_desc_search_in_image"@,
        mono_wanted()[MONO_METHOD_DESC_NEW as int].0 == "mono_method_desc_new"@,
        mono_wanted()[MONO_METHOD_DESC_FREE as int].0 == "mono_method_desc_free"@,
        mono_wanted()[MONO_RUNTIME_INVOKE as int].0 == "mono_runtime_invoke"@,
        mono_wanted()[MONO_PRINT_UNHANDLED_EXCEPTION as int].0 == "mono_print_unhandled_exception"@,
        mono_wanted()[MONO_OBJECT_TO_STRING as int].0 == "mono_object_to_string"@,
        mono_wanted()[MONO_STRING_TO_UTF8 as int].0 == "mono_string_to_utf8"@,
{
}

/// The functions of the runtime that the machine calls, in slot order.
pub fn wanted_functions() -> (wanted: Vec<Wanted>)
    ensures
        wanted_view(wanted@) == mono_wanted(),
{
    let mut wanted: Vec<Wanted> = Vec::new();
    wanted.push(Wanted { name: "g_free", required: false });
    wanted.push(Wanted { name: "mono_free", required: false });
    wanted.push(Wanted { name: "mono_unity_g_free", required: false });
    wanted.push(Wanted { name: "mono_assembly_getrootdir", required: true });
    wanted.push(Wanted { name: "mono_set_assemblies_path", required: true });
    wanted.push(Wanted { name: "mono_jit_parse_options", required: true });
    wanted.push(Wanted { name: "mono_debug_enabled", required: false });
    wanted.push(Wanted { name: "mono_debug_init", required: true });
    wanted.push(Wanted { name: "mono_profiler_get_events", required: false });
    wanted.push(Wanted { name: "mono_domain_get", required: true });
    wanted.push(Wanted { name: "mono_domain_assembly_open", required: true });
    wanted.push(Wanted { name: "mono_assembly_get_image", required: true });
    wanted.push(Wanted { name: "mono_method_desc_search_in_image", required: true });
    wanted.push(Wanted { name: "mono_method_desc_new", required: true });
    wanted.push(Wanted { name: "mono_method_desc_free", required: true });
    wanted.push(Wanted { name: "mono_runtime_invoke", required: true });
    wanted.push(Wanted { name: "mono_print_unhandled_exception", required: true });
    wanted.push(Wanted { name: "mono_object_to_string", required: false });
    wanted.push(Wanted { name: "mono_string_to_utf8", required: false });
    assert(wanted_view(wanted@) =~= mono_wanted());
    wanted
}

/// The first of three addresses that is there.
pub open spec fn first_of(a: Option<usize>, b: Option<usize>, c: Option<usize>) -> Option<usize> {
    if a is Some {
        a
    } else if b is Some {
        b
    } else {
        c
    }
}

/// The function that frees what the runtime allocated: `mono_unity_g_free`
/// where the runtime has it, else `mono_free`, else `g_free`.
pub fn free_function(bindings: &BindingTable) -> (address: Option<usize>)
    requires
        bindings.addresses@.len() == mono_wanted().len(),
    ensures
        address == first_of(
            bindings.addresses@[MONO_UNITY_G_FREE as int],
            bindings.addresses@[MONO_FREE as int],
            bindings.addresses@[G_FREE as int],
        ),
{
    let unity = bindings.address(MONO_UNITY_G_FREE);
    if unity.is_some() {
        return unity;
    }
    let mono = bindings.address(MONO_FREE);
    if mono.is_some() {
        return mono;
    }
    bindings.address(G_FREE)
}

/// Whether the runtime can write an exception as text: it takes both
/// `mono_object_to_string` and `mono_string_to_utf8`.
pub fn can_render_exception(bindings: &BindingTable) -> (can: bool)
    requires
        bindings.addresses@.len() == mono_wanted().len(),
    ensures
        can == (bindings.addresses@[MONO_OBJECT_TO_STRING as int] is Some
            && bindings.addresses@[MONO_STRING_TO_UTF8 as int] is Some),
{
    bindings.address(MONO_OBJECT_TO_STRING).is_some() && bindings.address(
        MONO_STRING_TO_UTF8,
    ).is_some()
}

/// What the machine remembers between the calls of the host.
pub struct MonoRuntime {
    /// The runtime's functions, once the first of its symbols was resolved.
    pub bindings: Option<BindingTable>,
    /// The address that each hooked symbol really resolves to.
    pub originals: SymbolTable,
    /// The host has initialized debugging itself.
    pub debug_init_seen: bool,
    /// The runtime is of the legacy line.
    pub legacy: bool,
    /// The runtime is inside its initialization.
    pub during_init: bool,
    /// The runtime has come out of its initialization.
    pub initialized: bool,
    /// The one invocation of the entrypoint has been given out.
    pub entrypoint_claimed: bool,
}

/// Whether a runtime version is of the legacy line: it begins with `v2.`.
pub open spec fn is_legacy_version(version: Seq<u8>) -> bool {
    &&& version.len() >= 3
    &&& version[0] == 0x76
    &&& version[1] == 0x32
    &&& version[2] == 0x2e
}

/// What a trigger of the entrypoint barrier gets, and the barrier after it:
/// the first trigger gets the invocation, and the barrier is closed from
/// then on.
pub open spec fn claim(claimed: bool) -> (bool, bool) {
    (!claimed, true)
}

/// The callers that get the invocation when `callers` trigger the barrier
/// one after the other, in whatever order their triggers come to it, from a
/// barrier that is `claimed` or not.
pub open spec fn granted(claimed: bool, callers: Seq<int>) -> Seq<int>
    decreases callers.len(),
{
    if callers.len() == 0 {
        Seq::empty()
    } else {
        let rest = granted(claim(claimed).1, callers.drop_first());
        if claim(claimed).0 {
            seq![callers[0]] + rest
        } else {
            rest
        }
    }
}

/// A closed barrier grants nothing, however often it is triggered.
pub proof fn lemma_closed_barrier_grants_nothing(callers: Seq<int>)
    ensures
        granted(true, callers) == Seq::<int>::empty(),
    decreases callers.len(),
{
    if callers.len() > 0 {
        lemma_closed_barrier_grants_nothing(callers.drop_first());
    }
}

/// However often the qualifying symbol is triggered, once or more, and by
/// however many callers in whatever order, the entrypoint is invoked exactly
/// once: by the caller whose trigger comes first.
pub proof fn lemma_entrypoint_invoked_once(callers: Seq<int>)
    requires
        callers.len() >= 1,
    ensures
        granted(false, callers) == seq![callers[0]],
        granted(false, callers).len() == 1,
{
    lemma_closed_barrier_grants_nothing(callers.drop_first());
    assert(seq![callers[0]] + Seq::<int>::empty() =~= seq![callers[0]]);
}

impl MonoRuntime {
    /// The machine has seen nothing yet.
    pub open spec fn is_fresh(&self) -> bool {
        &&& self.bindings is None
        &&& self.originals@.len() == 0
        &&& !self.debug_init_seen
        &&& !self.legacy
        &&& !self.during_init
        &&& !self.initialized
        &&& !self.entrypoint_claimed
    }

    /// A machine that has seen nothing yet.
    pub fn new() -> (runtime: MonoRuntime)
        ensures
            runtime.is_fresh(),
            runtime.state() == BootstrapState::Idle,
    {
        MonoRuntime {
            bindings: None,
            originals: SymbolTable::new(),
            debug_init_seen: false,
            legacy: false,
            during_init: false,
            initialized: false,
            entrypoint_claimed: false,
        }
    }

    /// How far the bootstrap has come.
    pub open spec fn state(&self) -> BootstrapState {
        if self.entrypoint_claimed {
            BootstrapState::EntrypointInvoked
        } else if self.during_init {
            BootstrapState::RuntimeInitializing
        } else if self.initialized {
            BootstrapState::RuntimeInitialized
        } else {
            BootstrapState::Idle
        }
    }

    /// How far the bootstrap has come.
    pub fn current_state(&self) -> (state: BootstrapState)
        ensures
            state == self.state(),
    {
        if self.entrypoint_claimed {
            BootstrapState::EntrypointInvoked
        } else if self.during_init {
            BootstrapState::RuntimeInitializing
        } else if self.initialized {
            BootstrapState::RuntimeInitialized
        } else {
            BootstrapState::Idle
        }
    }

    /// The host initializes debugging: remembered, so that the machine does
    /// not do it again.
    pub fn on_debug_init(&mut self)
        ensures
            *final(self) == (MonoRuntime { debug_init_seen: true, ..*old(self) }),
    {
        self.debug_init_seen = true;
    }

    /// The host starts the runtime with `runtime_version`: the runtime is
    /// inside its initialization until `finish_jit_init`.
    pub fn begin_jit_init(&mut self, runtime_version: &[u8])
        ensures
            *final(self) == (MonoRuntime {
                during_init: true,
                legacy: is_legacy_version(runtime_version@),
                ..*old(self)
            }),
            !old(self).entrypoint_claimed ==> final(self).state()
                == BootstrapState::RuntimeInitializing,
    {
        self.legacy = runtime_version.len() >= 3 && runtime_version[0] == 0x76
            && runtime_version[1] == 0x32 && runtime_version[2] == 0x2e;
        self.during_init = true;
    }

    /// The runtime came back from its initialization.
    pub fn finish_jit_init(&mut self)
        ensures
            *final(self) == (MonoRuntime { during_init: false, initialized: true, ..*old(self) }),
            !old(self).entrypoint_claimed ==> final(self).state()
                == BootstrapState::RuntimeInitialized,
    {
        self.during_init = false;
        self.initialized = true;
    }

    /// The host loads an assembly. Says whether this call is the one that
    /// invokes the entrypoint: the first one is, and no other.
    pub fn claim_entrypoint(&mut self) -> (first: bool)
        ensures
            (first, final(self).entrypoint_claimed) == claim(old(self).entrypoint_claimed),
            *final(self) == (MonoRuntime { entrypoint_claimed: true, ..*old(self) }),
            final(self).state() == BootstrapState::EntrypointInvoked,
    {
        let first = !self.entrypoint_claimed;
        self.entrypoint_claimed = true;
        first
    }

    /// Whether a socket bound now is the runtime's debugger socket, which is
    /// to get the option to reuse its address: so it is while the runtime is
    /// inside its initialization, and at no other time.
    pub fn reuse_address_on_bind(&self) -> (reuse: bool)
        ensures
            reuse == self.during_init,
    {
        self.during_init
    }

    /// The address that calls to a hooked symbol are passed on to.
    pub fn original(&self, name: &str) -> (address: Option<usize>)
        ensures
            address == resolve(self.originals@, name@),
    {
        self.originals.lookup(name)
    }
}

/// The last state is final: once the entrypoint was given out, the machine
/// stays in that state whatever the host does next, and no later trigger of
/// the barrier is granted.
pub proof fn lemma_entrypoint_invoked_is_final(runtime: MonoRuntime, legacy: bool)
    requires
        runtime.state() == BootstrapState::EntrypointInvoked,
    ensures
        (MonoRuntime { debug_init_seen: true, ..runtime }).state()
            == BootstrapState::EntrypointInvoked,
        (MonoRuntime { during_init: true, legacy, ..runtime }).state()
            == BootstrapState::EntrypointInvoked,
        (MonoRuntime { during_init: false, initialized: true, ..runtime }).state()
            == BootstrapState::EntrypointInvoked,
        (MonoRuntime { entrypoint_claimed: true, ..runtime }).state()
            == BootstrapState::EntrypointInvoked,
        !claim(runtime.entrypoint_claimed).0,
{
}

/// Whether the machine hooks the binding of sockets when it first meets the
/// runtime: on Linux, where debugging is on, so that the debugger's socket
/// can be bound again right after a restart.
pub fn installs_bind_hook(config: &Config, platform: Platform) -> (installs: bool)
    ensures
        installs == (platform == Platform::Linux && config@.mono_debug_enabled),
{
    match platform {
        Platform::Linux => config.mono_debug_enabled,
        _ => false,
    }
}

/// The hook that answers for `name`, if one does.
pub fn hook_for(name: &str) -> (hook: Option<MonoHook>)
    ensures
        hook == hook_named(name@),
{
    if str_equal(name, "mono_debug_init") {
        Some(MonoHook::DebugInit)
    } else if str_equal(name, "mono_jit_init_version") {
        Some(MonoHook::JitInitVersion)
    } else if str_equal(name, "mono_assembly_load_from_full") {
        Some(MonoHook::AssemblyLoadFromFull)
    } else if str_equal(name, "mono_profiler_set_events") {
        Some(MonoHook::ProfilerSetEvents)
    } else if str_equal(name, "mono_image_open_from_data_with_name") {
        Some(MonoHook::ImageOpenFromDataWithName)
    } else {
        None
    }
}

/// What a resolved symbol makes of the machine where the machine takes it:
/// the first symbol of the family builds the table of the runtime's
/// functions, a symbol with a hook has its address kept, and nothing else
/// changes.
pub open spec fn resolved(
    before: MonoRuntime,
    after: MonoRuntime,
    module: Rows,
    name: Seq<char>,
    address: usize,
) -> bool {
    &&& after.originals@ == (if hook_named(name) is Some {
        bind(before.originals@, name, address)
    } else {
        before.originals@
    })
    &&& if is_mono_symbol(name) && before.bindings is None {
        &&& complete(module, mono_wanted())
        &&& after.bindings is Some
        &&& after.bindings.unwrap().holds(module, mono_wanted())
    } else {
        after.bindings == before.bindings
    }
    &&& after.debug_init_seen == before.debug_init_seen
    &&& after.legacy == before.legacy
    &&& after.during_init == before.during_init
    &&& after.initialized == before.initialized
    &&& after.entrypoint_claimed == before.entrypoint_claimed
}

/// Every symbol that has a hook belongs to the runtime of this family.
pub proof fn lemma_hooked_symbols_are_mono(name: Seq<char>)
    requires
        hook_named(name) is Some,
    ensures
        is_mono_symbol(name),
{
    reveal_strlit("mono_");
    reveal_strlit("mono_debug_init");
    reveal_strlit("mono_jit_init_version");
    reveal_strlit("mono_assembly_load_from_full");
    reveal_strlit("mono_profiler_set_events");
    reveal_strlit("mono_image_open_from_data_with_name");
    assert(name.subrange(0, 5) =~= "mono_"@);
}

/// The table of the runtime's functions is there before any hook is: a
/// symbol is answered with a hook only when the table is built, so that no
/// hook runs without it. And the table is built once: a machine that has it
/// keeps it as it is.
pub proof fn lemma_bindings_before_hooks(
    before: MonoRuntime,
    after: MonoRuntime,
    module: Rows,
    name: Seq<char>,
    address: usize,
)
    requires
        resolved(before, after, module, name, address),
    ensures
        hook_named(name) is Some ==> after.bindings is Some,
        before.bindings is Some ==> after.bindings == before.bindings,
{
    if hook_named(name) is Some {
        lemma_hooked_symbols_are_mono(name);
    }
}

/// Whether the machine refuses a resolved symbol: it does where the symbol
/// is the first of the family and the module lacks a function that the
/// machine cannot do without.
pub open spec fn refuses(before: MonoRuntime, module: Rows, name: Seq<char>) -> bool {
    is_mono_symbol(name) && before.bindings is None && !complete(module, mono_wanted())
}

/// The host resolved `name` in the runtime's module and got `address`.
///
/// The first symbol of this family builds the table of the runtime's
/// functions from `module`, the module's exports; where a required function
/// is missing the machine stays as it was and the error names the function.
/// A symbol that has a hook is answered with it, and `address` is kept as
/// what the hook passes calls on to.
pub fn try_hook(runtime: &mut MonoRuntime, module: &SymbolTable, name: &str, address: usize) -> (result:
    Result<Option<MonoHook>, BootstrapError>)
    ensures
        result is Err <==> refuses(*old(runtime), module@, name@),
        match result {
            Ok(hook) => hook == hook_named(name@) && resolved(
                *old(runtime),
                *final(runtime),
                module@,
                name@,
                address,
            ),
            Err(error) => {
                &&& *final(runtime) == *old(runtime)
                &&& error matches BootstrapError::BindingLoadFailure { symbol }
                &&& exists|slot: int|
                    first_missing(module@, mono_wanted(), slot) && symbol@ == mono_wanted()[slot].0
            },
        },
{
    if starts_with(name, "mono_") && runtime.bindings.is_none() {
        let wanted = wanted_functions();
        match BindingTable::load(module, &wanted) {
            Ok(table) => {
                runtime.bindings = Some(table);
            },
            Err(error) => {
                proof {
                    let slot = choose|slot: int|
                        first_missing(module@, wanted_view(wanted@), slot) && error.symbol@
                            == wanted@[slot].name@;
                    assert(wanted_view(wanted@)[slot].0 == wanted@[slot].name@);
                }
                return Err(BootstrapError::BindingLoadFailure { symbol: error.symbol });
            },
        }
    }
    let hook = hook_for(name);
    if hook.is_some() {
        runtime.originals.bind(name, address);
    }
    Ok(hook)
}

/// The options of the debugger agent, in the order in which they are
/// written.
///
/// The agent listens unless it is to connect; it is told not to suspend
/// unless suspension is asked for; and a legacy runtime that listens without
/// suspending defers its start.
pub open spec fn agent_options(connect: bool, suspend: bool, legacy: bool, address: Seq<char>) -> Seq<
    Seq<char>,
> {
    let base = seq![
        "--debugger-agent=transport=dt_socket"@,
        "embedding=1"@,
        if connect {
            "server=n"@
        } else {
            "server=y"@
        },
        "address="@ + address,
    ];
    if suspend {
        base
    } else if legacy && !connect {
        base.push("suspend=n"@).push("defer=y"@)
    } else {
        base.push("suspend=n"@)
    }
}

/// The argument that starts the debugger agent.
pub open spec fn agent_argument(connect: bool, suspend: bool, legacy: bool, address: Seq<char>) -> Seq<
    char,
> {
    joined(agent_options(connect, suspend, legacy, address), ","@)
}

/// Composes the argument that starts the debugger agent.
pub fn debugger_agent_argument(connect: bool, suspend: bool, legacy: bool, address: &str) -> (argument:
    String)
    ensures
        argument@ == agent_argument(connect, suspend, legacy, address@),
{
    let ghost options = agent_options(connect, suspend, legacy, address@);
    let mut argument = String::from_str("--debugger-agent=transport=dt_socket");
    argument.append(",");
    argument.append("embedding=1");
    argument.append(",");
    argument.append(if connect {
        "server=n"
    } else {
        "server=y"
    });
    argument.append(",");
    argument.append("address=");
    argument.append(address);
    proof {
        let base = options.subrange(0, 4);
        assert(base.drop_last().drop_last().drop_last() =~= seq![options[0]]);
        assert(base.drop_last().drop_last() =~= seq![options[0], options[1]]);
        assert(base.drop_last() =~= seq![options[0], options[1], options[2]]);
        assert(joined(base.drop_last().drop_last().drop_last(), ","@) == options[0]);
        assert(joined(base.drop_last().drop_last(), ","@) == options[0] + ","@ + options[1]);
        assert(joined(base.drop_last(), ","@) == options[0] + ","@ + options[1] + ","@
            + options[2]);
        assert(argument@ =~= joined(base, ","@));
    }
    if !suspend {
        argument.append(",");
        argument.append("suspend=n");
        proof {
            let five = options.subrange(0, 5);
            assert(five.drop_last() =~= options.subrange(0, 4));
            assert(argument@ =~= joined(five, ","@));
        }
        if legacy && !connect {
            argument.append(",");
            argument.append("defer=y");
            proof {
                assert(options.drop_last() =~= options.subrange(0, 5));
                assert(argument@ =~= joined(options, ","@));
            }
        } else {
            proof {
                assert(options =~= options.subrange(0, 5));
            }
        }
    } else {
        proof {
            assert(options =~= options.subrange(0, 4));
        }
    }
    argument
}

/// The options of the debugger agent for a legacy runtime that neither
/// connects nor suspends hold `server=y`, `suspend=n` and `defer=y`. With
/// suspension asked for they hold neither `suspend=n` nor `defer=y`,
/// whatever the runtime and the address.
pub proof fn lemma_agent_options(connect: bool, suspend: bool, legacy: bool, address: Seq<char>)
    ensures
        !connect && !suspend && legacy ==> {
            &&& agent_options(connect, suspend, legacy, address).contains("server=y"@)
            &&& agent_options(connect, suspend, legacy, address).contains("suspend=n"@)
            &&& agent_options(connect, suspend, legacy, address).contains("defer=y"@)
        },
        suspend ==> {
            &&& !agent_options(connect, suspend, legacy, address).contains("suspend=n"@)
            &&& !agent_options(connect, suspend, legacy, address).contains("defer=y"@)
        },
{
    let options = agent_options(connect, suspend, legacy, address);
    if !connect && !suspend && legacy {
        assert(options[2] == "server=y"@);
        assert(options[4] == "suspend=n"@);
        assert(options[5] == "defer=y"@);
    }
    if suspend {
        reveal_strlit("--debugger-agent=transport=dt_socket");
        reveal_strlit("embedding=1");
        reveal_strlit("server=n");
        reveal_strlit("server=y");
        reveal_strlit("address=");
        reveal_strlit("suspend=n");
        reveal_strlit("defer=y");
        assert(options.len() == 4);
        assert(("address="@ + address)[0] == 'a');
        assert("suspend=n"@[0] == 's');
        assert("defer=y"@[0] == 'd');
        assert forall|i: int| 0 <= i < options.len() implies options[i] != "suspend=n"@
            && options[i] != "defer=y"@ by {
            assert(options[i][0] != 's' || options[i].len() != 9);
            assert(options[i][0] != 'd');
        }
    }
}

/// What the argument of the debugger agent begins with, up to the address.
pub open spec fn agent_prefix(connect: bool) -> Seq<char> {
    "--debugger-agent=transport=dt_socket"@ + ","@ + "embedding=1"@ + ","@ + (if connect {
        "server=n"@
    } else {
        "server=y"@
    }) + ","@ + "address="@
}

/// The first four options, joined, are the prefix and the address.
proof fn lemma_first_options(connect: bool, suspend: bool, legacy: bool, address: Seq<char>)
    ensures
        agent_options(connect, suspend, legacy, address).len() >= 4,
        joined(agent_options(connect, suspend, legacy, address).subrange(0, 4), ","@)
            == agent_prefix(connect) + address,
{
    let options = agent_options(connect, suspend, legacy, address);
    let one = seq![options[0]];
    lemma_joined_push(one, ","@, options[1]);
    lemma_joined_push(one.push(options[1]), ","@, options[2]);
    lemma_joined_push(one.push(options[1]).push(options[2]), ","@, options[3]);
    assert(options.subrange(0, 4) =~= one.push(options[1]).push(options[2]).push(options[3]));
    assert(joined(options.subrange(0, 4), ","@) =~= agent_prefix(connect) + address);
}

/// The argument of an agent that is to suspend is the prefix and the address.
proof fn lemma_suspending_argument(connect: bool, legacy: bool, address: Seq<char>)
    ensures
        agent_argument(connect, true, legacy, address) == agent_prefix(connect) + address,
{
    let options = agent_options(connect, true, legacy, address);
    lemma_first_options(connect, true, legacy, address);
    assert(options.subrange(0, 4) =~= options);
}

/// The letters of the prefix, as far as they matter for what it can hold.
proof fn lemma_prefix_letters(connect: bool, k: int)
    requires
        0 <= k < 66,
    ensures
        agent_prefix(connect).len() == 66,
        agent_prefix(connect)[k] != 'f',
        agent_prefix(connect)[k] == 'u' ==> k == 5,
        agent_prefix(connect)[4] == 'b',
        agent_prefix(connect)[64] == 's',
        agent_prefix(connect)[65] == '=',
{
    reveal_strlit("--debugger-agent=transport=dt_socket");
    reveal_strlit(",");
    reveal_strlit("embedding=1");
    reveal_strlit("server=n");
    reveal_strlit("server=y");
    reveal_strlit("address=");
    let a = "--debugger-agent=transport=dt_socket"@;
    let b = "embedding=1"@;
    let c = if connect {
        "server=n"@
    } else {
        "server=y"@
    };
    let d = "address="@;
    let prefix = agent_prefix(connect);
    assert(prefix.len() == 66);
    // The solver knows the letter at a place only where the place is a given
    // number, so each stretch of the prefix is gone through place by place.
    assert(prefix[4] == a[4]);
    assert(prefix[64] == d[6]);
    assert(prefix[65] == d[7]);
    if k < 36 {
        assert(prefix[k] == a[k]);
        assert(
            k == 0 || k == 1 || k == 2 || k == 3 || k == 4 || k == 5 || k == 6 || k == 7
            || k == 8 || k == 9 || k == 10 || k == 11 || k == 12 || k == 13 || k == 14 || k == 15
            || k == 16 || k == 17 || k == 18 || k == 19 || k == 20 || k == 21 || k == 22 || k == 23
            || k == 24 || k == 25 || k == 26 || k == 27 || k == 28 || k == 29 || k == 30 || k == 31
            || k == 32 || k == 33 || k == 34 || k == 35
        );
    } else if k == 36 || k == 48 || k == 57 {
    } else if k < 48 {
        assert(prefix[k] == b[k - 37]);
        assert(
            k - 37 == 0 || k - 37 == 1 || k - 37 == 2 || k - 37 == 3 || k - 37 == 4
            || k - 37 == 5 || k - 37 == 6 || k - 37 == 7 || k - 37 == 8 || k - 37 == 9
            || k - 37 == 10
        );
    } else if k < 57 {
        assert(prefix[k] == c[k - 49]);
        assert(
            k - 49 == 0 || k - 49 == 1 || k - 49 == 2 || k - 49 == 3 || k - 49 == 4
            || k - 49 == 5 || k - 49 == 6 || k - 49 == 7
        );
    } else {
        assert(prefix[k] == d[k - 58]);
        assert(
            k - 58 == 0 || k - 58 == 1 || k - 58 == 2 || k - 58 == 3 || k - 58 == 4
            || k - 58 == 5 || k - 58 == 6 || k - 58 == 7
        );
    }
}

/// With suspension asked for, the argument of the debugger agent holds
/// `suspend=n` or `defer=y` only where the address itself does, whatever
/// the runtime and the direction of the connection.
pub proof fn lemma_suspending_agent_argument(connect: bool, legacy: bool, address: Seq<char>)
    requires
        !contains_text(address, "suspend=n"@),
        !contains_text(address, "defer=y"@),
    ensures
        !contains_text(agent_argument(connect, true, legacy, address), "suspend=n"@),
        !contains_text(agent_argument(connect, true, legacy, address), "defer=y"@),
{
    reveal_strlit("suspend=n");
    reveal_strlit("defer=y");
    lemma_suspending_argument(connect, legacy, address);
    let prefix = agent_prefix(connect);
    let argument = prefix + address;
    lemma_prefix_letters(connect, 0);
    assert forall|at: int| !occurs_at(argument, "suspend=n"@, at) by {
        if occurs_at(argument, "suspend=n"@, at) {
            let found = argument.subrange(at, at + 9);
            assert(found[0] == 's' && found[1] == 'u');
            if at >= 66 {
                assert(address.subrange(at - 66, at - 66 + 9) =~= found);
                assert(occurs_at(address, "suspend=n"@, at - 66));
            } else if at == 65 {
                assert(found[0] == prefix[65]);
            } else {
                lemma_prefix_letters(connect, at + 1);
                assert(found[1] == prefix[at + 1]);
                assert(found[0] == prefix[at]);
            }
        }
    }
    assert forall|at: int| !occurs_at(argument, "defer=y"@, at) by {
        if occurs_at(argument, "defer=y"@, at) {
            let found = argument.subrange(at, at + 7);
            assert(found[0] == 'd' && found[2] == 'f');
            if at >= 66 {
                assert(address.subrange(at - 66, at - 66 + 7) =~= found);
                assert(occurs_at(address, "defer=y"@, at - 66));
            } else if at >= 64 {
                assert(found[0] == prefix[at]);
            } else {
                lemma_prefix_letters(connect, at + 2);
                assert(found[2] == prefix[at + 2]);
            }
        }
    }
}

/// The argument of the debugger agent for a legacy runtime that neither
/// connects nor suspends holds `server=y`, `suspend=n` and `defer=y`.
pub proof fn lemma_listening_legacy_agent_argument(address: Seq<char>)
    ensures
        contains_text(agent_argument(false, false, true, address), "server=y"@),
        contains_text(agent_argument(false, false, true, address), "suspend=n"@),
        contains_text(agent_argument(false, false, true, address), "defer=y"@),
{
    reveal_strlit("--debugger-agent=transport=dt_socket");
    reveal_strlit(",");
    reveal_strlit("embedding=1");
    reveal_strlit("server=y");
    reveal_strlit("address=");
    reveal_strlit("suspend=n");
    reveal_strlit("defer=y");
    let options = agent_options(false, false, true, address);
    lemma_first_options(false, false, true, address);
    let four = options.subrange(0, 4);
    lemma_joined_push(four, ","@, "suspend=n"@);
    lemma_joined_push(four.push("suspend=n"@), ","@, "defer=y"@);
    assert(options =~= four.push("suspend=n"@).push("defer=y"@));
    let argument = joined(options, ","@);
    let head = agent_prefix(false) + address;
    assert(argument =~= head + ","@ + "suspend=n"@ + ","@ + "defer=y"@);
    let n = head.len() as int;
    assert(argument.subrange(49, 57) =~= "server=y"@);
    assert(occurs_at(argument, "server=y"@, 49));
    assert(argument.subrange(n + 1, n + 10) =~= "suspend=n"@);
    assert(occurs_at(argument, "suspend=n"@, n + 1));
    assert(argument.subrange(n + 11, n + 18) =~= "defer=y"@);
    assert(occurs_at(argument, "defer=y"@, n + 11));
}

/// The directories in which the runtime looks for assemblies: the override
/// of the settings before the runtime's own directory.
pub open spec fn search_path(overriding: Option<Seq<char>>, root_dir: Seq<char>, separator: char) -> Seq<
    char,
> {
    match overriding {
        Some(dirs) => dirs.push(separator) + root_dir,
        None => root_dir,
    }
}

/// The argument that the runtime's option parser is given: none unless
/// debugging is on; then what `MONO_ARGUMENTS` holds, and the composed agent
/// argument where the variable is not set.
pub open spec fn jit_options(
    settings: Settings,
    environment: Seq<(Seq<char>, Seq<char>)>,
    legacy: bool,
) -> Option<Seq<char>> {
    if !settings.mono_debug_enabled {
        None
    } else {
        match resolve(environment, "MONO_ARGUMENTS"@) {
            Some(arguments) => Some(arguments),
            None => Some(
                agent_argument(
                    settings.mono_debug_connect,
                    settings.mono_debug_suspend,
                    legacy,
                    settings.mono_debug_address.unwrap(),
                ),
            ),
        }
    }
}

/// Whether the machine waits a moment before it hands the options over:
/// it does where `MONO_ARGUMENTS` tells the agent to connect, to give the
/// debugger time to listen.
pub open spec fn pauses(settings: Settings, environment: Seq<(Seq<char>, Seq<char>)>) -> bool {
    &&& settings.mono_debug_enabled
    &&& resolve(environment, "MONO_ARGUMENTS"@) matches Some(arguments)
    &&& contains_text(arguments, "server=n"@)
}

/// What the machine does to the runtime before the runtime initializes.
pub struct InitActions {
    /// The search path to set in the runtime, where the settings override it.
    pub assemblies_path: Option<String>,
    /// The argument for the runtime's option parser.
    pub jit_options: Option<String>,
    /// Wait a quarter of a second before the options are handed over.
    pub pause_before_options: bool,
    /// Initialize debugging in the runtime's own format.
    pub debug_init: bool,
}

/// Prepares the runtime's initialization.
///
/// `root_dir` is the directory the runtime reports for its assemblies, and
/// `runtime_debug_enabled` what it answers when asked whether debugging is
/// on, where it can be asked. The environment gets the directory and the
/// search path for the entrypoint to read.
pub fn init(
    runtime: &MonoRuntime,
    config: &Config,
    environment: &mut Environment,
    root_dir: &str,
    runtime_debug_enabled: Option<bool>,
    platform: Platform,
) -> (actions: InitActions)
    requires
        config@.mono_debug_enabled && resolve(old(environment)@, "MONO_ARGUMENTS"@) is None
            ==> config@.mono_debug_address is Some,
    ensures
        final(environment)@ == bind(
            bind(old(environment)@, "DOORSTOP_MANAGED_FOLDER_DIR"@, root_dir@),
            "DOORSTOP_DLL_SEARCH_DIRS"@,
            search_path(
                config@.mono_dll_search_path_override,
                root_dir@,
                platform.spec_list_separator(),
            ),
        ),
        crate::paths::text_of(actions.assemblies_path) == (match config@.mono_dll_search_path_override {
            Some(_) => Some(
                search_path(
                    config@.mono_dll_search_path_override,
                    root_dir@,
                    platform.spec_list_separator(),
                ),
            ),
            None => None,
        }),
        crate::paths::text_of(actions.jit_options) == jit_options(
            config@,
            old(environment)@,
            runtime.legacy,
        ),
        actions.pause_before_options == pauses(config@, old(environment)@),
        actions.debug_init == !(runtime.debug_init_seen || runtime_debug_enabled == Some(true)),
{
    let mut pause_before_options = false;
    let jit_options = if config.mono_debug_enabled {
        match environment.get("MONO_ARGUMENTS") {
            Some(arguments) => {
                pause_before_options = contains(arguments, "server=n");
                Some(String::from_str(arguments))
            },
            None => {
                let address = match &config.mono_debug_address {
                    Some(address) => address.as_str(),
                    None => "",
                };
                Some(
                    debugger_agent_argument(
                        config.mono_debug_connect,
                        config.mono_debug_suspend,
                        runtime.legacy,
                        address,
                    ),
                )
            },
        }
    } else {
        None
    };
    environment.set("DOORSTOP_MANAGED_FOLDER_DIR", root_dir);
    let assemblies_path = match &config.mono_dll_search_path_override {
        Some(dirs) => {
            let mut path = String::from_str(dirs.as_str());
            path.append(platform.list_separator_text());
            path.append(root_dir);
            assert(path@ =~= search_path(
                config@.mono_dll_search_path_override,
                root_dir@,
                platform.spec_list_separator(),
            ));
            environment.set("DOORSTOP_DLL_SEARCH_DIRS", path.as_str());
            Some(path)
        },
        None => {
            environment.set("DOORSTOP_DLL_SEARCH_DIRS", root_dir);
            None
        },
    };
    let runtime_debugging = match runtime_debug_enabled {
        Some(enabled) => enabled,
        None => false,
    };
    InitActions {
        assemblies_path,
        jit_options,
        pause_before_options,
        debug_init: !(runtime.debug_init_seen || runtime_debugging),
    }
}

/// The events handed on to the runtime when the host asks for `requested`
/// and the runtime reports `active`, where it can be asked.
pub fn merge_profiler_events(requested: MonoProfileFlags, active: Option<MonoProfileFlags>) -> (events:
    MonoProfileFlags)
    ensures
        events.bits == merged_events(
            requested.bits,
            match active {
                Some(active) => Some(active.bits),
                None => None,
            },
        ),
{
    match active {
        Some(active) => active.union(requested),
        None => requested,
    }
}

/// The files that may stand in for an image, one for each directory of the
/// override in its order: the file of the image's name in that directory.
pub open spec fn override_candidates(dirs: Seq<char>, file: Seq<char>, separator: char) -> Seq<
    Seq<char>,
> {
    Seq::new(
        split_text(dirs, separator).len(),
        |i: int| path_join(split_text(dirs, separator)[i], file),
    )
}

/// The files that may stand in for the image that the host opens under
/// `name`; none where no override is set or the name has no file name.
pub open spec fn image_candidates(overriding: Option<Seq<char>>, name: Seq<char>, separator: char) -> Seq<
    Seq<char>,
> {
    match (overriding, path_file_name(name)) {
        (Some(dirs), Some(file)) => override_candidates(dirs, file, separator),
        _ => Seq::empty(),
    }
}

/// The files that may stand in for an image whose file name is `file`, one
/// for each directory of `dirs`, in the order of `dirs`.
pub fn candidates_for_file(dirs: &str, file: &str, separator: char) -> (candidates: Vec<String>)
    ensures
        views_of(candidates@) == override_candidates(dirs@, file@, separator),
{
    let directories = split(dirs, separator);
    let mut candidates: Vec<String> = Vec::new();
    let mut i: usize = 0;
    while i < directories.len()
        invariant
            views_of(directories@) == split_text(dirs@, separator),
            i <= directories@.len(),
            candidates@.len() == i,
            forall|k: int|
                0 <= k < i ==> (#[trigger] candidates@[k])@ == path_join(
                    split_text(dirs@, separator)[k],
                    file@,
                ),
        decreases directories.len() - i,
    {
        assert(views_of(directories@)[i as int] == directories@[i as int]@);
        candidates.push(join(directories[i].as_str(), file));
        i = i + 1;
    }
    assert(views_of(directories@).len() == directories@.len());
    assert(views_of(candidates@) =~= override_candidates(dirs@, file@, separator));
    candidates
}

/// The files that may stand in for the image that the host opens under
/// `name`, in the order in which they are tried.
pub fn image_override_candidates(config: &Config, name: &str, platform: Platform) -> (candidates:
    Vec<String>)
    ensures
        views_of(candidates@) == image_candidates(
            config@.mono_dll_search_path_override,
            name@,
            platform.spec_list_separator(),
        ),
{
    match &config.mono_dll_search_path_override {
        Some(dirs) => match file_name(name) {
            Some(file) => candidates_for_file(dirs.as_str(), file.as_str(), platform.list_separator()),
            None => {
                let none: Vec<String> = Vec::new();
                assert(views_of(none@) =~= Seq::<Seq<char>>::empty());
                none
            },
        },
        None => {
            let none: Vec<String> = Vec::new();
            assert(views_of(none@) =~= Seq::<Seq<char>>::empty());
            none
        },
    }
}

/// A file as it was read.
pub struct StoredFile {
    pub path: String,
    pub contents: Vec<u8>,
}

/// Files as rows of their paths and contents.
pub open spec fn stored(files: Seq<StoredFile>) -> Seq<(Seq<char>, Seq<u8>)> {
    Seq::new(files.len(), |i: int| (files[i].path@, files[i].contents@))
}

/// The first of the candidates that is among the files, with its contents.
pub open spec fn first_stored(
    candidates: Seq<Seq<char>>,
    files: Seq<(Seq<char>, Seq<u8>)>,
) -> Option<(Seq<char>, Seq<u8>)>
    decreases candidates.len(),
{
    if candidates.len() == 0 {
        None
    } else {
        match resolve(files, candidates[0]) {
            Some(contents) => Some((candidates[0], contents)),
            None => first_stored(candidates.drop_first(), files),
        }
    }
}

/// The first of the files that lies at `path`.
fn stored_at(files: &Vec<StoredFile>, path: &str) -> (found: Option<usize>)
    ensures
        match found {
            Some(row) => row < files@.len() && files@[row as int].path@ == path@ && resolve(
                stored(files@),
                path@,
            ) == Some(files@[row as int].contents@),
            None => resolve(stored(files@), path@) is None,
        },
{
    let mut row: usize = 0;
    while row < files.len()
        invariant
            row <= files@.len(),
            forall|j: int| 0 <= j < row ==> (#[trigger] stored(files@)[j]).0 != path@,
        decreases files.len() - row,
    {
        if str_equal(files[row].path.as_str(), path) {
            proof {
                crate::table::lemma_row_of_is(stored(files@), path@, row as int);
            }
            return Some(row);
        }
        row = row + 1;
    }
    proof {
        crate::table::lemma_row_of_is(stored(files@), path@, row as int);
    }
    None
}

/// The file that stands in for the image that the host opens under `name`:
/// the first candidate that is among `files`, the files that were found at
/// the places of the candidates. With none there the host's own image is
/// opened.
pub fn open_image(config: &Config, name: &str, files: &Vec<StoredFile>, platform: Platform) -> (substitute:
    Option<usize>)
    ensures
        match substitute {
            Some(index) => index < files@.len() && first_stored(
                image_candidates(
                    config@.mono_dll_search_path_override,
                    name@,
                    platform.spec_list_separator(),
                ),
                stored(files@),
            ) == Some((files@[index as int].path@, files@[index as int].contents@)),
            None => first_stored(
                image_candidates(
                    config@.mono_dll_search_path_override,
                    name@,
                    platform.spec_list_separator(),
                ),
                stored(files@),
            ) is None,
        },
{
    let candidates = image_override_candidates(config, name, platform);
    let ghost places = views_of(candidates@);
    let mut c: usize = 0;
    assert(places.subrange(0, places.len() as int) == places);
    while c < candidates.len()
        invariant
            places == views_of(candidates@),
            places == image_candidates(
                config@.mono_dll_search_path_override,
                name@,
                platform.spec_list_separator(),
            ),
            c <= candidates@.len(),
            first_stored(places.subrange(c as int, places.len() as int), stored(files@))
                == first_stored(places, stored(files@)),
        decreases candidates.len() - c,
    {
        proof {
            let rest = places.subrange(c as int, places.len() as int);
            assert(rest[0] == candidates@[c as int]@);
            assert(rest.drop_first() == places.subrange(c + 1, places.len() as int));
        }
        if let Some(index) = stored_at(files, candidates[c].as_str()) {
            return Some(index);
        }
        c = c + 1;
    }
    None
}

/// A directory of the override takes precedence over the directories after
/// it, and every directory of the override over the host's own. Take the
/// candidates of two directories, `first` before `second`. A file that is
/// in the second directory only is opened from there, with its contents,
/// and not from the host. A file that is in the first directory is opened
/// from there, whether or not the second has it too.
pub proof fn lemma_override_precedence(
    first: Seq<char>,
    second: Seq<char>,
    files: Seq<(Seq<char>, Seq<u8>)>,
)
    ensures
        resolve(files, first) is None && resolve(files, second) is Some ==> first_stored(
            seq![first, second],
            files,
        ) == Some((second, resolve(files, second).unwrap())),
        resolve(files, first) is Some ==> first_stored(seq![first, second], files) == Some(
            (first, resolve(files, first).unwrap()),
        ),
        resolve(files, first) is None && resolve(files, second) is None ==> first_stored(
            seq![first, second],
            files,
        ) is None,
{
    let candidates = seq![first, second];
    let none = Seq::<Seq<char>>::empty();
    assert(candidates.drop_first() =~= seq![second]);
    assert(seq![second].drop_first() =~= none);
    assert(first_stored(none, files) is None);
    assert(first_stored(seq![second], files) == (match resolve(files, second) {
        Some(contents) => Some((second, contents)),
        None => None,
    }));
}

/// A step of the sequence that invokes the entrypoint.
#[derive(Debug, Clone, Copy, PartialEq, Eq, Structural)]
pub enum BootstrapStage {
    /// Nothing was done yet.
    Ready,
    /// The target assembly is being opened.
    OpeningAssembly,
    /// The entrypoint is being looked for in the assembly.
    FindingEntrypoint,
    /// The entrypoint is running.
    Invoking,
    /// The sequence is over, for good or bad.
    Finished,
}

/// What the runtime did at the machine's request.
#[derive(Debug, Clone, Copy, PartialEq, Eq, Structural)]
pub enum BootstrapEvent {
    /// The barrier let this call through.
    Started,
    /// The runtime tried to open the target assembly.
    AssemblyOpened { found: bool },
    /// The runtime looked for the entrypoint.
    EntrypointSearched { found: bool },
    /// The entrypoint returned, or raised an exception.
    Invoked { raised: bool },
}

/// What the machine asks for next.
#[derive(Debug, Clone, Copy, PartialEq, Eq, Structural)]
pub enum BootstrapAction {
    /// Open the target assembly in the current domain.
    OpenAssembly,
    /// Look for the entrypoint in the assembly's image.
    FindEntrypoint,
    /// Invoke the entrypoint without arguments.
    InvokeEntrypoint,
    /// The entrypoint ran; nothing is left to do.
    Complete,
    /// No target assembly is set; nothing is done.
    Skip,
    /// The target assembly could not be opened.
    FailTargetAssemblyMissing,
    /// The assembly has no entrypoint.
    FailEntrypointNotFound,
    /// The entrypoint raised an exception.
    FailManagedException,
    /// The event does not belong to the stage; it is passed over.
    Ignore,
}

/// The stage after an event, and what the machine asks for.
pub open spec fn bootstrap_transition(stage: BootstrapStage, event: BootstrapEvent, has_target: bool) -> (
    BootstrapStage,
    BootstrapAction,
) {
    match (stage, event) {
        (BootstrapStage::Ready, BootstrapEvent::Started) => if has_target {
            (BootstrapStage::OpeningAssembly, BootstrapAction::OpenAssembly)
        } else {
            (BootstrapStage::Finished, BootstrapAction::Skip)
        },
        (BootstrapStage::OpeningAssembly, BootstrapEvent::AssemblyOpened { found }) => if found {
            (BootstrapStage::FindingEntrypoint, BootstrapAction::FindEntrypoint)
        } else {
            (BootstrapStage::Finished, BootstrapAction::FailTargetAssemblyMissing)
        },
        (BootstrapStage::FindingEntrypoint, BootstrapEvent::EntrypointSearched { found }) => if found {
            (BootstrapStage::Invoking, BootstrapAction::InvokeEntrypoint)
        } else {
            (BootstrapStage::Finished, BootstrapAction::FailEntrypointNotFound)
        },
        (BootstrapStage::Invoking, BootstrapEvent::Invoked { raised }) => if raised {
            (BootstrapStage::Finished, BootstrapAction::FailManagedException)
        } else {
            (BootstrapStage::Finished, BootstrapAction::Complete)
        },
        _ => (stage, BootstrapAction::Ignore),
    }
}

/// Takes the sequence that invokes the entrypoint one step further.
///
/// `has_target` says whether the settings name a target assembly.
pub fn bootstrap_step(stage: BootstrapStage, event: BootstrapEvent, has_target: bool) -> (next: (
    BootstrapStage,
    BootstrapAction,
))
    ensures
        next == bootstrap_transition(stage, event, has_target),
{
    match (stage, event) {
        (BootstrapStage::Ready, BootstrapEvent::Started) => {
            if has_target {
                (BootstrapStage::OpeningAssembly, BootstrapAction::OpenAssembly)
            } else {
                (BootstrapStage::Finished, BootstrapAction::Skip)
            }
        },
        (BootstrapStage::OpeningAssembly, BootstrapEvent::AssemblyOpened { found }) => {
            if found {
                (BootstrapStage::FindingEntrypoint, BootstrapAction::FindEntrypoint)
            } else {
                (BootstrapStage::Finished, BootstrapAction::FailTargetAssemblyMissing)
            }
        },
        (BootstrapStage::FindingEntrypoint, BootstrapEvent::EntrypointSearched { found }) => {
            if found {
                (BootstrapStage::Invoking, BootstrapAction::InvokeEntrypoint)
            } else {
                (BootstrapStage::Finished, BootstrapAction::FailEntrypointNotFound)
            }
        },
        (BootstrapStage::Invoking, BootstrapEvent::Invoked { raised }) => {
            if raised {
                (BootstrapStage::Finished, BootstrapAction::FailManagedException)
            } else {
                (BootstrapStage::Finished, BootstrapAction::Complete)
            }
        },
        _ => (stage, BootstrapAction::Ignore),
    }
}

/// The error that a failing action stands for. `exception` is the text of
/// the exception, where the runtime wrote one.
pub fn bootstrap_failure(action: BootstrapAction, exception: Option<String>) -> (error: Option<
    BootstrapError,
>)
    ensures
        match action {
            BootstrapAction::FailTargetAssemblyMissing => error == Some(
                BootstrapError::TargetAssemblyMissing,
            ),
            BootstrapAction::FailEntrypointNotFound => error == Some(
                BootstrapError::EntrypointNotFound { code: None },
            ),
            BootstrapAction::FailManagedException => error == Some(
                BootstrapError::ManagedExceptionDuringEntrypoint { text: exception },
            ),
            _ => error is None,
        },
{
    match action {
        BootstrapAction::FailTargetAssemblyMissing => Some(BootstrapError::TargetAssemblyMissing),
        BootstrapAction::FailEntrypointNotFound => Some(
            BootstrapError::EntrypointNotFound { code: None },
        ),
        BootstrapAction::FailManagedException => Some(
            BootstrapError::ManagedExceptionDuringEntrypoint { text: exception },
        ),
        _ => None,
    }
}

/// The entrypoint is invoked only after the target assembly was opened and
/// the entrypoint was found in it: a failure of either ends the sequence
/// before anything that cannot be undone, and a sequence that is over takes
/// no further step.
pub proof fn lemma_invocation_needs_every_step(
    stage: BootstrapStage,
    event: BootstrapEvent,
    has_target: bool,
)
    ensures
        bootstrap_transition(stage, event, has_target).1 == BootstrapAction::InvokeEntrypoint
            ==> stage == BootstrapStage::FindingEntrypoint && event
            == (BootstrapEvent::EntrypointSearched { found: true }),
        bootstrap_transition(stage, event, has_target).0 == BootstrapStage::FindingEntrypoint
            && stage != BootstrapStage::FindingEntrypoint ==> stage
            == BootstrapStage::OpeningAssembly && event == (BootstrapEvent::AssemblyOpened {
            found: true,
        }),
        stage == BootstrapStage::Finished ==> bootstrap_transition(stage, event, has_target) == (
            BootstrapStage::Finished,
            BootstrapAction::Ignore,
        ),
{
}

} // verus!
