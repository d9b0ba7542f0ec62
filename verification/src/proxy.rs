//! The proxy module: a stand-in for one of two system libraries, which the
//! host loads in its place. Each function that the system library exports
//! has a stub here that jumps through a slot; the slots are filled from the
//! genuine library when the stand-in is attached.

use vstd::prelude::*;
use crate::environment::borrowed_text;
use crate::hook::{Rows, SymbolTable};
use crate::paths::{file_name, join, path_file_name, path_join, text_of};
use crate::table::resolve;
use crate::text::{eq_ignore_ascii_case, same_ignoring_ascii_case, str_equal};

verus! {

/// The number of forwarded functions.
pub const FORWARDED: usize = 82;

/// The reason with which a module is told that it is attached to a process.
pub const DLL_PROCESS_ATTACH: u32 = 1;

/// The names of the forwarded functions, in slot order.
pub open spec fn forwarded_names() -> Seq<Seq<char>> {
    seq![
        "GetFileVersionInfoA"@,
        "GetFileVersionInfoByHandle"@,
        "GetFileVersionInfoExA"@,
        "GetFileVersionInfoExW"@,
        "GetFileVersionInfoSizeA"@,
        "GetFileVersionInfoSizeExA"@,
        "GetFileVersionInfoSizeExW"@,
        "GetFileVersionInfoSizeW"@,
        "GetFileVersionInfoW"@,
        "VerFindFileA"@,
        "VerFindFileW"@,
        "VerInstallFileA"@,
        "VerInstallFileW"@,
        "VerLanguageNameA"@,
        "VerLanguageNameW"@,
        "VerQueryValueA"@,
        "VerQueryValueW"@,
        "Private1"@,
        "SvchostPushServiceGlobals"@,
        "WinHttpAddRequestHeaders"@,
        "WinHttpAutoProxySvcMain"@,
        "WinHttpCheckPlatform"@,
        "WinHttpCloseHandle"@,
        "WinHttpConnect"@,
        "WinHttpConnectionDeletePolicyEntries"@,
        "WinHttpConnectionDeleteProxyInfo"@,
        "WinHttpConnectionFreeNameList"@,
        "WinHttpConnectionFreeProxyInfo"@,
        "WinHttpConnectionFreeProxyList"@,
        "WinHttpConnectionGetNameList"@,
        "WinHttpConnectionGetProxyInfo"@,
        "WinHttpConnectionGetProxyList"@,
        "WinHttpConnectionSetPolicyEntries"@,
        "WinHttpConnectionSetProxyInfo"@,
        "WinHttpConnectionUpdateIfIndexTable"@,
        "WinHttpCrackUrl"@,
        "WinHttpCreateProxyResolver"@,
        "WinHttpCreateUrl"@,
        "WinHttpDetectAutoProxyConfigUrl"@,
        "WinHttpFreeProxyResult"@,
        "WinHttpFreeProxyResultEx"@,
        "WinHttpFreeProxySettings"@,
        "WinHttpGetDefaultProxyConfiguration"@,
        "WinHttpGetIEProxyConfigForCurrentUser"@,
        "WinHttpGetProxyForUrl"@,
        "WinHttpGetProxyForUrlEx"@,
        "WinHttpGetProxyForUrlEx2"@,
        "WinHttpGetProxyForUrlHvsi"@,
        "WinHttpGetProxyResult"@,
        "WinHttpGetProxyResultEx"@,
        "WinHttpGetProxySettingsVersion"@,
        "WinHttpGetTunnelSocket"@,
        "WinHttpOpen"@,
        "WinHttpOpenRequest"@,
        "WinHttpPacJsWorkerMain"@,
        "WinHttpProbeConnectivity"@,
        "WinHttpQueryAuthSchemes"@,
        "WinHttpQueryDataAvailable"@,
        "WinHttpQueryHeaders"@,
        "WinHttpQueryOption"@,
        "WinHttpReadData"@,
        "WinHttpReadProxySettings"@,
        "WinHttpReadProxySettingsHvsi"@,
        "WinHttpReceiveResponse"@,
        "WinHttpResetAutoProxy"@,
        "WinHttpSaveProxyCredentials"@,
        "WinHttpSendRequest"@,
        "WinHttpSetCredentials"@,
        "WinHttpSetDefaultProxyConfiguration"@,
        "WinHttpSetOption"@,
        "WinHttpSetStatusCallback"@,
        "WinHttpSetTimeouts"@,
        "WinHttpTimeFromSystemTime"@,
        "WinHttpTimeToSystemTime"@,
        "WinHttpWebSocketClose"@,
        "WinHttpWebSocketCompleteUpgrade"@,
        "WinHttpWebSocketQueryCloseStatus"@,
        "WinHttpWebSocketReceive"@,
        "WinHttpWebSocketSend"@,
        "WinHttpWebSocketShutdown"@,
        "WinHttpWriteData"@,
        "WinHttpWriteProxySettings"@,
    ]
}

/// The name of the forwarded function in slot `slot`.
pub fn forwarded_name(slot: usize) -> (name: &'static str)
    requires
        slot < FORWARDED,
    ensures
        name@ == forwarded_names()[slot as int],
{
    match slot {
        0 => "GetFileVersionInfoA",
        1 => "GetFileVersionInfoByHandle",
        2 => "GetFileVersionInfoExA",
        3 => "GetFileVersionInfoExW",
        4 => "GetFileVersionInfoSizeA",
        5 => "GetFileVersionInfoSizeExA",
        6 => "GetFileVersionInfoSizeExW",
        7 => "GetFileVersionInfoSizeW",
        8 => "GetFileVersionInfoW",
        9 => "VerFindFileA",
        10 => "VerFindFileW",
        11 => "VerInstallFileA",
        12 => "VerInstallFileW",
        13 => "VerLanguageNameA",
        14 => "VerLanguageNameW",
        15 => "VerQueryValueA",
        16 => "VerQueryValueW",
        17 => "Private1",
        18 => "SvchostPushServiceGlobals",
        19 => "WinHttpAddRequestHeaders",
        20 => "WinHttpAutoProxySvcMain",
        21 => "WinHttpCheckPlatform",
        22 => "WinHttpCloseHandle",
        23 => "WinHttpConnect",
        24 => "WinHttpConnectionDeletePolicyEntries",
        25 => "WinHttpConnectionDeleteProxyInfo",
        26 => "WinHttpConnectionFreeNameList",
        27 => "WinHttpConnectionFreeProxyInfo",
        28 => "WinHttpConnectionFreeProxyList",
        29 => "WinHttpConnectionGetNameList",
        30 => "WinHttpConnectionGetProxyInfo",
        31 => "WinHttpConnectionGetProxyList",
        32 => "WinHttpConnectionSetPolicyEntries",
        33 => "WinHttpConnectionSetProxyInfo",
        34 => "WinHttpConnectionUpdateIfIndexTable",
        35 => "WinHttpCrackUrl",
        36 => "WinHttpCreateProxyResolver",
        37 => "WinHttpCreateUrl",
        38 => "WinHttpDetectAutoProxyConfigUrl",
        39 => "WinHttpFreeProxyResult",
        40 => "WinHttpFreeProxyResultEx",
        41 => "WinHttpFreeProxySettings",
        42 => "WinHttpGetDefaultProxyConfiguration",
        43 => "WinHttpGetIEProxyConfigForCurrentUser",
        44 => "WinHttpGetProxyForUrl",
        45 => "WinHttpGetProxyForUrlEx",
        46 => "WinHttpGetProxyForUrlEx2",
        47 => "WinHttpGetProxyForUrlHvsi",
        48 => "WinHttpGetProxyResult",
        49 => "WinHttpGetProxyResultEx",
        50 => "WinHttpGetProxySettingsVersion",
        51 => "WinHttpGetTunnelSocket",
        52 => "WinHttpOpen",
        53 => "WinHttpOpenRequest",
        54 => "WinHttpPacJsWorkerMain",
        55 => "WinHttpProbeConnectivity",
        56 => "WinHttpQueryAuthSchemes",
        57 => "WinHttpQueryDataAvailable",
        58 => "WinHttpQueryHeaders",
        59 => "WinHttpQueryOption",
        60 => "WinHttpReadData",
        61 => "WinHttpReadProxySettings",
        62 => "WinHttpReadProxySettingsHvsi",
        63 => "WinHttpReceiveResponse",
        64 => "WinHttpResetAutoProxy",
        65 => "WinHttpSaveProxyCredentials",
        66 => "WinHttpSendRequest",
        67 => "WinHttpSetCredentials",
        68 => "WinHttpSetDefaultProxyConfiguration",
        69 => "WinHttpSetOption",
        70 => "WinHttpSetStatusCallback",
        71 => "WinHttpSetTimeouts",
        72 => "WinHttpTimeFromSystemTime",
        73 => "WinHttpTimeToSystemTime",
        74 => "WinHttpWebSocketClose",
        75 => "WinHttpWebSocketCompleteUpgrade",
        76 => "WinHttpWebSocketQueryCloseStatus",
        77 => "WinHttpWebSocketReceive",
        78 => "WinHttpWebSocketSend",
        79 => "WinHttpWebSocketShutdown",
        80 => "WinHttpWriteData",
        _ => "WinHttpWriteProxySettings",
    }
}

/// The system library that the module stands in for.
#[derive(Debug, Clone, Copy, PartialEq, Eq, Structural)]
pub enum ProxyIdentity {
    WinHttp,
    Version,
}

/// The system library that a module of the given file name stands in for,
/// whatever the case of the letters in the name.
pub open spec fn identity_of(file_name: Seq<char>) -> Option<ProxyIdentity> {
    if same_ignoring_ascii_case("winhttp.dll"@, file_name) {
        Some(ProxyIdentity::WinHttp)
    } else if same_ignoring_ascii_case("version.dll"@, file_name) {
        Some(ProxyIdentity::Version)
    } else {
        None
    }
}

/// The system library that a module of the given file name stands in for.
pub fn proxy_identity(file_name: &str) -> (identity: Option<ProxyIdentity>)
    ensures
        identity == identity_of(file_name@),
{
    if eq_ignore_ascii_case("winhttp.dll", file_name) {
        Some(ProxyIdentity::WinHttp)
    } else if eq_ignore_ascii_case("version.dll", file_name) {
        Some(ProxyIdentity::Version)
    } else {
        None
    }
}

/// The genuine library to load for a module whose file name is `file_name`:
/// the file of the same name in the system directory, where the module
/// stands in for a system library.
pub open spec fn genuine_path(file_name: Option<Seq<char>>, system_dir: Seq<char>) -> Option<
    Seq<char>,
> {
    match file_name {
        Some(name) => if identity_of(name) is Some {
            Some(path_join(system_dir, name))
        } else {
            None
        },
        None => None,
    }
}

/// The genuine library to load for a module whose file name is `file_name`.
pub fn genuine_module_for(file_name: Option<&str>, system_dir: &str) -> (path: Option<String>)
    ensures
        text_of(path) == genuine_path(borrowed_text(file_name), system_dir@),
{
    match file_name {
        Some(name) => {
            if proxy_identity(name).is_some() {
                Some(join(system_dir, name))
            } else {
                None
            }
        },
        None => None,
    }
}

/// The module is notified by the loader. On attachment to a process, a
/// module that stands in for a system library answers with the path of the
/// genuine library, which is to be loaded and forwarded to; every other
/// notification, and every other module, answers with nothing.
pub fn dll_main(reason: u32, own_path: &str, system_dir: &str) -> (genuine: Option<String>)
    ensures
        text_of(genuine) == (if reason == DLL_PROCESS_ATTACH {
            genuine_path(path_file_name(own_path@), system_dir@)
        } else {
            None
        }),
{
    if reason != DLL_PROCESS_ATTACH {
        return None;
    }
    let name = file_name(own_path);
    match &name {
        Some(name) => genuine_module_for(Some(name.as_str()), system_dir),
        None => genuine_module_for(None, system_dir),
    }
}

/// The slots after the module was attached to a genuine library with the
/// given exports: the slot of a function that the library exports holds the
/// function's address, and every other slot is as it was.
pub open spec fn attached(slots: Seq<Option<usize>>, genuine: Rows) -> Seq<Option<usize>> {
    Seq::new(
        slots.len(),
        |slot: int|
            match resolve(genuine, forwarded_names()[slot]) {
                Some(address) => Some(address),
                None => slots[slot],
            },
    )
}

/// The slots through which the stubs jump, one for each forwarded function.
pub struct ProxySlots {
    pub slots: Vec<Option<usize>>,
    /// Whether the slots were filled from the genuine library. They are
    /// filled once.
    pub attached: bool,
}

impl ProxySlots {
    /// There is one slot for each forwarded function.
    pub open spec fn well_formed(&self) -> bool {
        self.slots@.len() == forwarded_names().len()
    }

    /// Slots that are all empty.
    pub fn new() -> (slots: ProxySlots)
        ensures
            slots.well_formed(),
            !slots.attached,
            forall|slot: int| 0 <= slot < slots.slots@.len() ==> slots.slots@[slot] is None,
    {
        let mut slots: Vec<Option<usize>> = Vec::new();
        let mut slot: usize = 0;
        while slot < FORWARDED
            invariant
                slot <= FORWARDED,
                slots@.len() == slot,
                forall|s: int| 0 <= s < slot ==> slots@[s] is None,
            decreases FORWARDED - slot,
        {
            slots.push(None);
            slot = slot + 1;
        }
        ProxySlots { slots, attached: false }
    }

    /// Fills the slots from the exports of the genuine library. Says
    /// whether it did: slots that were filled before are left as they are.
    pub fn attach(&mut self, genuine: &SymbolTable) -> (filled: bool)
        requires
            old(self).well_formed(),
        ensures
            final(self).well_formed(),
            final(self).attached,
            filled == !old(self).attached,
            final(self).slots@ == (if filled {
                attached(old(self).slots@, genuine@)
            } else {
                old(self).slots@
            }),
    {
        if self.attached {
            return false;
        }
        let mut slot: usize = 0;
        while slot < FORWARDED
            invariant
                slot <= FORWARDED,
                self.slots@.len() == FORWARDED,
                old(self).slots@.len() == FORWARDED,
                forwarded_names().len() == FORWARDED,
                self.attached == old(self).attached,
                forall|s: int|
                    0 <= s < slot ==> self.slots@[s] == attached(old(self).slots@, genuine@)[s],
                forall|s: int| slot <= s < FORWARDED ==> self.slots@[s] == old(self).slots@[s],
            decreases FORWARDED - slot,
        {
            if let Some(address) = genuine.lookup(forwarded_name(slot)) {
                self.slots.set(slot, Some(address));
            }
            slot = slot + 1;
        }
        assert(self.slots@ =~= attached(old(self).slots@, genuine@));
        self.attached = true;
        true
    }

    /// The slot of the forwarded function `name`.
    pub fn slot_of(name: &str) -> (found: Option<usize>)
        ensures
            match found {
                Some(slot) => slot < FORWARDED && forwarded_names()[slot as int] == name@
                    && forall|earlier: int|
                    0 <= earlier < slot ==> forwarded_names()[earlier] != name@,
                None => forall|slot: int|
                    0 <= slot < FORWARDED ==> forwarded_names()[slot] != name@,
            },
    {
        let mut slot: usize = 0;
        while slot < FORWARDED
            invariant
                slot <= FORWARDED,
                forall|s: int| 0 <= s < slot ==> forwarded_names()[s] != name@,
            decreases FORWARDED - slot,
        {
            if str_equal(forwarded_name(slot), name) {
                return Some(slot);
            }
            slot = slot + 1;
        }
        None
    }

    /// The address that the stub in slot `slot` jumps to; `None` while the
    /// slot is empty, in which case the stub must not be called.
    pub fn target(&self, slot: usize) -> (address: Option<usize>)
        requires
            self.well_formed(),
            slot < FORWARDED,
        ensures
            address == self.slots@[slot as int],
    {
        self.slots[slot]
    }
}

/// After the attachment of a module with empty slots, the stub of a
/// forwarded function jumps to the address that the genuine library exports
/// the function at, so a call of the stub is a call of the export. The slot
/// of a function that the genuine library lacks stays empty: the stub leads
/// nowhere else.
pub proof fn lemma_attachment_forwards(slots: Seq<Option<usize>>, genuine: Rows, slot: int)
    requires
        slots.len() == forwarded_names().len(),
        forall|s: int| 0 <= s < slots.len() ==> slots[s] is None,
        0 <= slot < forwarded_names().len(),
    ensures
        attached(slots, genuine)[slot] == resolve(genuine, forwarded_names()[slot]),
{
}

} // verus!
