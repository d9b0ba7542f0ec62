use doorstop::hook::SymbolTable;
use doorstop::proxy::{
    dll_main, forwarded_name, genuine_module_for, proxy_identity, ProxyIdentity, ProxySlots,
    DLL_PROCESS_ATTACH, FORWARDED,
};

fn add(a: i32, b: i32) -> i32 {
    a + b
}

fn multiply(a: i32, b: i32) -> i32 {
    a * b
}

#[test]
fn forwarded_names_are_those_of_the_two_libraries() {
    assert_eq!(FORWARDED, 82);
    assert_eq!(forwarded_name(0), "GetFileVersionInfoA");
    assert_eq!(forwarded_name(16), "VerQueryValueW");
    assert_eq!(forwarded_name(17), "Private1");
    assert_eq!(forwarded_name(19), "WinHttpAddRequestHeaders");
    assert_eq!(forwarded_name(81), "WinHttpWriteProxySettings");
    let mut names: Vec<&str> = (0..FORWARDED).map(forwarded_name).collect();
    names.sort();
    names.dedup();
    assert_eq!(names.len(), 82);
}

#[test]
fn identity_ignores_case() {
    assert_eq!(proxy_identity("winhttp.dll"), Some(ProxyIdentity::WinHttp));
    assert_eq!(proxy_identity("WINHTTP.DLL"), Some(ProxyIdentity::WinHttp));
    assert_eq!(proxy_identity("Version.dll"), Some(ProxyIdentity::Version));
    assert_eq!(proxy_identity("doorstop.dll"), None);
    assert_eq!(proxy_identity("version.dll.bak"), None);
    assert_eq!(proxy_identity(""), None);
}

#[test]
fn dll_main_answers_on_attach_only() {
    assert_eq!(
        dll_main(DLL_PROCESS_ATTACH, "/game/WinHTTP.dll", "/windows/system32"),
        Some("/windows/system32/WinHTTP.dll".to_string())
    );
    assert_eq!(
        dll_main(DLL_PROCESS_ATTACH, "/game/version.dll", "/windows/system32"),
        Some("/windows/system32/version.dll".to_string())
    );
    assert_eq!(dll_main(DLL_PROCESS_ATTACH, "/game/doorstop.dll", "/windows/system32"), None);
    assert_eq!(dll_main(0, "/game/winhttp.dll", "/windows/system32"), None);
    assert_eq!(dll_main(2, "/game/winhttp.dll", "/windows/system32"), None);
    assert_eq!(dll_main(DLL_PROCESS_ATTACH, "/", "/windows/system32"), None);
    assert_eq!(genuine_module_for(None, "/windows/system32"), None);
    assert_eq!(
        genuine_module_for(Some("version.dll"), "/sys"),
        Some("/sys/version.dll".to_string())
    );
}

#[test]
fn attach_fills_slots_of_exported_functions_only() {
    let mut genuine = SymbolTable::new();
    genuine.define("VerQueryValueW", 0x1600);
    genuine.define("GetFileVersionInfoA", 0x1000);
    genuine.define("NotForwarded", 0x9999);
    let mut slots = ProxySlots::new();
    assert_eq!(slots.slots.len(), 82);
    assert!(slots.slots.iter().all(|slot| slot.is_none()));
    assert!(slots.attach(&genuine));
    for slot in 0..FORWARDED {
        assert_eq!(slots.target(slot), genuine.lookup(forwarded_name(slot)));
    }
    assert_eq!(slots.target(0), Some(0x1000));
    assert_eq!(slots.target(16), Some(0x1600));
    assert_eq!(slots.slots.iter().filter(|slot| slot.is_some()).count(), 2);
    assert_eq!(ProxySlots::slot_of("WinHttpOpen").and_then(|slot| slots.target(slot)), None);
    assert_eq!(ProxySlots::slot_of("NotForwarded"), None);
}

#[test]
fn stub_calls_what_the_genuine_module_exports() {
    let functions: Vec<fn(i32, i32) -> i32> = vec![add, multiply];
    let mut genuine = SymbolTable::new();
    genuine.define("WinHttpOpen", 1);
    genuine.define("WinHttpConnect", 0);
    let mut slots = ProxySlots::new();
    slots.attach(&genuine);
    let open = ProxySlots::slot_of("WinHttpOpen").unwrap();
    let through_stub = functions[slots.target(open).unwrap()](6, 7);
    let direct = functions[genuine.lookup("WinHttpOpen").unwrap()](6, 7);
    assert_eq!(through_stub, direct);
    assert_eq!(through_stub, 42);
    let connect = ProxySlots::slot_of("WinHttpConnect").unwrap();
    assert_eq!(functions[slots.target(connect).unwrap()](6, 7), 13);
    let close = ProxySlots::slot_of("WinHttpCloseHandle").unwrap();
    assert_eq!(slots.target(close), None);
}

#[test]
fn slots_are_filled_once() {
    let mut first = SymbolTable::new();
    first.define("WinHttpOpen", 0x10);
    let mut second = SymbolTable::new();
    second.define("WinHttpConnect", 0x20);
    second.define("WinHttpOpen", 0x30);
    let mut slots = ProxySlots::new();
    assert!(!slots.attached);
    assert!(slots.attach(&first));
    assert!(slots.attached);
    assert!(!slots.attach(&second));
    assert_eq!(slots.target(ProxySlots::slot_of("WinHttpOpen").unwrap()), Some(0x10));
    assert_eq!(slots.target(ProxySlots::slot_of("WinHttpConnect").unwrap()), None);
}
