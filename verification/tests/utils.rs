use doorstop::hook::SymbolTable;
use doorstop::utils::bindings::{BindingTable, Wanted};
use doorstop::utils::lazy_file_writer::LazyFileWriter;

#[test]
fn binding_table_holds_resolved_addresses() {
    let mut exports = SymbolTable::new();
    exports.define("b", 2);
    exports.define("a", 1);
    let wanted = vec![
        Wanted { name: "a", required: true },
        Wanted { name: "missing", required: false },
        Wanted { name: "b", required: true },
    ];
    let table = BindingTable::load(&exports, &wanted).ok().unwrap();
    assert_eq!(table.addresses, vec![Some(1), None, Some(2)]);
    assert_eq!(table.address(2), Some(2));
}

#[test]
fn binding_table_names_first_missing_required_function() {
    let mut exports = SymbolTable::new();
    exports.define("a", 1);
    let wanted = vec![
        Wanted { name: "a", required: true },
        Wanted { name: "optional", required: false },
        Wanted { name: "first", required: true },
        Wanted { name: "second", required: true },
    ];
    let error = BindingTable::load(&exports, &wanted).err().unwrap();
    assert_eq!(error.symbol, "first");
    let empty: Vec<Wanted> = Vec::new();
    assert!(BindingTable::load(&exports, &empty).ok().unwrap().addresses.is_empty());
}

#[test]
fn lazy_file_writer_tries_numbered_files() {
    let mut writer = LazyFileWriter::new("doorstop.log");
    assert!(!writer.flush());
    assert_eq!(writer.file_to_open(), Some("doorstop.log".to_string()));
    assert!(writer.on_locked());
    assert_eq!(writer.file_to_open(), Some("doorstop.log.1".to_string()));
    assert!(writer.on_locked());
    assert_eq!(writer.file_to_open(), Some("doorstop.log.2".to_string()));
    writer.on_opened();
    assert_eq!(writer.file_to_open(), None);
    assert!(writer.flush());
    let mut last = LazyFileWriter::new("x");
    last.attempt = u32::MAX;
    assert!(!last.on_locked());
    assert_eq!(last.attempt, u32::MAX);
    assert_eq!(last.file_to_open(), Some(format!("x.{}", u32::MAX)));
}
