use doorstop::shared::{cstr_cow_from_bytes, to_wide, InteriorNulError};

#[test]
fn cstr_from_bytes_adds_or_keeps_the_terminator() {
    assert_eq!(cstr_cow_from_bytes(b""), Ok(vec![0]));
    assert_eq!(cstr_cow_from_bytes(b"abc"), Ok(b"abc\0".to_vec()));
    assert_eq!(cstr_cow_from_bytes(b"abc\0"), Ok(b"abc\0".to_vec()));
    assert_eq!(cstr_cow_from_bytes(b"\0"), Ok(vec![0]));
}

#[test]
fn cstr_from_bytes_reports_first_interior_nul() {
    assert_eq!(cstr_cow_from_bytes(b"a\0b"), Err(InteriorNulError { position: 1 }));
    assert_eq!(cstr_cow_from_bytes(b"a\0b\0"), Err(InteriorNulError { position: 1 }));
    assert_eq!(cstr_cow_from_bytes(b"\0\0"), Err(InteriorNulError { position: 0 }));
    assert_eq!(cstr_cow_from_bytes(b"ab\0c\0d"), Err(InteriorNulError { position: 2 }));
    assert_eq!(cstr_cow_from_bytes(b"\0a"), Err(InteriorNulError { position: 0 }));
}

#[test]
fn to_wide_encodes_and_terminates() {
    assert_eq!(to_wide("ab"), vec![0x61, 0x62, 0]);
    assert_eq!(to_wide(""), vec![0]);
    assert_eq!(to_wide("ż"), vec![0x17c, 0]);
    assert_eq!(to_wide("\u{1f600}"), vec![0xd83d, 0xde00, 0]);
}
