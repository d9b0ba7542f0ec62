use doorstop::windows::{next_fill, Fill, LastError, FIRST_BUFFER, LARGEST_BUFFER};

#[test]
fn fill_steps() {
    assert_eq!(FIRST_BUFFER, 512);
    assert_eq!(next_fill(512, 20, LastError::Success), Fill::Done { length: 20 });
    assert_eq!(next_fill(512, 0, LastError::Success), Fill::Done { length: 0 });
    assert_eq!(next_fill(512, 0, LastError::Other), Fill::Fail);
    assert_eq!(next_fill(512, 0, LastError::InsufficientBuffer), Fill::Fail);
    assert_eq!(next_fill(512, 512, LastError::InsufficientBuffer), Fill::Retry { size: 1024 });
    assert_eq!(next_fill(512, 600, LastError::Success), Fill::Retry { size: 600 });
    assert_eq!(next_fill(512, 600, LastError::InsufficientBuffer), Fill::Retry { size: 600 });
    assert_eq!(next_fill(512, 511, LastError::Other), Fill::Done { length: 511 });
    assert_eq!(
        next_fill(0x9000_0000, 0x9000_0000, LastError::InsufficientBuffer),
        Fill::Retry { size: LARGEST_BUFFER }
    );
    assert_eq!(
        next_fill(0x7fff_ffff, 0x7fff_ffff, LastError::InsufficientBuffer),
        Fill::Retry { size: 0xffff_fffe }
    );
    assert_eq!(
        next_fill(LARGEST_BUFFER, 0xffff_ffff, LastError::InsufficientBuffer),
        Fill::Retry { size: LARGEST_BUFFER }
    );
}
