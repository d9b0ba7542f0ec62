//! The way system calls on Windows hand out texts: into a buffer of the
//! caller, whose size is agreed on by trying.

use vstd::prelude::*;

verus! {

/// The size of the buffer that is tried first.
pub const FIRST_BUFFER: usize = 512;

/// The largest buffer that a call can be given.
pub const LARGEST_BUFFER: usize = 0xffff_ffff;

/// What the system reports after a call.
#[derive(Debug, Clone, Copy, PartialEq, Eq, Structural)]
pub enum LastError {
    /// No error.
    Success,
    /// The buffer was too small.
    InsufficientBuffer,
    /// Another error.
    Other,
}

/// What to do after a call.
#[derive(Debug, Clone, Copy, PartialEq, Eq, Structural)]
pub enum Fill {
    /// The first `length` units of the buffer hold the text.
    Done { length: usize },
    /// Call again with a buffer of `size` units.
    Retry { size: usize },
    /// The call failed.
    Fail,
}

/// `size` doubled, but no more than the largest buffer.
pub open spec fn doubled(size: int) -> int {
    if 2 * size < LARGEST_BUFFER {
        2 * size
    } else {
        LARGEST_BUFFER as int
    }
}

/// What to do after a call that was given `size` units and returned
/// `returned`.
///
/// A call that returns zero failed, unless the system reports no error: then
/// the text is empty. A call that filled the buffer and reports it as too
/// small is repeated with twice the size. A call that returns more than it
/// was given asks for that size. Any other call has written the text.
pub open spec fn fill_outcome(size: int, returned: int, error: LastError) -> Fill {
    if returned == 0 && error != LastError::Success {
        Fill::Fail
    } else if returned == size && error == LastError::InsufficientBuffer {
        Fill::Retry { size: doubled(size) as usize }
    } else if returned > size {
        Fill::Retry { size: returned as usize }
    } else {
        Fill::Done { length: returned as usize }
    }
}

/// Decides what follows a call that was given a buffer of `size` units.
///
/// A call that succeeds returns the length of the text without its
/// terminator, and one that needs more room the size it needs with it, so
/// no call returns the size it was given without reporting the buffer as
/// too small.
pub fn next_fill(size: usize, returned: u32, error: LastError) -> (fill: Fill)
    requires
        size <= LARGEST_BUFFER,
        !(returned == size && error != LastError::InsufficientBuffer),
    ensures
        fill == fill_outcome(size as int, returned as int, error),
{
    let returned: usize = returned as usize;
    if returned == 0 {
        match error {
            LastError::Success => {},
            _ => {
                return Fill::Fail;
            },
        }
    }
    let too_small = match error {
        LastError::InsufficientBuffer => true,
        _ => false,
    };
    if returned == size && too_small {
        if size < LARGEST_BUFFER / 2 {
            Fill::Retry { size: 2 * size }
        } else if 2 * (size as u64) < LARGEST_BUFFER as u64 {
            Fill::Retry { size: 2 * size }
        } else {
            Fill::Retry { size: LARGEST_BUFFER }
        }
    } else if returned > size {
        Fill::Retry { size: returned }
    } else {
        Fill::Done { length: returned }
    }
}

} // verus!
