//! Texts in the forms that the operating system takes them: as bytes ending
//! in a zero byte, and as 16-bit code units ending in a zero unit.

use vstd::prelude::*;

verus! {

/// A text holds a zero byte before its end.
#[derive(Clone, Copy, PartialEq, Eq, Structural, Debug)]
pub struct InteriorNulError {
    /// The position of the interior nul byte.
    pub position: usize,
}

/// The index of the first zero byte of `bytes`, or the length of `bytes`
/// when there is none.
pub open spec fn first_nul(bytes: Seq<u8>) -> int
    decreases bytes.len(),
{
    if bytes.len() == 0 {
        0
    } else if bytes[0] == 0 {
        0
    } else {
        1 + first_nul(bytes.drop_first())
    }
}

/// The bytes of a text without the zero byte that may end it.
pub open spec fn text_bytes(bytes: Seq<u8>) -> Seq<u8> {
    if bytes.len() > 0 && bytes.last() == 0 {
        bytes.drop_last()
    } else {
        bytes
    }
}

/// The terminated form of a text: its bytes and one zero byte after them,
/// or the position of the first zero byte among them.
pub open spec fn terminated(bytes: Seq<u8>) -> Result<Seq<u8>, int> {
    let text = text_bytes(bytes);
    if first_nul(text) < text.len() {
        Err(first_nul(text))
    } else {
        Ok(text.push(0u8))
    }
}

/// The first zero byte lies within the bytes, is one where it is inside
/// them, and has no zero byte before it.
pub proof fn lemma_first_nul(bytes: Seq<u8>)
    ensures
        0 <= first_nul(bytes) <= bytes.len(),
        first_nul(bytes) < bytes.len() ==> bytes[first_nul(bytes)] == 0,
        forall|i: int| 0 <= i < first_nul(bytes) ==> bytes[i] != 0,
    decreases bytes.len(),
{
    if bytes.len() != 0 && bytes[0] != 0 {
        let rest = bytes.drop_first();
        lemma_first_nul(rest);
        assert forall|i: int| 0 <= i < first_nul(bytes) implies bytes[i] != 0 by {
            if i > 0 {
                assert(rest[i - 1] == bytes[i]);
            }
        }
    }
}

/// Brings a text into the form that ends in a zero byte.
///
/// A text that ends in a zero byte already is taken as it is, any other gets
/// one. A zero byte before the end is an error, which gives the position of
/// the first.
pub fn cstr_cow_from_bytes(slice: &[u8]) -> (result: Result<Vec<u8>, InteriorNulError>)
    ensures
        match result {
            Ok(text) => terminated(slice@) == Ok::<Seq<u8>, int>(text@),
            Err(error) => terminated(slice@) == Err::<Seq<u8>, int>(error.position as int),
        },
{
    let len = if slice.len() > 0 && slice[slice.len() - 1] == 0 {
        slice.len() - 1
    } else {
        slice.len()
    };
    let ghost text = text_bytes(slice@);
    assert(text =~= slice@.subrange(0, len as int));
    let mut out: Vec<u8> = Vec::new();
    let mut i: usize = 0;
    while i < len
        invariant
            len <= slice@.len(),
            text == slice@.subrange(0, len as int),
            text == text_bytes(slice@),
            i <= len,
            out@ == text.subrange(0, i as int),
            forall|k: int| 0 <= k < i ==> text[k] != 0,
        decreases len - i,
    {
        if slice[i] == 0 {
            proof {
                lemma_first_nul(text);
                let first = first_nul(text);
                assert(first == i) by {
                    if first < i {
                        assert(text[first] != 0);
                    }
                    if first > i {
                        assert(text[i as int] == 0);
                    }
                }
            }
            return Err(InteriorNulError { position: i });
        }
        out.push(slice[i]);
        assert(out@ =~= text.subrange(0, i + 1));
        i = i + 1;
    }
    proof {
        lemma_first_nul(text);
        let first = first_nul(text);
        if first < text.len() {
            assert(text[first] != 0);
        }
        assert(text.subrange(0, len as int) =~= text);
    }
    out.push(0);
    Ok(out)
}

/// The 16-bit code units that `str::encode_utf16` gives for a text.
pub uninterp spec fn utf16_units(text: Seq<char>) -> Seq<u16>;

/// Calls `str::encode_utf16` and collects the units, which are the UTF-16
/// form of the text, named by [`utf16_units`].
#[verifier::external_body]
fn encode_utf16(text: &str) -> (units: Vec<u16>)
    ensures
        units@ == utf16_units(text@),
{
    text.encode_utf16().collect()
}

/// The text in 16-bit code units, with a zero unit at its end.
pub fn to_wide(text: &str) -> (units: Vec<u16>)
    ensures
        units@ == utf16_units(text@).push(0u16),
{
    let mut units = encode_utf16(text);
    units.push(0);
    units
}

} // verus!
