//! The launcher's view of a Windows command line: UTF-16 code units ending
//! in a terminator.

use vstd::prelude::*;

verus! {

/// The code unit of a space.
pub const SPACE: u16 = 0x20;

/// The code unit of a double quote.
pub const QUOTE: u16 = 0x22;

/// The number of spaces that `text` begins with.
pub open spec fn leading_spaces(text: Seq<u16>) -> int
    decreases text.len(),
{
    if text.len() == 0 {
        0
    } else if text[0] != SPACE {
        0
    } else {
        1 + leading_spaces(text.drop_first())
    }
}

/// `text` without the spaces it begins with; the lone terminator when nothing
/// but spaces is there.
pub open spec fn trimmed(text: Seq<u16>) -> Seq<u16> {
    let skip = leading_spaces(text);
    if skip < text.len() {
        text.subrange(skip, text.len() as int)
    } else {
        seq![0u16]
    }
}

/// The offset of the first space outside double quotes, or the length of
/// `text` when there is none. `in_quotes` says whether `text` begins inside
/// a quoted stretch.
pub open spec fn first_arg_end(text: Seq<u16>, in_quotes: bool) -> int
    decreases text.len(),
{
    if text.len() == 0 {
        0
    } else if text[0] == QUOTE {
        1 + first_arg_end(text.drop_first(), !in_quotes)
    } else if text[0] == SPACE && !in_quotes {
        0
    } else {
        1 + first_arg_end(text.drop_first(), in_quotes)
    }
}

/// The command line that follows the first argument; the lone terminator
/// when the first argument is all there is.
pub open spec fn without_first_arg(command_line: Seq<u16>) -> Seq<u16> {
    let end = first_arg_end(command_line, false);
    if end < command_line.len() {
        trimmed(command_line.subrange(end, command_line.len() as int))
    } else {
        seq![0u16]
    }
}

/// Drops the spaces at the start of `text`.
pub fn trim_start(text: &[u16]) -> (rest: &[u16])
    ensures
        rest@ == trimmed(text@),
{
    let mut i: usize = 0;
    assert(text@.subrange(0, text@.len() as int) == text@);
    while i < text.len()
        invariant
            i <= text@.len(),
            i + leading_spaces(text@.subrange(i as int, text@.len() as int)) == leading_spaces(
                text@,
            ),
        decreases text.len() - i,
    {
        if text[i] != SPACE {
            return &text[i..text.len()];
        }
        proof {
            let here = text@.subrange(i as int, text@.len() as int);
            assert(here.drop_first() == text@.subrange(i + 1, text@.len() as int));
        }
        i = i + 1;
    }
    &[0]
}

/// Drops the first argument of a command line and the spaces after it.
///
/// The first argument ends at the first space that is not inside double
/// quotes; a quote opens a quoted stretch or closes the one that is open.
pub fn strip_first_arg(command_line: &[u16]) -> (rest: &[u16])
    ensures
        rest@ == without_first_arg(command_line@),
{
    let mut in_quotes = false;
    let mut i: usize = 0;
    assert(command_line@.subrange(0, command_line@.len() as int) == command_line@);
    while i < command_line.len()
        invariant
            i <= command_line@.len(),
            i + first_arg_end(
                command_line@.subrange(i as int, command_line@.len() as int),
                in_quotes,
            ) == first_arg_end(command_line@, false),
        decreases command_line.len() - i,
    {
        proof {
            let here = command_line@.subrange(i as int, command_line@.len() as int);
            assert(here.drop_first() == command_line@.subrange(
                i + 1,
                command_line@.len() as int,
            ));
        }
        if command_line[i] == QUOTE {
            in_quotes = !in_quotes;
        } else if command_line[i] == SPACE && !in_quotes {
            return trim_start(&command_line[i..command_line.len()]);
        }
        i = i + 1;
    }
    &[0]
}

} // verus!
