//! Text helpers shared by the rest of the crate: comparison, searching,
//! splitting, joining and the writing of numbers, all stated over
//! `Seq<char>`.

use vstd::prelude::*;

verus! {

/// `needle` occurs in `haystack` at character offset `at`.
pub open spec fn occurs_at(haystack: Seq<char>, needle: Seq<char>, at: int) -> bool {
    &&& 0 <= at
    &&& at + needle.len() <= haystack.len()
    &&& haystack.subrange(at, at + needle.len()) == needle
}

/// `needle` occurs somewhere in `haystack`.
pub open spec fn contains_text(haystack: Seq<char>, needle: Seq<char>) -> bool {
    exists|at: int| occurs_at(haystack, needle, at)
}

/// The code of `c` with the ASCII capitals folded onto the ASCII small letters.
pub open spec fn ascii_fold(c: char) -> u32 {
    let code = c as u32;
    if 65 <= code <= 90 {
        (code + 32) as u32
    } else {
        code
    }
}

/// Equality of two texts up to the case of ASCII letters.
pub open spec fn same_ignoring_ascii_case(a: Seq<char>, b: Seq<char>) -> bool {
    &&& a.len() == b.len()
    &&& forall|i: int| 0 <= i < a.len() ==> ascii_fold(#[trigger] a[i]) == ascii_fold(b[i])
}

/// Index of the first `sep` in `s`, or `s.len()` when there is none.
pub open spec fn first_separator(s: Seq<char>, sep: char) -> int
    decreases s.len(),
{
    if s.len() == 0 {
        0
    } else if s[0] == sep {
        0
    } else {
        1 + first_separator(s.subrange(1, s.len() as int), sep)
    }
}

/// The pieces of `s` between occurrences of `sep`. There is always at least
/// one piece; an empty text has the single empty piece.
pub open spec fn split_text(s: Seq<char>, sep: char) -> Seq<Seq<char>>
    decreases s.len(),
{
    let cut = first_separator(s, sep);
    if 0 <= cut < s.len() {
        seq![s.subrange(0, cut)] + split_text(s.subrange(cut + 1, s.len() as int), sep)
    } else {
        seq![s]
    }
}

/// The character that writes the decimal digit `d`.
pub open spec fn digit_char(d: nat) -> char {
    if d == 0 {
        '0'
    } else if d == 1 {
        '1'
    } else if d == 2 {
        '2'
    } else if d == 3 {
        '3'
    } else if d == 4 {
        '4'
    } else if d == 5 {
        '5'
    } else if d == 6 {
        '6'
    } else if d == 7 {
        '7'
    } else if d == 8 {
        '8'
    } else {
        '9'
    }
}

/// The decimal numeral of `n`, without leading zeros.
pub open spec fn decimal_text(n: nat) -> Seq<char>
    decreases n,
{
    if n < 10 {
        seq![digit_char(n)]
    } else {
        decimal_text(n / 10).push(digit_char(n % 10))
    }
}

/// The character that writes the hexadecimal digit `d` in capitals.
pub open spec fn hex_digit_char(d: nat) -> char {
    if d < 10 {
        digit_char(d)
    } else if d == 10 {
        'A'
    } else if d == 11 {
        'B'
    } else if d == 12 {
        'C'
    } else if d == 13 {
        'D'
    } else if d == 14 {
        'E'
    } else {
        'F'
    }
}

/// The hexadecimal numeral of `n` in capitals, without leading zeros.
pub open spec fn hex_text(n: nat) -> Seq<char>
    decreases n,
{
    if n < 16 {
        seq![hex_digit_char(n)]
    } else {
        hex_text(n / 16).push(hex_digit_char(n % 16))
    }
}

/// `parts` written one after the other with `separator` between them.
pub open spec fn joined(parts: Seq<Seq<char>>, separator: Seq<char>) -> Seq<char>
    decreases parts.len(),
{
    if parts.len() == 0 {
        Seq::empty()
    } else if parts.len() == 1 {
        parts[0]
    } else {
        joined(parts.drop_last(), separator) + separator + parts.last()
    }
}

/// A list with one more part is joined by joining the list and writing the
/// separator and the part behind it.
pub proof fn lemma_joined_push(parts: Seq<Seq<char>>, separator: Seq<char>, last: Seq<char>)
    requires
        parts.len() >= 1,
    ensures
        joined(parts.push(last), separator) == joined(parts, separator) + separator + last,
{
    assert(parts.push(last).drop_last() =~= parts);
}

/// The views of a list of owned texts.
pub open spec fn views_of(items: Seq<String>) -> Seq<Seq<char>> {
    Seq::new(items.len(), |i: int| items[i]@)
}

/// The first separator lies within the text or at its end, is a separator
/// where it lies within, and has no separator before it.
pub proof fn lemma_first_separator_bounds(s: Seq<char>, sep: char)
    ensures
        0 <= first_separator(s, sep) <= s.len(),
        first_separator(s, sep) < s.len() ==> s[first_separator(s, sep)] == sep,
        forall|i: int| 0 <= i < first_separator(s, sep) ==> s[i] != sep,
    decreases s.len(),
{
    if s.len() != 0 && s[0] != sep {
        let rest = s.subrange(1, s.len() as int);
        lemma_first_separator_bounds(rest, sep);
        assert forall|i: int| 0 <= i < first_separator(s, sep) implies s[i] != sep by {
            if i > 0 {
                assert(rest[i - 1] == s[i]);
            }
        }
    }
}

/// Whether two texts hold the same characters.
pub fn str_equal(a: &str, b: &str) -> (same: bool)
    ensures
        same == (a@ == b@),
{
    let left = a.to_owned();
    let right = b.to_owned();
    left == right
}

/// Whether `s` begins with `prefix`.
pub fn starts_with(s: &str, prefix: &str) -> (begins: bool)
    ensures
        begins == prefix@.is_prefix_of(s@),
{
    let n = prefix.unicode_len();
    if s.unicode_len() < n {
        false
    } else {
        str_equal(s.substring_char(0, n), prefix)
    }
}

/// Whether `needle` occurs in `haystack`.
pub fn contains(haystack: &str, needle: &str) -> (found: bool)
    ensures
        found == contains_text(haystack@, needle@),
{
    let n = needle.unicode_len();
    let len = haystack.unicode_len();
    if len < n {
        assert(!contains_text(haystack@, needle@));
        return false;
    }
    let last = len - n;
    let mut at: usize = 0;
    loop
        invariant
            n == needle@.len(),
            len == haystack@.len(),
            last == len - n,
            at <= last,
            forall|k: int| 0 <= k < at ==> !occurs_at(haystack@, needle@, k),
        decreases last - at,
    {
        if str_equal(haystack.substring_char(at, at + n), needle) {
            assert(occurs_at(haystack@, needle@, at as int));
            return true;
        }
        if at == last {
            assert(!contains_text(haystack@, needle@));
            return false;
        }
        at = at + 1;
    }
}

/// The code of `c` with the ASCII capitals folded onto the small letters.
fn fold_code(c: char) -> (code: u32)
    ensures
        code == ascii_fold(c),
{
    let code = c as u32;
    if 65 <= code && code <= 90 {
        code + 32
    } else {
        code
    }
}

/// Whether two texts are equal up to the case of ASCII letters.
pub fn eq_ignore_ascii_case(a: &str, b: &str) -> (same: bool)
    ensures
        same == same_ignoring_ascii_case(a@, b@),
{
    let len = a.unicode_len();
    if b.unicode_len() != len {
        return false;
    }
    let mut i: usize = 0;
    while i < len
        invariant
            len == a@.len(),
            len == b@.len(),
            i <= len,
            forall|k: int| 0 <= k < i ==> ascii_fold(#[trigger] a@[k]) == ascii_fold(b@[k]),
        decreases len - i,
    {
        if fold_code(a.get_char(i)) != fold_code(b.get_char(i)) {
            return false;
        }
        i = i + 1;
    }
    true
}

/// Splits `s` at every `sep`, keeping empty pieces.
pub fn split(s: &str, sep: char) -> (pieces: Vec<String>)
    ensures
        views_of(pieces@) == split_text(s@, sep),
{
    let len = s.unicode_len();
    let mut pieces: Vec<String> = Vec::new();
    let mut start: usize = 0;
    let mut i: usize = 0;
    assert(s@.subrange(0, len as int) == s@);
    assert(views_of(pieces@) + split_text(s@, sep) == split_text(s@, sep));
    while i < len
        invariant
            len == s@.len(),
            start <= i <= len,
            forall|k: int| start <= k < i ==> s@[k] != sep,
            views_of(pieces@) + split_text(s@.subrange(start as int, len as int), sep)
                == split_text(s@, sep),
        decreases len - i,
    {
        if s.get_char(i) == sep {
            let piece = String::from_str(s.substring_char(start, i));
            proof {
                let rest = s@.subrange(start as int, len as int);
                lemma_first_separator_bounds(rest, sep);
                let cut = first_separator(rest, sep);
                assert(rest[i - start] == sep);
                assert(cut == i - start) by {
                    if cut < i - start {
                        assert(rest[cut] == s@[start + cut]);
                    }
                }
                assert(rest.subrange(0, cut) == s@.subrange(start as int, i as int));
                assert(rest.subrange(cut + 1, rest.len() as int) == s@.subrange(
                    i + 1,
                    len as int,
                ));
                assert(views_of(pieces@.push(piece)) == views_of(pieces@) + seq![piece@]);
            }
            pieces.push(piece);
            start = i + 1;
        }
        i = i + 1;
    }
    let last = String::from_str(s.substring_char(start, len));
    proof {
        let rest = s@.subrange(start as int, len as int);
        lemma_first_separator_bounds(rest, sep);
        let cut = first_separator(rest, sep);
        assert(cut == rest.len()) by {
            if cut < rest.len() {
                assert(rest[cut] == s@[start + cut]);
            }
        }
        assert(views_of(pieces@.push(last)) == views_of(pieces@) + seq![last@]);
    }
    pieces.push(last);
    pieces
}

/// The decimal digit `d` as a text.
fn digit_str(d: u32) -> (text: &'static str)
    requires
        d < 10,
    ensures
        text@ == seq![digit_char(d as nat)],
{
    proof {
        reveal_strlit("0");
        reveal_strlit("1");
        reveal_strlit("2");
        reveal_strlit("3");
        reveal_strlit("4");
        reveal_strlit("5");
        reveal_strlit("6");
        reveal_strlit("7");
        reveal_strlit("8");
        reveal_strlit("9");
    }
    let text = if d == 0 {
        "0"
    } else if d == 1 {
        "1"
    } else if d == 2 {
        "2"
    } else if d == 3 {
        "3"
    } else if d == 4 {
        "4"
    } else if d == 5 {
        "5"
    } else if d == 6 {
        "6"
    } else if d == 7 {
        "7"
    } else if d == 8 {
        "8"
    } else {
        "9"
    };
    assert(text@ =~= seq![digit_char(d as nat)]);
    text
}

/// Writes `n` as a decimal numeral.
pub fn decimal(n: u32) -> (text: String)
    ensures
        text@ == decimal_text(n as nat),
    decreases n,
{
    if n < 10 {
        String::from_str(digit_str(n))
    } else {
        let mut text = decimal(n / 10);
        text.append(digit_str(n % 10));
        assert(text@ =~= decimal_text((n / 10) as nat).push(digit_char((n % 10) as nat)));
        text
    }
}

/// The hexadecimal digit `d` as a text.
fn hex_digit_str(d: u32) -> (text: &'static str)
    requires
        d < 16,
    ensures
        text@ == seq![hex_digit_char(d as nat)],
{
    if d < 10 {
        digit_str(d)
    } else {
        proof {
            reveal_strlit("A");
            reveal_strlit("B");
            reveal_strlit("C");
            reveal_strlit("D");
            reveal_strlit("E");
            reveal_strlit("F");
        }
        let text = if d == 10 {
            "A"
        } else if d == 11 {
            "B"
        } else if d == 12 {
            "C"
        } else if d == 13 {
            "D"
        } else if d == 14 {
            "E"
        } else {
            "F"
        };
        assert(text@ =~= seq![hex_digit_char(d as nat)]);
        text
    }
}

/// Writes `n` as a hexadecimal numeral in capitals.
pub fn hex_upper(n: u32) -> (text: String)
    ensures
        text@ == hex_text(n as nat),
    decreases n,
{
    if n < 16 {
        String::from_str(hex_digit_str(n))
    } else {
        let mut text = hex_upper(n / 16);
        text.append(hex_digit_str(n % 16));
        assert(text@ =~= hex_text((n / 16) as nat).push(hex_digit_char((n % 16) as nat)));
        text
    }
}

/// The text that `str::to_lowercase` gives for a text.
pub uninterp spec fn lowercase_text(text: Seq<char>) -> Seq<char>;

/// Calls `str::to_lowercase`. The result is the lowercase form that the
/// standard library defines for the text, named by [`lowercase_text`];
/// nothing else is claimed of it.
#[verifier::external_body]
pub(crate) fn to_lowercase(text: &str) -> (lowered: String)
    ensures
        lowered@ == lowercase_text(text@),
{
    text.to_lowercase()
}

} // verus!
