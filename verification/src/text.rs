//! Text building blocks shared by the generators.

use vstd::prelude::*;
use vstd::string::StringSliceAdditionalSpecFns;
use vstd::utf8::{decode_utf8, encode_utf8, is_char_boundary};

verus! {

/// Whether two strings hold the same characters.
pub fn str_eq(a: &str, b: &str) -> (same: bool)
    ensures
        same == (a@ == b@),
{
    let left = a.as_bytes();
    let right = b.as_bytes();
    proof {
        vstd::utf8::encode_utf8_decode_utf8(a@);
        vstd::utf8::encode_utf8_decode_utf8(b@);
    }
    if left.len() != right.len() {
        return false;
    }
    let mut i: usize = 0;
    while i < left.len()
        invariant
            i <= left@.len(),
            left@.len() == right@.len(),
            left@ == encode_utf8(a@),
            right@ == encode_utf8(b@),
            forall|k: int| 0 <= k < i ==> left@[k] == right@[k],
        decreases left@.len() - i,
    {
        if left[i] != right[i] {
            return false;
        }
        i = i + 1;
    }
    assert(left@ =~= right@);
    true
}

/// The concatenation `piece(0) + piece(1) + ... + piece(n - 1)`.
pub open spec fn concat_upto(n: nat, piece: spec_fn(int) -> Seq<char>) -> Seq<char>
    decreases n,
{
    if n == 0 {
        Seq::empty()
    } else {
        concat_upto((n - 1) as nat, piece) + piece(n - 1)
    }
}

/// `text` repeated `n` times.
pub open spec fn repeated(text: Seq<char>, n: nat) -> Seq<char> {
    concat_upto(n, |i: int| text)
}

/// The text of one decimal digit.
pub open spec fn digit_text(d: nat) -> Seq<char> {
    if d == 0 {
        "0"@
    } else if d == 1 {
        "1"@
    } else if d == 2 {
        "2"@
    } else if d == 3 {
        "3"@
    } else if d == 4 {
        "4"@
    } else if d == 5 {
        "5"@
    } else if d == 6 {
        "6"@
    } else if d == 7 {
        "7"@
    } else if d == 8 {
        "8"@
    } else {
        "9"@
    }
}

/// The decimal numeral of `n`, without sign or leading zeros.
pub open spec fn decimal_text(n: nat) -> Seq<char>
    decreases n,
{
    if n < 10 {
        digit_text(n)
    } else {
        decimal_text(n / 10) + digit_text(n % 10)
    }
}

/// The text of a digit below ten.
fn digit_str(d: u64) -> (text: &'static str)
    requires
        d < 10,
    ensures
        text@ == digit_text(d as nat),
{
    if d == 0 {
        "0"
    } else if d == 1 {
        "1"
    } else if d == 2 {
        "2"
    } else if d == 3 {
        "3"
    } else if d == 4 {
        "4"
    } else if d == 5 {
        "5"
    } else if d == 6 {
        "6"
    } else if d == 7 {
        "7"
    } else if d == 8 {
        "8"
    } else {
        "9"
    }
}

/// Appends the decimal numeral of `n` to `out`.
pub fn append_decimal(out: &mut String, n: u64)
    ensures
        final(out)@ == old(out)@ + decimal_text(n as nat),
    decreases n,
{
    if n < 10 {
        out.append(digit_str(n));
    } else {
        append_decimal(out, n / 10);
        out.append(digit_str(n % 10));
    }
}

/// Appends `text` to `out`, `n` times over.
pub fn append_repeated(out: &mut String, text: &str, n: u32)
    ensures
        final(out)@ == old(out)@ + repeated(text@, n as nat),
{
    let mut i: u32 = 0;
    while i < n
        invariant
            i <= n,
            out@ == old(out)@ + repeated(text@, i as nat),
        decreases n - i,
    {
        out.append(text);
        i = i + 1;
    }
}

/// The separator after the entry at `index` of a list of `len` entries:
/// a comma after every entry but the last.
pub open spec fn separator_after(index: int, len: nat) -> Seq<char> {
    if index < len - 1 {
        ", "@
    } else {
        Seq::empty()
    }
}

/// Appends the separator that follows the entry at `index`.
pub fn append_separator(out: &mut String, index: usize, len: usize)
    requires
        index < len,
    ensures
        final(out)@ == old(out)@ + separator_after(index as int, len as nat),
{
    if index < len - 1 {
        out.append(", ");
    }
}

/// The text between two byte offsets of a string: present where the
/// offsets are in order, within the string, and each at the start of a
/// character or at the end.
pub open spec fn text_in_range(source: Seq<char>, start: int, end: int) -> Option<Seq<char>> {
    let bytes = encode_utf8(source);
    if 0 <= start <= end <= bytes.len() && is_char_boundary(bytes, start) && is_char_boundary(
        bytes,
        end,
    ) {
        Some(decode_utf8(bytes.subrange(start, end)))
    } else {
        None
    }
}

/// The text between two byte offsets of a string, where there is one.
pub fn byte_range_text<'a>(source: &'a str, start: usize, end: usize) -> (text: Option<&'a str>)
    ensures
        match text {
            Some(t) => text_in_range(source@, start as int, end as int) == Some(t@),
            None => text_in_range(source@, start as int, end as int) is None,
        },
{
    if start > end || end > source.as_bytes().len() {
        return None;
    }
    if !source.is_char_boundary(start) || !source.is_char_boundary(end) {
        return None;
    }
    let ghost bytes = encode_utf8(source@);
    proof {
        vstd::utf8::encode_utf8_valid_utf8(source@);
        vstd::utf8::valid_utf8_split(bytes, start as int);
    }
    let (_, tail) = source.split_at(start);
    let ghost rest = bytes.subrange(start as int, bytes.len() as int);
    proof {
        if end < bytes.len() {
            vstd::utf8::is_char_boundary_iff_not_is_continuation_byte(bytes, end as int);
            vstd::utf8::is_char_boundary_iff_not_is_continuation_byte(rest, end - start);
        } else {
            vstd::utf8::is_char_boundary_start_end_of_seq(rest);
        }
    }
    let (text, _) = tail.split_at(end - start);
    proof {
        assert(text.spec_bytes() =~= bytes.subrange(start as int, end as int));
        vstd::utf8::encode_utf8_decode_utf8(text@);
    }
    Some(text)
}

} // verus!
