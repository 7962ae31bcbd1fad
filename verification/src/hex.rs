//! Rendering a five-word digest as a 40-character lowercase hexadecimal
//! string: each word zero-padded to 8 digits, words concatenated in order.

use vstd::prelude::*;
use vstd::string::StringExecFns;

verus! {

/// The lowercase hex digit of a value below 16.
pub open spec fn hex_digit(n: u32) -> char
    recommends
        n < 16,
{
    if n == 0 {
        '0'
    } else if n == 1 {
        '1'
    } else if n == 2 {
        '2'
    } else if n == 3 {
        '3'
    } else if n == 4 {
        '4'
    } else if n == 5 {
        '5'
    } else if n == 6 {
        '6'
    } else if n == 7 {
        '7'
    } else if n == 8 {
        '8'
    } else if n == 9 {
        '9'
    } else if n == 10 {
        'a'
    } else if n == 11 {
        'b'
    } else if n == 12 {
        'c'
    } else if n == 13 {
        'd'
    } else if n == 14 {
        'e'
    } else {
        'f'
    }
}

/// The eight lowercase hex digits of a 32-bit word, most significant nibble
/// first.
pub open spec fn word_hex(w: u32) -> Seq<char> {
    Seq::new(8, |i: int| hex_digit((w >> ((28 - 4 * i) as u32)) & 0xf))
}

/// The 40-character lowercase hex rendering of a five-word digest.
pub open spec fn spec_format_digest(d: Seq<u32>) -> Seq<char>
    recommends
        d.len() == 5,
{
    word_hex(d[0]) + word_hex(d[1]) + word_hex(d[2]) + word_hex(d[3]) + word_hex(d[4])
}

/// The one-character string holding the lowercase hex digit of `n`.
fn hex_digit_str(n: u32) -> (r: &'static str)
    requires
        n < 16,
    ensures
        r@ == seq![hex_digit(n)],
{
    let s: &'static str = if n == 0 {
        "0"
    } else if n == 1 {
        "1"
    } else if n == 2 {
        "2"
    } else if n == 3 {
        "3"
    } else if n == 4 {
        "4"
    } else if n == 5 {
        "5"
    } else if n == 6 {
        "6"
    } else if n == 7 {
        "7"
    } else if n == 8 {
        "8"
    } else if n == 9 {
        "9"
    } else if n == 10 {
        "a"
    } else if n == 11 {
        "b"
    } else if n == 12 {
        "c"
    } else if n == 13 {
        "d"
    } else if n == 14 {
        "e"
    } else {
        "f"
    };
    proof {
        reveal_strlit("0");
        reveal_strlit("1");
        reveal_strlit("2");
        reveal_strlit("3");
        reveal_strlit("4");
        reveal_strlit("5");
        reveal_strlit("6");
        reveal_strlit("7");
        reveal_strlit("8");
        reveal_strlit("9");
        reveal_strlit("a");
        reveal_strlit("b");
        reveal_strlit("c");
        reveal_strlit("d");
        reveal_strlit("e");
        reveal_strlit("f");
        assert(s@ =~= seq![hex_digit(n)]);
    }
    s
}

/// Appends the eight hex digits of `w` to `out`, most significant first.
fn push_word_hex(out: &mut String, w: u32)
    ensures
        final(out)@ == old(out)@ + word_hex(w),
{
    let mut i: u32 = 0;
    while i < 8
        invariant
            i <= 8,
            out@ == old(out)@ + word_hex(w).take(i as int),
        decreases 8 - i,
    {
        let shift: u32 = 28 - 4 * i;
        let nibble: u32 = (w >> shift) & 0xf;
        assert((w >> shift) & 0xf < 16) by (bit_vector);
        let ds = hex_digit_str(nibble);
        out.append(ds);
        i = i + 1;
        assert(out@ =~= old(out)@ + word_hex(w).take(i as int));
    }
    assert(out@ =~= old(out)@ + word_hex(w));
}

/// Renders the five digest words as one 40-character lowercase hex string,
/// each word zero-padded to 8 digits, word 0 first.
pub fn format_digest(digest: &[u32; 5]) -> (r: String)
    ensures
        r@ == spec_format_digest(digest@),
{
    let mut out = String::new();
    push_word_hex(&mut out, digest[0]);
    push_word_hex(&mut out, digest[1]);
    push_word_hex(&mut out, digest[2]);
    push_word_hex(&mut out, digest[3]);
    push_word_hex(&mut out, digest[4]);
    assert(out@ =~= spec_format_digest(digest@));
    out
}

} // verus!
