//! The padding stage: extends a message to a multiple of 64 bytes, with a
//! `0x80` terminator byte, a zero fill, and the original length in bits as a
//! trailing big-endian 64-bit value.

use vstd::prelude::*;

verus! {

/// The eight bytes of `x`, most significant first.
pub open spec fn be_u64_bytes(x: u64) -> Seq<u8> {
    seq![
        (x >> 56) as u8,
        (x >> 48) as u8,
        (x >> 40) as u8,
        (x >> 32) as u8,
        (x >> 24) as u8,
        (x >> 16) as u8,
        (x >> 8) as u8,
        x as u8,
    ]
}

/// The 64-bit value read from eight bytes, most significant first.
pub open spec fn be_u64_of(s: Seq<u8>) -> u64
    recommends
        s.len() == 8,
{
    ((s[0] as u64) << 56) | ((s[1] as u64) << 48) | ((s[2] as u64) << 40) | ((s[3] as u64) << 32)
        | ((s[4] as u64) << 24) | ((s[5] as u64) << 16) | ((s[6] as u64) << 8) | (s[7] as u64)
}

/// Decoding the eight big-endian bytes of a value gives the value back.
pub proof fn lemma_be_u64_round_trip(x: u64)
    ensures
        be_u64_of(be_u64_bytes(x)) == x,
{
    assert((((x >> 56) as u8) as u64) << 56 | (((x >> 48) as u8) as u64) << 48 | (((x
        >> 40) as u8) as u64) << 40 | (((x >> 32) as u8) as u64) << 32 | (((x >> 24) as u8) as u64)
        << 24 | (((x >> 16) as u8) as u64) << 16 | (((x >> 8) as u8) as u64) << 8 | ((
    x as u8) as u64) == x) by (bit_vector);
}

/// How many zero bytes the padding inserts between the `0x80` terminator and
/// the trailing length field, for a message of `n` bytes.
pub open spec fn zero_fill_len(n: nat) -> nat {
    ((64 - ((n + 9) % 64)) % 64) as nat
}

/// The padded form of a message: the message itself, one `0x80` byte, a zero
/// fill, and the message's bit length as eight big-endian bytes.
pub open spec fn spec_pad(msg: Seq<u8>) -> Seq<u8> {
    msg + seq![0x80u8] + Seq::new(zero_fill_len(msg.len()), |i: int| 0u8) + be_u64_bytes(
        (msg.len() * 8) as u64,
    )
}

/// The padded length is a whole number of 64-byte blocks, and padding adds at
/// least the 9 mandatory trailer bytes.
pub proof fn lemma_pad_len(msg: Seq<u8>)
    ensures
        spec_pad(msg).len() == msg.len() + 9 + zero_fill_len(msg.len()),
        spec_pad(msg).len() % 64 == 0,
        spec_pad(msg).len() >= msg.len() + 9,
{
    let n = msg.len();
    assert(spec_pad(msg).len() == n + 9 + zero_fill_len(n));
    let r = (n + 9) % 64;
    if r == 0 {
        assert(zero_fill_len(n) == 0);
        assert((n + 9 + zero_fill_len(n)) % 64 == 0);
    } else {
        assert(zero_fill_len(n) == 64 - r);
        assert((n + 9 + (64 - r)) % 64 == 0);
    }
}

/// The padded buffer keeps the original bytes unchanged as a prefix, follows
/// them with the `0x80` terminator, and holds zeros from there to the
/// trailing 8-byte length field.
pub proof fn lemma_pad_shape(msg: Seq<u8>)
    ensures
        spec_pad(msg).take(msg.len() as int) == msg,
        spec_pad(msg)[msg.len() as int] == 0x80,
        forall|i: int|
            msg.len() + 1 <= i < spec_pad(msg).len() - 8 ==> spec_pad(msg)[i] == 0,
{
    assert(spec_pad(msg).take(msg.len() as int) =~= msg);
}

/// Padding is deterministic: equal messages have bit-identical padded forms.
pub proof fn lemma_pad_deterministic(m1: Seq<u8>, m2: Seq<u8>)
    requires
        m1 == m2,
    ensures
        spec_pad(m1) == spec_pad(m2),
{
}

/// The final 8 bytes of the padded buffer decode, big-endian, to 8 times the
/// message length. (The length is recorded verbatim, so the message must be
/// short enough for its bit length to fit in 64 bits.)
pub proof fn lemma_pad_records_bit_length(msg: Seq<u8>)
    requires
        msg.len() * 8 <= u64::MAX,
    ensures
        be_u64_of(spec_pad(msg).subrange(spec_pad(msg).len() - 8, spec_pad(msg).len() as int)) == 8
            * msg.len(),
{
    let p = spec_pad(msg);
    let bits = (msg.len() * 8) as u64;
    assert(p.subrange(p.len() - 8, p.len() as int) =~= be_u64_bytes(bits));
    lemma_be_u64_round_trip(bits);
}

/// A message of exactly 55 bytes pads to a single 64-byte block: the
/// terminator and the length field fit with no zero fill.
pub proof fn lemma_pad_len_55(msg: Seq<u8>)
    requires
        msg.len() == 55,
    ensures
        spec_pad(msg).len() == 64,
{
    lemma_pad_len(msg);
}

/// A message of exactly 56 bytes pads to two full blocks: the terminator
/// alone overflows the first block's trailer space.
pub proof fn lemma_pad_len_56(msg: Seq<u8>)
    requires
        msg.len() == 56,
    ensures
        spec_pad(msg).len() == 128,
{
    lemma_pad_len(msg);
}

/// The empty message pads to a single 64-byte block.
pub proof fn lemma_pad_len_empty(msg: Seq<u8>)
    requires
        msg.len() == 0,
    ensures
        spec_pad(msg).len() == 64,
{
    lemma_pad_len(msg);
}

/// Appends a `1` bit (as the byte `0x80`), a zero fill, and the original
/// length in bits as a trailing big-endian 64-bit value, so that the result
/// is evenly divisible into 64-byte blocks.
pub fn pre_process_message(message: &mut Vec<u8>)
    requires
        old(message)@.len() * 8 <= u64::MAX,
        old(message)@.len() + 72 <= usize::MAX,
    ensures
        final(message)@ == spec_pad(old(message)@),
        final(message)@.len() % 64 == 0,
        final(message)@.len() >= old(message)@.len() + 9,
{
    proof {
        lemma_pad_len(old(message)@);
    }
    let one_bit: u8 = 0x80;
    let len_bits: u64 = 8u64 * (message.len() as u64);

    message.push(one_bit);

    let pad_count: usize = (64 - ((message.len() + 8) % 64)) % 64;
    assert(pad_count == zero_fill_len(old(message)@.len()));
    let mut k: usize = 0;
    while k < pad_count
        invariant
            k <= pad_count,
            message@ == old(message)@ + seq![0x80u8] + Seq::new(k as nat, |i: int| 0u8),
            message@.len() + 8 + (pad_count - k) <= usize::MAX,
        decreases pad_count - k,
    {
        message.push(0);
        k = k + 1;
        assert(message@ =~= old(message)@ + seq![0x80u8] + Seq::new(k as nat, |i: int| 0u8));
    }

    message.push(#[verifier::truncate] ((len_bits >> 56) as u8));
    message.push(#[verifier::truncate] ((len_bits >> 48) as u8));
    message.push(#[verifier::truncate] ((len_bits >> 40) as u8));
    message.push(#[verifier::truncate] ((len_bits >> 32) as u8));
    message.push(#[verifier::truncate] ((len_bits >> 24) as u8));
    message.push(#[verifier::truncate] ((len_bits >> 16) as u8));
    message.push(#[verifier::truncate] ((len_bits >> 8) as u8));
    message.push(#[verifier::truncate] (len_bits as u8));
    assert(message@ =~= spec_pad(old(message)@));
}

} // verus!
