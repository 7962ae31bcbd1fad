//! The compression engine: the 80-word message schedule, the 80-round mixing
//! loop, and the per-block folding of working registers into the five-word
//! digest state.

use vstd::prelude::*;

use crate::pad::spec_pad;
use crate::pad::pre_process_message;
use crate::words::rotl;
use crate::words::u8s_to_u32;
use crate::words::word_be;

verus! {

/// The five 32-bit accumulator words of a digest computation.
pub type Words = (u32, u32, u32, u32, u32);

/// The fixed initial digest state.
pub open spec fn init_state() -> Words {
    (0x67452301u32, 0xEFCDAB89u32, 0x98BADCFEu32, 0x10325476u32, 0xC3D2E1F0u32)
}

/// The round-dependent nonlinear function of rounds `0..=79`.
pub open spec fn round_f(i: int, b: u32, c: u32, d: u32) -> u32
    recommends
        0 <= i < 80,
{
    if i < 20 {
        (b & c) | ((!b) & d)
    } else if i < 40 {
        b ^ c ^ d
    } else if i < 60 {
        (b & c) | (b & d) | (c & d)
    } else {
        b ^ c ^ d
    }
}

/// The round-dependent additive constant of rounds `0..=79`.
pub open spec fn round_k(i: int) -> u32
    recommends
        0 <= i < 80,
{
    if i < 20 {
        0x5A827999u32
    } else if i < 40 {
        0x6ED9EBA1u32
    } else if i < 60 {
        0x8F1BBCDCu32
    } else {
        0xCA62C1D6u32
    }
}

/// Word `i` of the 80-word message schedule of a 64-byte block: the first 16
/// words are the block's bytes read big-endian, the rest are derived by XOR
/// and a one-bit rotation.
pub open spec fn schedule(block: Seq<u8>, i: int) -> u32
    recommends
        block.len() == 64,
        0 <= i < 80,
    decreases i,
{
    if i < 16 {
        word_be(block[4 * i], block[4 * i + 1], block[4 * i + 2], block[4 * i + 3])
    } else {
        rotl(
            schedule(block, i - 3) ^ schedule(block, i - 8) ^ schedule(block, i - 14) ^ schedule(
                block,
                i - 16,
            ),
            1,
        )
    }
}

/// One round of the mixing loop applied to the working registers
/// `(a, b, c, d, e)`, with all additions wrapping modulo 2^32.
pub open spec fn round(block: Seq<u8>, i: int, s: Words) -> Words
    recommends
        block.len() == 64,
        0 <= i < 80,
{
    let (a, b, c, d, e) = s;
    let temp = rotl(a, 5).wrapping_add(round_f(i, b, c, d)).wrapping_add(e).wrapping_add(
        round_k(i),
    ).wrapping_add(schedule(block, i));
    (temp, a, rotl(b, 30), c, d)
}

/// The working registers after the first `i` rounds on `block`, seeded with
/// `s0`.
pub open spec fn rounds(block: Seq<u8>, s0: Words, i: int) -> Words
    recommends
        block.len() == 64,
        0 <= i <= 80,
    decreases i,
{
    if i <= 0 {
        s0
    } else {
        round(block, i - 1, rounds(block, s0, i - 1))
    }
}

/// The digest state after compressing one 64-byte block into state `h`: run
/// all 80 rounds seeded with `h`, then fold the working registers back into
/// `h` with wrapping additions.
pub open spec fn compress_block(h: Words, block: Seq<u8>) -> Words {
    let (a, b, c, d, e) = rounds(block, h, 80);
    (
        h.0.wrapping_add(a),
        h.1.wrapping_add(b),
        h.2.wrapping_add(c),
        h.3.wrapping_add(d),
        h.4.wrapping_add(e),
    )
}

/// Block `n` of a padded message: bytes `64 * n .. 64 * n + 64`.
pub open spec fn block_at(padded: Seq<u8>, n: int) -> Seq<u8>
    recommends
        0 <= n,
        64 * n + 64 <= padded.len(),
{
    padded.subrange(64 * n, 64 * n + 64)
}

/// The digest state after compressing the first `n` blocks of a padded
/// message, starting from the fixed initial state.
pub open spec fn state_after(padded: Seq<u8>, n: int) -> Words
    recommends
        0 <= n,
        64 * n <= padded.len(),
    decreases n,
{
    if n <= 0 {
        init_state()
    } else {
        compress_block(state_after(padded, n - 1), block_at(padded, n - 1))
    }
}

/// The SHA-1 digest of a raw (unpadded) message: pad it, then compress every
/// 64-byte block in sequence.
pub open spec fn spec_sha(msg: Seq<u8>) -> Words {
    let padded = spec_pad(msg);
    state_after(padded, padded.len() as int / 64)
}

/// The digest is deterministic: equal messages have identical digests.
pub proof fn lemma_sha_deterministic(m1: Seq<u8>, m2: Seq<u8>)
    requires
        m1 == m2,
    ensures
        spec_sha(m1) == spec_sha(m2),
{
}

/// Computes the SHA-1 digest of `message` as five 32-bit words. The message
/// buffer is consumed: it is padded in place and then read block by block.
pub fn compute_sha(message: &mut Vec<u8>) -> (digest: [u32; 5])
    requires
        old(message)@.len() * 8 <= u64::MAX,
        old(message)@.len() + 72 <= usize::MAX,
    ensures
        digest@ == seq![
            spec_sha(old(message)@).0,
            spec_sha(old(message)@).1,
            spec_sha(old(message)@).2,
            spec_sha(old(message)@).3,
            spec_sha(old(message)@).4,
        ],
{
    let mut h0: u32 = 0x67452301;
    let mut h1: u32 = 0xEFCDAB89;
    let mut h2: u32 = 0x98BADCFE;
    let mut h3: u32 = 0x10325476;
    let mut h4: u32 = 0xC3D2E1F0;

    pre_process_message(message);
    let ghost padded: Seq<u8> = message@;

    let block_count: usize = message.len() / 64;
    assert(64 * (block_count as int) == padded.len());
    assert(padded.len() <= usize::MAX);

    let mut blk: usize = 0;
    while blk < block_count
        invariant
            blk <= block_count,
            message@ == padded,
            64 * (block_count as int) == padded.len(),
            padded.len() <= usize::MAX,
            (h0, h1, h2, h3, h4) == state_after(padded, blk as int),
        decreases block_count - blk,
    {
        assert(64 * (blk as int) + 64 <= padded.len());
        let chunk_start: usize = blk * 64;
        let ghost block: Seq<u8> = block_at(padded, blk as int);

        let mut w: Vec<u32> = Vec::new();
        let mut i: usize = 0;
        while i < 16
            invariant
                i <= 16,
                w@.len() == i,
                message@ == padded,
                padded.len() <= usize::MAX,
                chunk_start == 64 * (blk as int),
                chunk_start + 64 <= padded.len(),
                block == block_at(padded, blk as int),
                block.len() == 64,
                forall|j: int| 0 <= j < i ==> w@[j] == schedule(block, j),
            decreases 16 - i,
        {
            let slice_start = chunk_start + i * 4;
            let int_slice = &message[slice_start..slice_start + 4];
            assert(int_slice@ =~= block.subrange(4 * i as int, 4 * i as int + 4));
            let word = u8s_to_u32(int_slice);
            w.push(word);
            i = i + 1;
        }

        while i < 80
            invariant
                16 <= i <= 80,
                w@.len() == i,
                block.len() == 64,
                forall|j: int| 0 <= j < i ==> w@[j] == schedule(block, j),
            decreases 80 - i,
        {
            let x = w[i - 3] ^ w[i - 8] ^ w[i - 14] ^ w[i - 16];
            w.push((x << 1u32) | (x >> 31u32));
            proof {
                let ii = i as int;
                assert(w@[ii] == rotl(x, 1));
                assert(schedule(block, ii) == rotl(
                    schedule(block, ii - 3) ^ schedule(block, ii - 8) ^ schedule(block, ii - 14)
                        ^ schedule(block, ii - 16),
                    1,
                ));
            }
            i = i + 1;
        }

        let mut a = h0;
        let mut b = h1;
        let mut c = h2;
        let mut d = h3;
        let mut e = h4;

        let mut r: usize = 0;
        while r < 80
            invariant
                r <= 80,
                w@.len() == 80,
                block.len() == 64,
                forall|j: int| 0 <= j < 80 ==> w@[j] == schedule(block, j),
                (a, b, c, d, e) == rounds(block, (h0, h1, h2, h3, h4), r as int),
            decreases 80 - r,
        {
            let f: u32;
            let k: u32;
            if r < 20 {
                f = (b & c) | ((!b) & d);
                k = 0x5A827999;
            } else if r < 40 {
                f = b ^ c ^ d;
                k = 0x6ED9EBA1;
            } else if r < 60 {
                f = (b & c) | (b & d) | (c & d);
                k = 0x8F1BBCDC;
            } else {
                f = b ^ c ^ d;
                k = 0xCA62C1D6;
            }

            let temp = ((a << 5u32) | (a >> 27u32)).wrapping_add(f).wrapping_add(e).wrapping_add(
                k,
            ).wrapping_add(w[r]);
            let ghost prev = (a, b, c, d, e);
            e = d;
            d = c;
            c = (b << 30u32) | (b >> 2u32);
            b = a;
            a = temp;
            assert((a, b, c, d, e) == round(block, r as int, prev));
            r = r + 1;
            assert((a, b, c, d, e) == rounds(block, (h0, h1, h2, h3, h4), r as int));
        }

        h0 = h0.wrapping_add(a);
        h1 = h1.wrapping_add(b);
        h2 = h2.wrapping_add(c);
        h3 = h3.wrapping_add(d);
        h4 = h4.wrapping_add(e);
        blk = blk + 1;
        assert((h0, h1, h2, h3, h4) == state_after(padded, blk as int));
    }

    let digest: [u32; 5] = [h0, h1, h2, h3, h4];
    assert(digest@ =~= seq![h0, h1, h2, h3, h4]);
    digest
}

} // verus!
