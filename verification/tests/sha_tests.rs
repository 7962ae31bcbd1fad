use sha1::compute_sha;
use sha1::format_digest;
use sha1::pre_process_message;
use sha1::u8s_to_u32;

#[test]
fn known_sha() {
    let mut string = "The quick brown fox jumps over the lazy dog".as_bytes().to_vec();
    let expected = [0x2fd4e1c6, 0x7a2d28fc, 0xed849ee1, 0xbb76e739, 0x1b93eb12];

    let sha = compute_sha(&mut string);
    assert_eq!(expected, sha);
}

#[test]
fn blank_sha() {
    let sha = compute_sha(&mut [].to_vec());
    let h0 = 0xda39a3ee;
    let h1 = 0x5e6b4b0d;
    let h2 = 0x3255bfef;
    let h3 = 0x95601890;
    let h4 = 0xafd80709;

    let expected = [h0, h1, h2, h3, h4];

    assert_eq!(expected, sha);
}

#[test]
fn pre_process_length_min_512_bits() {
    let mut msg: Vec<u8> = vec![4];
    pre_process_message(&mut msg);
    assert_eq!(msg.len(), 64);
}

#[test]
fn pre_process_exactly_512_bits() {
    let mut msg: Vec<u8> = vec![1; 55];
    pre_process_message(&mut msg);
    assert_eq!(msg.len(), 64);
}

#[test]
fn pre_process_multiple_512_bits() {
    let mut msg: Vec<u8> = vec![1; 64];
    pre_process_message(&mut msg);
    assert_eq!(msg.len(), 128);
}

#[test]
fn pre_process_msg_len_appended() {
    let mut msg: Vec<u8> = vec![1; 4];
    pre_process_message(&mut msg);

    // Last 64 bits should be input message length
    assert_eq!(Some(&32), msg.last());
}

#[test]
fn known_sha_abc() {
    let mut msg = "abc".as_bytes().to_vec();
    let expected = [0xa9993e36, 0x4706816a, 0xba3e2571, 0x7850c26c, 0x9cd0d89d];
    assert_eq!(expected, compute_sha(&mut msg));
}

#[test]
fn known_sha_two_blocks() {
    // 56 bytes: the terminator no longer fits, so this pads to two blocks.
    let mut msg = "abcdbcdecdefdefgefghfghighijhijkijkljklmklmnlmnomnopnopq".as_bytes().to_vec();
    assert_eq!(msg.len(), 56);
    let expected = [0x84983e44, 0x1c3bd26e, 0xbaae4aa1, 0xf95129e5, 0xe54670f1];
    assert_eq!(expected, compute_sha(&mut msg));
}

#[test]
fn digest_is_deterministic() {
    let mut first = "determinism".as_bytes().to_vec();
    let mut second = "determinism".as_bytes().to_vec();
    assert_eq!(compute_sha(&mut first), compute_sha(&mut second));
}

#[test]
fn avalanche_one_bit_flip() {
    // 0x61 and 0x60 differ in exactly one bit; the digests must differ.
    let mut plain = vec![0x61u8];
    let mut flipped = vec![0x60u8];
    assert_ne!(compute_sha(&mut plain), compute_sha(&mut flipped));
}

#[test]
fn hex_of_blank_digest() {
    let digest = compute_sha(&mut Vec::new());
    assert_eq!(format_digest(&digest), "da39a3ee5e6b4b0d3255bfef95601890afd80709");
}

#[test]
fn hex_of_known_digest() {
    let mut msg = "The quick brown fox jumps over the lazy dog".as_bytes().to_vec();
    let digest = compute_sha(&mut msg);
    assert_eq!(format_digest(&digest), "2fd4e1c67a2d28fced849ee1bb76e7391b93eb12");
}

#[test]
fn hex_zero_pads_every_word() {
    let words = [0x0u32, 0x1, 0x89abcdef, 0xffffffff, 0xa0];
    assert_eq!(format_digest(&words), "000000000000000189abcdefffffffff000000a0");
}

#[test]
fn word_from_big_endian_bytes() {
    let bytes = [0x12u8, 0x34, 0x56, 0x78];
    assert_eq!(u8s_to_u32(&bytes), 0x12345678);
}
