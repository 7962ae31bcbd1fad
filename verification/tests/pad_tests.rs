use sha1::pre_process_message;

#[test]
fn pad_is_deterministic() {
    let mut first: Vec<u8> = vec![7, 7, 7];
    let mut second: Vec<u8> = vec![7, 7, 7];
    pre_process_message(&mut first);
    pre_process_message(&mut second);
    assert_eq!(first, second);
}

#[test]
fn pad_empty_is_one_block() {
    let mut msg: Vec<u8> = Vec::new();
    pre_process_message(&mut msg);
    assert_eq!(msg.len(), 64);
}

#[test]
fn pad_56_bytes_is_two_blocks() {
    let mut msg: Vec<u8> = vec![9; 56];
    pre_process_message(&mut msg);
    assert_eq!(msg.len(), 128);
}

#[test]
fn pad_keeps_message_as_prefix() {
    let original: Vec<u8> = vec![10, 20, 30, 40, 50];
    let mut msg = original.clone();
    pre_process_message(&mut msg);
    assert_eq!(&msg[..5], &original[..]);
    assert_eq!(msg[5], 0x80);
    // Zero fill between the terminator and the 8-byte length field.
    assert!(msg[6..56].iter().all(|&b| b == 0));
}

#[test]
fn pad_records_bit_length_big_endian() {
    // 300 bytes is 2400 bits, 0x960: split across the last two bytes.
    let mut msg: Vec<u8> = vec![1; 300];
    pre_process_message(&mut msg);
    assert_eq!(msg.len() % 64, 0);
    let trailer = &msg[msg.len() - 8..];
    assert_eq!(trailer, &[0, 0, 0, 0, 0, 0, 0x09, 0x60]);
}

#[test]
fn pad_length_mod_64_and_minimum_growth() {
    for n in 0..130usize {
        let mut msg: Vec<u8> = vec![3; n];
        pre_process_message(&mut msg);
        assert_eq!(msg.len() % 64, 0);
        assert!(msg.len() >= n + 9);
    }
}
