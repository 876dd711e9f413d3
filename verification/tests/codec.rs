use dial_back::codec::{encode_nonce, read_nonce, MESSAGE_LEN, NONCE_LEN};

#[test]
fn encode_has_length_byte_then_big_endian_payload() {
    let bytes = encode_nonce(42);
    assert_eq!(bytes.len(), MESSAGE_LEN);
    assert_eq!(bytes, vec![8, 0, 0, 0, 0, 0, 0, 0, 42]);
}

#[test]
fn encode_exact_bytes_of_large_nonce() {
    let bytes = encode_nonce(0x0102_0304_0506_0708);
    assert_eq!(bytes, vec![8, 1, 2, 3, 4, 5, 6, 7, 8]);
    let bytes = encode_nonce(u64::MAX);
    assert_eq!(bytes, vec![8, 255, 255, 255, 255, 255, 255, 255, 255]);
}

#[test]
fn read_nonce_undoes_encode_nonce() {
    for n in [0u64, 1, 42, 300, u64::MAX, 0xdead_beef_cafe_f00d] {
        let bytes = encode_nonce(n);
        assert_eq!(read_nonce(&bytes), n);
    }
}

#[test]
fn length_byte_matches_payload_size() {
    assert_eq!(NONCE_LEN as usize + 1, MESSAGE_LEN);
    assert_eq!(encode_nonce(7)[0], NONCE_LEN);
}
