use cerberus_store::primitive::NonceCounter;

#[test]
fn increment_nonce_counter() {
    let mut nonce = NonceCounter::default();
    assert_eq!(nonce.as_bytes(), [0, 0, 0, 0, 0, 0, 0, 0, 0, 0, 0, 0]);
    nonce.advance();
    assert_eq!(nonce.as_bytes(), [0, 0, 0, 0, 0, 0, 0, 0, 0, 0, 0, 1]);
}

#[test]
fn as_bytes_is_big_endian() {
    let nonce = NonceCounter::with_initial(0x0102_0304);
    assert_eq!(nonce.as_bytes(), [0, 0, 0, 0, 0, 0, 0, 0, 1, 2, 3, 4]);
}

#[test]
fn advance_starts_from_initial_value() {
    let mut nonce = NonceCounter::with_initial(255);
    nonce.advance();
    assert_eq!(nonce.as_bytes(), [0, 0, 0, 0, 0, 0, 0, 0, 0, 0, 1, 0]);
}
