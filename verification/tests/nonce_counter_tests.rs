use cerberus_store::nonce_counter::{NonceCounter, NonceError};

#[test]
fn can_increment_nonce_counter() {
    let mut nonce_counter = NonceCounter::default();

    assert_eq!(nonce_counter.get_value(), [0; 24]);

    nonce_counter
        .increment()
        .expect("haven't iterated enough times to exhaust the counter");
    assert_eq!(nonce_counter.get_value()[0], 0b00000001);
    assert_eq!(&nonce_counter.get_value()[1..], [0; 23]);
}

#[test]
fn can_exhaust_nonce_counter() {
    let mut nonce_counter = NonceCounter::default();

    for _ in 0..24 {
        for _ in 0..255 {
            nonce_counter
                .increment()
                .expect("haven't iterated enough times to exhaust the counter");
        }
    }

    let result = nonce_counter.increment();
    assert!(matches!(result, Err(NonceError::NonceExhausted)));
}

#[test]
fn exhausted_counter_is_not_mutated() {
    let mut counter = NonceCounter::new(&[0xff; 24]).unwrap();
    let result = counter.increment();
    assert!(matches!(result, Err(NonceError::NonceExhausted)));
    assert_eq!(counter.get_value(), [0xff; 24]);
}

#[test]
fn counter_needs_exactly_24_bytes() {
    assert!(matches!(
        NonceCounter::new(&[0u8; 12]),
        Err(NonceError::IncorrectNonceLength)
    ));
    assert!(matches!(
        NonceCounter::new(&[0u8; 25]),
        Err(NonceError::IncorrectNonceLength)
    ));
    let counter = NonceCounter::new(&[7u8; 24]).unwrap();
    assert_eq!(counter.get_value(), [7u8; 24]);
}

#[test]
fn increment_carries_over_saturated_bytes() {
    let mut bytes = [0u8; 24];
    bytes[0] = 0xff;
    bytes[1] = 0xff;
    let mut counter = NonceCounter::new(&bytes).unwrap();
    counter.increment().unwrap();
    let value = counter.get_value();
    assert_eq!(value[0], 0xff);
    assert_eq!(value[1], 0xff);
    assert_eq!(value[2], 1);
    assert_eq!(&value[3..], [0; 21]);
}
