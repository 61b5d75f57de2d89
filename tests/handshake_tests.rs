use smarthome::error::ConnectionError;
use smarthome::handshake::{handshake_mask, mask, server_reply, ClientHandshake};

fn nonce() -> [u8; 32] {
    let mut n = [0u8; 32];
    for (i, b) in n.iter_mut().enumerate() {
        *b = (i as u8).wrapping_mul(37).wrapping_add(11);
    }
    n
}

#[test]
fn mask_repeats_the_key() {
    let data = [0xFFu8; 32];
    let r = mask(data, &[0x0F, 0xF0]);
    for i in 0..32 {
        assert_eq!(r[i], if i % 2 == 0 { 0xF0 } else { 0x0F });
    }
}

#[test]
fn mask_with_empty_key_gives_zeros() {
    assert_eq!(mask([7u8; 32], &[]), [0u8; 32]);
}

#[test]
fn mask_twice_is_identity() {
    let n = nonce();
    let k = handshake_mask();
    assert_eq!(mask(mask(n, &k), &k), n);
    assert_ne!(mask(n, &k), n);
}

#[test]
fn handshake_succeeds_with_agreed_mask() {
    let client = ClientHandshake::with_nonce(nonce());
    let answer = server_reply(client.nonce());
    assert!(client.finish(answer).is_ok());
}

#[test]
fn handshake_fails_with_other_mask() {
    let client = ClientHandshake::with_nonce(nonce());
    let answer = mask(client.nonce(), &[1, 2, 3]);
    assert!(matches!(client.finish(answer), Err(ConnectionError::BadHandshake)));
}

#[test]
fn handshake_fails_on_echo() {
    let client = ClientHandshake::with_nonce(nonce());
    assert!(matches!(client.finish(client.nonce()), Err(ConnectionError::BadHandshake)));
}

#[test]
fn random_handshakes_succeed() {
    let a = ClientHandshake::start();
    let b = ClientHandshake::start();
    assert_ne!(a.nonce(), b.nonce());
    assert!(a.finish(server_reply(a.nonce())).is_ok());
}
