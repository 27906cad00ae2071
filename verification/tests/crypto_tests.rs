use ed25519_dalek::Signer;
use runchain::cryptography::verify;

fn keypair() -> ed25519_dalek::SigningKey {
    let secret: [u8; 32] = [
        1, 2, 3, 4, 5, 6, 7, 8, 9, 10, 11, 12, 13, 14, 15, 16, 17, 18, 19, 20, 21, 22, 23, 24,
        25, 26, 27, 28, 29, 30, 31, 32,
    ];
    ed25519_dalek::SigningKey::from_bytes(&secret)
}

fn signed(message: &str) -> (Vec<u8>, Vec<u8>) {
    let key = keypair();
    let signature = key.sign(message.as_bytes()).to_bytes().to_vec();
    let public_key = key.verifying_key().to_bytes().to_vec();
    (public_key, signature)
}

#[test]
fn valid_signature_verifies() {
    let message = String::from("move one coin");
    let (public_key, signature) = signed(&message);
    assert!(verify(&public_key, &message, &signature));
}

#[test]
fn flipped_message_bit_fails() {
    let message = String::from("move one coin");
    let (public_key, signature) = signed(&message);
    let tampered = String::from("move two coin");
    assert!(!verify(&public_key, &tampered, &signature));
}

#[test]
fn flipped_signature_bit_fails() {
    let message = String::from("move one coin");
    let (public_key, mut signature) = signed(&message);
    signature[0] ^= 1;
    assert!(!verify(&public_key, &message, &signature));
}

#[test]
fn flipped_key_bit_fails() {
    let message = String::from("move one coin");
    let (mut public_key, signature) = signed(&message);
    public_key[5] ^= 0x40;
    assert!(!verify(&public_key, &message, &signature));
}

#[test]
fn malformed_lengths_fail_closed() {
    let message = String::from("move one coin");
    let (public_key, signature) = signed(&message);
    assert!(!verify(&public_key[..31].to_vec(), &message, &signature));
    assert!(!verify(&public_key, &message, &signature[..63].to_vec()));
    assert!(!verify(&vec![], &message, &vec![]));
}
