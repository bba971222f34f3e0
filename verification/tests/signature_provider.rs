use oracle_attestor::signature_provider::{
    verify_signature, PrivateKeySignatureProvider, SignatureProvider,
};

#[test]
fn can_verify_signed_message() {
    let msg = b"Hello, world!";
    let signature_provider = PrivateKeySignatureProvider::random();
    let signature = signature_provider.sign(msg).unwrap();
    let public_key = signature_provider.get_public_key().unwrap();
    assert!(verify_signature(
        &public_key,
        &signature,
        &signature_provider.get_message_digest(msg)
    ));
}

#[test]
fn random_provider_has_usable_key() {
    // A freshly drawn key is nonzero (drawing the zero scalar has
    // vanishing probability), which is what guarantees signing succeeds.
    let signature_provider = PrivateKeySignatureProvider::random();
    assert!(signature_provider.has_nonzero_key());
    assert!(signature_provider.sign(b"any message").is_ok());
    assert!(signature_provider.get_public_key().is_ok());
}

#[test]
fn signing_is_deterministic() {
    let signature_provider = PrivateKeySignatureProvider::random();
    let first = signature_provider.sign(b"same bytes").unwrap();
    let second = signature_provider.sign(b"same bytes").unwrap();
    assert_eq!(first, second);
}

#[test]
fn digest_is_32_bytes_and_not_the_message() {
    let signature_provider = PrivateKeySignatureProvider::random();
    let msg = b"some message";
    let digest = signature_provider.get_message_digest(msg);
    assert_eq!(digest.len(), 32);
    assert_ne!(digest.as_slice(), msg.as_slice());
    // The digest depends on the message.
    let other = signature_provider.get_message_digest(b"another message");
    assert_ne!(digest, other);
}

#[test]
fn tampered_message_does_not_verify() {
    let signature_provider = PrivateKeySignatureProvider::random();
    let msg = b"the honest message";
    let signature = signature_provider.sign(msg).unwrap();
    let public_key = signature_provider.get_public_key().unwrap();
    let mut digest = signature_provider.get_message_digest(msg);
    digest[0] ^= 1;
    assert!(!verify_signature(&public_key, &signature, &digest));
}

#[test]
fn wrong_key_does_not_verify() {
    let signer = PrivateKeySignatureProvider::random();
    let other = PrivateKeySignatureProvider::random();
    let msg = b"a message";
    let signature = signer.sign(msg).unwrap();
    let other_key = other.get_public_key().unwrap();
    assert!(!verify_signature(
        &other_key,
        &signature,
        &signer.get_message_digest(msg)
    ));
}
