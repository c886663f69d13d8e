use lndk::signer::{
    dispatch_key, parse_shared_secret, LndNodeSigner, NodePublicKey, Recipient, SharedKeyDeriver,
    SignerError, TweakScalar,
};
use lndk::status::Status;

struct MockDeriver {
    answers: Vec<Result<Vec<u8>, Status>>,
    calls: usize,
    seen: Vec<Vec<u8>>,
}

impl MockDeriver {
    fn new(answers: Vec<Result<Vec<u8>, Status>>) -> Self {
        MockDeriver { answers, calls: 0, seen: Vec::new() }
    }
}

impl SharedKeyDeriver for MockDeriver {
    fn derive_shared_key(&mut self, ephemeral_pubkey: &Vec<u8>) -> Result<Vec<u8>, Status> {
        self.calls += 1;
        self.seen.push(ephemeral_pubkey.clone());
        self.answers.remove(0)
    }
}

fn pubkey() -> NodePublicKey {
    let decoded =
        hex::decode("02eec7245d6b7d2ccb30380bfbe2a3648cd7a942653f5aa340edcea1f283686619")
            .unwrap();
    let mut bytes = [0u8; 33];
    bytes.copy_from_slice(&decoded);
    NodePublicKey { bytes }
}

fn other_key() -> NodePublicKey {
    let decoded =
        hex::decode("0279be667ef9dcbbac55a06295ce870b07029bfcdb2dce28d959f2815b16f81798")
            .unwrap();
    let mut bytes = [0u8; 33];
    bytes.copy_from_slice(&decoded);
    NodePublicKey { bytes }
}

fn scalar(last_byte: u8) -> TweakScalar {
    let mut bytes = [0u8; 32];
    bytes[31] = last_byte;
    TweakScalar { bytes }
}

#[test]
fn identity_is_recipient_scoped_and_idempotent() {
    let deriver = MockDeriver::new(vec![]);
    let signer = LndNodeSigner::new(pubkey(), deriver);

    let first = signer.get_node_id(Recipient::Node).expect("node id");
    let second = signer.get_node_id(Recipient::Node).expect("node id");
    assert_eq!(first.bytes, pubkey().bytes);
    assert_eq!(second.bytes, pubkey().bytes);

    // The unsupported recipient kind fails every time, whatever the call
    // count or order, and no remote call is ever made.
    assert!(matches!(
        signer.get_node_id(Recipient::PhantomNode),
        Err(SignerError::UnsupportedRecipient)
    ));
    assert!(matches!(
        signer.get_node_id(Recipient::PhantomNode),
        Err(SignerError::UnsupportedRecipient)
    ));
    assert_eq!(signer.signer.calls, 0);
}

#[test]
fn ecdh_rejects_unsupported_recipient_without_dispatch() {
    let deriver = MockDeriver::new(vec![]);
    let mut signer = LndNodeSigner::new(pubkey(), deriver);

    let result = signer.ecdh(Recipient::PhantomNode, &other_key(), None);
    assert!(matches!(result, Err(SignerError::UnsupportedRecipient)));
    assert_eq!(signer.signer.calls, 0);
}

#[test]
fn ecdh_without_tweak_dispatches_counterparty_key() {
    let deriver = MockDeriver::new(vec![Ok(vec![7u8; 32])]);
    let mut signer = LndNodeSigner::new(pubkey(), deriver);

    let secret = signer.ecdh(Recipient::Node, &other_key(), None).expect("secret");
    assert_eq!(secret.bytes, [7u8; 32]);
    assert_eq!(signer.signer.calls, 1);
    // The bytes handed to the remote signer are the counterparty key itself,
    // untouched — never the local identity.
    assert_eq!(signer.signer.seen[0], other_key().bytes.to_vec());
}

#[test]
fn ecdh_applies_tweak_to_counterparty_key_before_dispatch() {
    let deriver = MockDeriver::new(vec![Ok(vec![9u8; 32])]);
    let mut signer = LndNodeSigner::new(pubkey(), deriver);

    let tweak = scalar(2);
    let secret = signer.ecdh(Recipient::Node, &other_key(), Some(&tweak)).expect("secret");
    assert_eq!(secret.bytes, [9u8; 32]);
    assert_eq!(signer.signer.calls, 1);

    // The dispatched key is the counterparty key multiplied by the scalar —
    // computed here independently — and differs from the untweaked key.
    let secp = bitcoin::secp256k1::Secp256k1::new();
    let parsed = bitcoin::secp256k1::PublicKey::from_slice(&other_key().bytes).unwrap();
    let expected = parsed
        .mul_tweak(&secp, &bitcoin::secp256k1::Scalar::from_be_bytes(tweak.bytes).unwrap())
        .unwrap();
    assert_eq!(signer.signer.seen[0], expected.serialize().to_vec());
    assert_ne!(signer.signer.seen[0], other_key().bytes.to_vec());
}

#[test]
fn ecdh_invalid_tweak_fails_without_dispatch() {
    // All-ones is above the curve order: no usable scalar.
    let deriver = MockDeriver::new(vec![]);
    let mut signer = LndNodeSigner::new(pubkey(), deriver);
    let tweak = TweakScalar { bytes: [0xff; 32] };

    let result = signer.ecdh(Recipient::Node, &other_key(), Some(&tweak));
    assert!(matches!(result, Err(SignerError::TweakFailure)));
    assert_eq!(signer.signer.calls, 0);

    // The zero scalar parses but multiplies to the point at infinity, which
    // the curve rejects: still a local failure, still no dispatch.
    let result = signer.ecdh(Recipient::Node, &other_key(), Some(&scalar(0)));
    assert!(matches!(result, Err(SignerError::TweakFailure)));
    assert_eq!(signer.signer.calls, 0);
}

#[test]
fn ecdh_remote_failure_is_opaque_and_distinct() {
    let deriver = MockDeriver::new(vec![Err(Status::new(14, String::from("unreachable")))]);
    let mut signer = LndNodeSigner::new(pubkey(), deriver);

    let result = signer.ecdh(Recipient::Node, &other_key(), None);
    assert!(matches!(result, Err(SignerError::RemoteCallFailure(s)) if s.code == 14));
    assert_eq!(signer.signer.calls, 1);
}

#[test]
fn ecdh_malformed_secret_is_its_own_failure() {
    let deriver = MockDeriver::new(vec![Ok(vec![1u8; 31])]);
    let mut signer = LndNodeSigner::new(pubkey(), deriver);

    let result = signer.ecdh(Recipient::Node, &other_key(), None);
    assert!(matches!(result, Err(SignerError::MalformedSecret)));
    assert_eq!(signer.signer.calls, 1);
}

#[test]
fn dispatch_key_passes_untweaked_key_through() {
    let key = other_key();
    let dispatched = dispatch_key(&key, None).expect("dispatch");
    assert_eq!(dispatched, key.bytes.to_vec());
}

#[test]
fn parse_shared_secret_accepts_exactly_32_bytes() {
    let secret = parse_shared_secret(&vec![3u8; 32]).expect("secret");
    assert_eq!(secret.bytes, [3u8; 32]);
    assert!(matches!(parse_shared_secret(&vec![3u8; 31]), Err(SignerError::MalformedSecret)));
    assert!(matches!(parse_shared_secret(&vec![3u8; 33]), Err(SignerError::MalformedSecret)));
    assert!(matches!(parse_shared_secret(&vec![]), Err(SignerError::MalformedSecret)));
}

#[test]
fn signer_messages_name_their_kind() {
    assert_eq!(
        SignerError::UnsupportedRecipient.message(),
        "signer err: unsupported recipient"
    );
    assert_eq!(
        SignerError::MalformedSecret.message(),
        "signer err: remote answer is no 32-byte secret"
    );
}
