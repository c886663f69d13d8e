//! The signing delegate.
//!
//! A messaging engine needs two things from the holder of this node's
//! private keys: the node's identity and Diffie-Hellman shared secrets. The
//! keys live in a remote signing service, so [`LndNodeSigner`] answers both
//! by forwarding to that service over the [`SharedKeyDeriver`] channel —
//! never holding raw key material itself.
//!
//! When a shared-secret request carries a scalar tweak, the tweak is applied
//! to the counterparty's public key before dispatch — never to the local
//! identity, because the remote service's interface only accepts a tweak
//! applied on the other side. A tweak that names no usable scalar or point
//! fails locally, before any remote call is made.

use vstd::prelude::*;
use vstd::slice::slice_to_vec;

use crate::status::Status;

verus! {

/// A public key as the library carries it: 33 bytes of the compressed
/// encoding, plain values the contracts can speak about.
#[derive(Debug, Clone, Copy)]
pub struct NodePublicKey {
    pub bytes: [u8; 33],
}

/// A scalar tweak: 32 big-endian bytes.
#[derive(Debug, Clone, Copy)]
pub struct TweakScalar {
    pub bytes: [u8; 32],
}

/// A derived shared secret: exactly 32 bytes, never a partial result.
#[derive(Debug, Clone, Copy)]
pub struct SharedSecret {
    pub bytes: [u8; 32],
}

/// The key holder a signing request is scoped to. Only the primary node
/// identity is supported by this bridge; a phantom (alias) identity fails
/// deterministically.
#[derive(Debug, Clone, Copy, PartialEq, Eq, Structural)]
pub enum Recipient {
    Node,
    PhantomNode,
}

/// Why a signing request failed. A malformed remote answer is distinct from
/// a transport failure, and a local tweak failure is distinct from both.
#[derive(Debug)]
pub enum SignerError {
    UnsupportedRecipient,
    TweakFailure,
    RemoteCallFailure(Status),
    MalformedSecret,
}

impl SignerError {
    /// A human-readable description of the failure kind.
    pub fn message(&self) -> (r: &'static str)
        ensures
            *self is UnsupportedRecipient ==> r@ == "signer err: unsupported recipient"@,
            *self is TweakFailure ==> r@ == "signer err: tweak could not be applied"@,
            *self is RemoteCallFailure ==> r@ == "signer err: remote derivation call failed"@,
            *self is MalformedSecret ==> r@ == "signer err: remote answer is no 32-byte secret"@,
    {
        match self {
            SignerError::UnsupportedRecipient => "signer err: unsupported recipient",
            SignerError::TweakFailure => "signer err: tweak could not be applied",
            SignerError::RemoteCallFailure(_) => "signer err: remote derivation call failed",
            SignerError::MalformedSecret => "signer err: remote answer is no 32-byte secret",
        }
    }
}

/// The remote signing authority as the library sees it: an
/// already-authenticated channel that answers one ECDH request with the raw
/// secret bytes, or with the transport's failure status. The channel handle
/// is mutably borrowed for the duration of each call, so calls through one
/// instance are naturally serialized. Implemented outside the library over
/// the node's RPC connection, and by test doubles.
pub trait SharedKeyDeriver {
    fn derive_shared_key(&mut self, ephemeral_pubkey: &Vec<u8>) -> Result<Vec<u8>, Status>;
}

/// The compressed public key the curve yields when the point named by `key`
/// is multiplied by the scalar named by `tweak`, or `None` when the bytes
/// name no valid point, no scalar below the curve order, or a product that
/// cannot be encoded. A function of the two byte strings alone.
pub uninterp spec fn tweaked_pubkey(key: Seq<u8>, tweak: Seq<u8>) -> Option<Seq<u8>>;

/// Relies on secp256k1 (as re-exported by the bitcoin crate):
/// `PublicKey::from_slice`, `Scalar::from_be_bytes`, `PublicKey::mul_tweak`
/// and `PublicKey::serialize`. Point multiplication is a function of the key
/// and scalar bytes alone; it fails exactly when one of the three steps
/// rejects its input, and `serialize` always yields the 33-byte compressed
/// encoding.
#[verifier::external_body]
fn tweak_mul(key: &NodePublicKey, tweak: &TweakScalar) -> (r: Option<NodePublicKey>)
    ensures
        r is Some <==> tweaked_pubkey(key.bytes@, tweak.bytes@) is Some,
        r matches Some(k) ==> k.bytes@ == tweaked_pubkey(key.bytes@, tweak.bytes@)->Some_0,
{
    let parsed = match bitcoin::secp256k1::PublicKey::from_slice(&key.bytes) {
        Ok(p) => p,
        Err(_) => return None,
    };
    let scalar = match bitcoin::secp256k1::Scalar::from_be_bytes(tweak.bytes) {
        Ok(s) => s,
        Err(_) => return None,
    };
    let secp = bitcoin::secp256k1::Secp256k1::verification_only();
    match parsed.mul_tweak(&secp, &scalar) {
        Ok(product) => Some(NodePublicKey { bytes: product.serialize() }),
        Err(_) => None,
    }
}

/// The exact bytes handed to the remote signer for one shared-secret
/// request: the counterparty key itself, or, when a tweak is supplied, the
/// counterparty key multiplied by the tweak scalar. The local identity never
/// enters this computation. A tweak that cannot be applied fails here,
/// before anything is dispatched.
pub fn dispatch_key(other_key: &NodePublicKey, tweak: Option<&TweakScalar>) -> (r: Result<
    Vec<u8>,
    SignerError,
>)
    ensures
        tweak is None ==> (r matches Ok(k) && k@ == other_key.bytes@),
        tweak matches Some(t) ==> (tweaked_pubkey(other_key.bytes@, t.bytes@) matches Some(product)
            ==> (r matches Ok(k) && k@ == product)),
        tweak matches Some(t) ==> (tweaked_pubkey(other_key.bytes@, t.bytes@) is None ==> r
            == Err::<Vec<u8>, SignerError>(SignerError::TweakFailure)),
{
    match tweak {
        None => Ok(slice_to_vec(other_key.bytes.as_slice())),
        Some(t) => match tweak_mul(other_key, t) {
            Some(k) => Ok(slice_to_vec(k.bytes.as_slice())),
            None => Err(SignerError::TweakFailure),
        },
    }
}

/// Parse the remote signer's answer: exactly 32 bytes are a shared secret.
/// A malformed length is its own failure kind, distinct from a transport
/// failure.
pub fn parse_shared_secret(bytes: &Vec<u8>) -> (r: Result<SharedSecret, SignerError>)
    ensures
        bytes@.len() == 32 ==> (r matches Ok(s) && s.bytes@ == bytes@),
        bytes@.len() != 32 ==> r == Err::<SharedSecret, SignerError>(SignerError::MalformedSecret),
{
    if bytes.len() == 32 {
        let mut out: [u8; 32] = [0; 32];
        let mut i: usize = 0;
        while i < 32
            invariant
                i <= 32,
                bytes@.len() == 32,
                forall|j: int| 0 <= j < i ==> out@[j] == bytes@[j],
            decreases 32 - i,
        {
            out[i] = bytes[i];
            i += 1;
        }
        assert(out@ =~= bytes@);
        Ok(SharedSecret { bytes: out })
    } else {
        Err(SignerError::MalformedSecret)
    }
}

/// The signing delegate: answers identity and shared-secret requests for
/// this node by forwarding to the remote signing authority. The identity is
/// immutable for the process lifetime; the channel handle is owned here and
/// mutably borrowed per call.
pub struct LndNodeSigner<S: SharedKeyDeriver> {
    pub pubkey: NodePublicKey,
    pub signer: S,
}

impl<S: SharedKeyDeriver> LndNodeSigner<S> {
    /// Build a delegate for the node identified by `pubkey`, forwarding
    /// derivation requests to `signer`.
    pub fn new(pubkey: NodePublicKey, signer: S) -> (r: Self)
        ensures
            r.pubkey == pubkey,
    {
        LndNodeSigner { pubkey, signer }
    }

    /// Identity lookup, recipient-scoped: the primary node recipient always
    /// yields this node's key, any other kind always fails, with no remote
    /// call either way. The result is a function of the delegate's identity
    /// and the recipient alone, so repeated calls agree.
    pub fn get_node_id(&self, recipient: Recipient) -> (r: Result<NodePublicKey, SignerError>)
        ensures
            recipient is Node ==> r == Ok::<NodePublicKey, SignerError>(self.pubkey),
            recipient is PhantomNode ==> r == Err::<NodePublicKey, SignerError>(
                SignerError::UnsupportedRecipient,
            ),
    {
        match recipient {
            Recipient::Node => Ok(self.pubkey),
            Recipient::PhantomNode => Err(SignerError::UnsupportedRecipient),
        }
    }

    /// Derive the ECDH shared secret of this node's key and `other_key`,
    /// multiplying `other_key` by `tweak` first when one is supplied. Every
    /// invocation that passes the local checks performs exactly one outbound
    /// derivation call and parses its answer; nothing is cached or retried.
    /// An unsupported recipient or a failing tweak is rejected locally, with
    /// no remote call; past those checks only the remote call or a malformed
    /// answer can fail.
    pub fn ecdh(
        &mut self,
        recipient: Recipient,
        other_key: &NodePublicKey,
        tweak: Option<&TweakScalar>,
    ) -> (r: Result<SharedSecret, SignerError>)
        ensures
            recipient is PhantomNode ==> r == Err::<SharedSecret, SignerError>(
                SignerError::UnsupportedRecipient,
            ),
            recipient is Node ==> (tweak matches Some(t) ==> (tweaked_pubkey(
                other_key.bytes@,
                t.bytes@,
            ) is None ==> r == Err::<SharedSecret, SignerError>(SignerError::TweakFailure))),
            r is Ok ==> recipient is Node,
            tweak matches Some(t) ==> (r is Ok ==> tweaked_pubkey(
                other_key.bytes@,
                t.bytes@,
            ) is Some),
            recipient is Node ==> ((tweak is None || (tweak matches Some(t) && tweaked_pubkey(
                other_key.bytes@,
                t.bytes@,
            ) is Some)) ==> (r matches Err(e) ==> (e is RemoteCallFailure || e is MalformedSecret))),
    {
        match recipient {
            Recipient::Node => {},
            Recipient::PhantomNode => {
                return Err(SignerError::UnsupportedRecipient);
            },
        }
        let ephemeral = match dispatch_key(other_key, tweak) {
            Ok(k) => k,
            Err(e) => {
                return Err(e);
            },
        };
        let answer = match self.signer.derive_shared_key(&ephemeral) {
            Ok(b) => b,
            Err(status) => {
                return Err(SignerError::RemoteCallFailure(status));
            },
        };
        parse_shared_secret(&answer)
    }
}

} // verus!
