//! The peer-event consumer.
//!
//! One logical consumer reads an ordered stream of peer-lifecycle events and
//! drives the onion-messaging engine's peer-handling calls, one event at a
//! time: a connected event becomes a `peer_connected` call whose capability
//! vector advertises onion messaging exactly when the peer does, a
//! disconnected event becomes a fire-and-forget `peer_disconnected` call, an
//! explicit exhaustion event halts with the reason it carries, and a stream
//! that simply ends is a clean shutdown. The first engine failure halts the
//! consumer; nothing after it is processed.
//!
//! The engine itself is an outside collaborator reached through the
//! [`OnionMessageHandler`] trait. What the consumer decides is a function of
//! the events and of which connected calls the engine accepted; that function
//! is [`consume_spec`], and every outcome of the executable consumer is shown
//! to be an application of it.

use vstd::prelude::*;

use crate::features::ONION_MESSAGES_OPTIONAL;
use crate::signer::NodePublicKey;

verus! {

/// Why the consumer halted with an error: the engine rejected a connected
/// event, or the upstream event producer reported its own exhaustion.
#[derive(Debug, Clone, Copy, PartialEq, Eq, Structural)]
pub enum ConsumerError {
    OnionMessengerFailure,
    PeerProducerExit,
}

impl ConsumerError {
    /// A human-readable description of the halt reason.
    pub fn message(&self) -> (r: &'static str)
        ensures
            *self is OnionMessengerFailure ==> r@ == "consumer err: onion messenger failure"@,
            *self is PeerProducerExit ==> r@ == "consumer err: peer producer exit"@,
    {
        match self {
            ConsumerError::OnionMessengerFailure => "consumer err: onion messenger failure",
            ConsumerError::PeerProducerExit => "consumer err: peer producer exit",
        }
    }
}

/// The events that are relevant to onion messaging: a peer connected (with
/// whether it advertises onion-messaging support), a peer disconnected, or
/// the producer of these events is done for the reason carried.
#[derive(Debug, Clone, Copy)]
pub enum MessengerEvents {
    PeerConnected(NodePublicKey, bool),
    PeerDisconnected(NodePublicKey),
    ProducerExit(ConsumerError),
}

impl MessengerEvents {
    /// A human-readable description of the event kind.
    pub fn message(&self) -> (r: &'static str)
        ensures
            *self is PeerConnected ==> r@ == "messenger event: peer connected"@,
            *self is PeerDisconnected ==> r@ == "messenger event: peer disconnected"@,
            *self is ProducerExit ==> r@ == "messenger event: producer exited"@,
    {
        match self {
            MessengerEvents::PeerConnected(_, _) => "messenger event: peer connected",
            MessengerEvents::PeerDisconnected(_) => "messenger event: peer disconnected",
            MessengerEvents::ProducerExit(_) => "messenger event: producer exited",
        }
    }
}

/// The onion-messaging engine's peer-handling capability, as the consumer
/// needs it: a connected call that can fail, and a disconnected call with no
/// declared failure mode. The capability vector is the little-endian
/// feature-byte encoding. Implemented outside the library by the engine, and
/// by test doubles.
pub trait OnionMessageHandler {
    fn peer_connected(
        &mut self,
        their_node_id: &NodePublicKey,
        init_features: &Vec<u8>,
        inbound: bool,
    ) -> Result<(), ()>;

    fn peer_disconnected(&mut self, their_node_id: &NodePublicKey);
}

/// Whether a little-endian feature-byte string has `bit` set: bit `b` of a
/// feature set lives in byte `b / 8` at position `b % 8`, and a byte string
/// too short to reach that byte does not have the bit.
pub open spec fn feature_bit_set(bytes: Seq<u8>, bit: u32) -> bool {
    let idx = bit as int / 8;
    idx < bytes.len() && (bytes[idx] & (1u8 << ((bit % 8) as u8))) != 0
}

/// Whether a capability vector has `bit` set; see [`feature_bit_set`].
pub fn feature_bit_in_bytes(bytes: &Vec<u8>, bit: u32) -> (r: bool)
    ensures
        r == feature_bit_set(bytes@, bit),
{
    let idx = (bit / 8) as usize;
    if idx < bytes.len() {
        let mask: u8 = 1u8 << ((bit % 8) as u8);
        (bytes[idx] & mask) != 0
    } else {
        false
    }
}

/// Whether a capability vector advertises onion-messaging support.
pub fn features_support_onion_messages(features: &Vec<u8>) -> (r: bool)
    ensures
        r == feature_bit_set(features@, ONION_MESSAGES_OPTIONAL),
{
    feature_bit_in_bytes(features, ONION_MESSAGES_OPTIONAL)
}

/// The capability vector synthesized fresh for one connected event: it
/// advertises onion messaging exactly when the peer's support flag is set,
/// and advertises nothing else.
pub fn connected_init_features(onion_support: bool) -> (r: Vec<u8>)
    ensures
        onion_support ==> r@ == seq![0u8, 0u8, 0u8, 0u8, 0x80u8, 0u8, 0u8, 0u8],
        !onion_support ==> r@ == Seq::<u8>::empty(),
        feature_bit_set(r@, ONION_MESSAGES_OPTIONAL) == onion_support,
{
    if onion_support {
        let mut v: Vec<u8> = Vec::new();
        v.push(0);
        v.push(0);
        v.push(0);
        v.push(0);
        v.push(0x80);
        v.push(0);
        v.push(0);
        v.push(0);
        proof {
            assert(v@ =~= seq![0u8, 0u8, 0u8, 0u8, 0x80u8, 0u8, 0u8, 0u8]);
            assert((0x80u8 & (1u8 << 7u8)) != 0) by (bit_vector);
        }
        v
    } else {
        Vec::new()
    }
}

/// A sequence without its first element, or the empty sequence unchanged.
pub open spec fn seq_rest<A>(s: Seq<A>) -> Seq<A> {
    if s.len() == 0 {
        s
    } else {
        s.drop_first()
    }
}

/// The consumer's transition table as a function of the event stream and of
/// which connected calls the engine accepted (`accepted` is read in step
/// with `events`; entries at non-connected positions are ignored): events
/// are taken strictly in order, a rejected connected call halts with the
/// engine-failure kind, an exhaustion event halts with its carried reason,
/// and a drained stream is a clean, non-error halt.
pub open spec fn consume_spec(events: Seq<MessengerEvents>, accepted: Seq<bool>) -> Result<
    (),
    ConsumerError,
>
    decreases events.len(),
{
    if events.len() == 0 {
        Ok(())
    } else {
        match events[0] {
            MessengerEvents::PeerConnected(_, _) => {
                if accepted.len() > 0 && !accepted[0] {
                    Err(ConsumerError::OnionMessengerFailure)
                } else {
                    consume_spec(events.drop_first(), seq_rest(accepted))
                }
            },
            MessengerEvents::PeerDisconnected(_) => consume_spec(
                events.drop_first(),
                seq_rest(accepted),
            ),
            MessengerEvents::ProducerExit(reason) => Err(reason),
        }
    }
}

/// Process one event: synthesize the capability vector and call the engine
/// for a connected event (halting with the engine-failure kind if the engine
/// rejects it), notify the engine of a disconnected event (which never
/// halts), and halt with the carried reason for an exhaustion event.
pub fn consume_event<H: OnionMessageHandler>(
    onion_messenger: &mut H,
    event: &MessengerEvents,
) -> (r: Result<(), ConsumerError>)
    ensures
        event matches MessengerEvents::ProducerExit(reason) ==> r == Err::<(), ConsumerError>(
            *reason,
        ),
        event is PeerDisconnected ==> r == Ok::<(), ConsumerError>(()),
        event is PeerConnected ==> (r is Ok || r == Err::<(), ConsumerError>(
            ConsumerError::OnionMessengerFailure,
        )),
{
    match event {
        MessengerEvents::PeerConnected(pubkey, onion_support) => {
            let init_features = connected_init_features(*onion_support);
            match onion_messenger.peer_connected(pubkey, &init_features, false) {
                Ok(_) => Ok(()),
                Err(_) => Err(ConsumerError::OnionMessengerFailure),
            }
        },
        MessengerEvents::PeerDisconnected(pubkey) => {
            onion_messenger.peer_disconnected(pubkey);
            Ok(())
        },
        MessengerEvents::ProducerExit(reason) => Err(*reason),
    }
}

/// Consume a whole event stream, strictly in order, one event at a time:
/// processing of each event completes, including its failure path, before
/// the next is read, and the first halt ends the loop with nothing after it
/// processed. The result is always the transition table [`consume_spec`]
/// applied to the events and to some record of which connected calls the
/// engine accepted; an empty stream is a clean halt.
pub fn consume_messenger_events<H: OnionMessageHandler>(
    onion_messenger: &mut H,
    events: &Vec<MessengerEvents>,
) -> (r: Result<(), ConsumerError>)
    ensures
        exists|accepted: Seq<bool>|
            accepted.len() == events@.len() && r == #[trigger] consume_spec(events@, accepted),
        events@.len() == 0 ==> r == Ok::<(), ConsumerError>(()),
        r is Ok ==> forall|j: int|
            0 <= j < events@.len() ==> !((#[trigger] events@[j]) is ProducerExit),
{
    let mut i: usize = 0;
    let ghost mut accepted: Seq<bool> = Seq::empty();
    proof {
        assert forall|rest: Seq<bool>|
            #[trigger] consume_spec(events@.skip(0), rest) == consume_spec(
                events@,
                accepted + rest,
            ) by {
            assert(events@.skip(0) =~= events@);
            assert(accepted + rest =~= rest);
        }
    }
    while i < events.len()
        invariant
            i <= events@.len(),
            accepted.len() == i,
            forall|rest: Seq<bool>|
                #[trigger] consume_spec(events@.skip(i as int), rest) == consume_spec(
                    events@,
                    accepted + rest,
                ),
        decreases events@.len() - i,
    {
        let event = events[i];
        proof {
            assert(events@.skip(i as int).len() == events@.len() - i);
            assert(events@.skip(i as int)[0] == events@[i as int]);
            assert(events@.skip(i as int).drop_first() =~= events@.skip(i as int + 1));
        }
        match consume_event(onion_messenger, &event) {
            Ok(_) => {
                proof {
                    assert forall|rest: Seq<bool>|
                        #[trigger] consume_spec(events@.skip(i as int + 1), rest) == consume_spec(
                            events@,
                            (accepted + seq![true]) + rest,
                        ) by {
                        let ext = seq![true] + rest;
                        assert(consume_spec(events@.skip(i as int), ext) == consume_spec(
                            events@,
                            accepted + ext,
                        ));
                        assert(seq_rest(ext) =~= rest);
                        assert(ext[0]);
                        assert(consume_spec(events@.skip(i as int), ext) == consume_spec(
                            events@.skip(i as int + 1),
                            rest,
                        ));
                        assert((accepted + seq![true]) + rest =~= accepted + ext);
                    }
                    accepted = accepted + seq![true];
                }
            },
            Err(halt) => {
                proof {
                    let pad = Seq::new((events@.len() - i - 1) as nat, |j: int| true);
                    if events@[i as int] is PeerConnected {
                        let rest0 = seq![false] + pad;
                        assert(rest0[0] == false);
                        assert(consume_spec(events@.skip(i as int), rest0) == Err::<
                            (),
                            ConsumerError,
                        >(ConsumerError::OnionMessengerFailure));
                        assert(halt == ConsumerError::OnionMessengerFailure);
                        assert(consume_spec(events@, accepted + rest0) == Err::<
                            (),
                            ConsumerError,
                        >(halt));
                        assert((accepted + rest0).len() == events@.len());
                    } else {
                        let rest0 = seq![true] + pad;
                        assert(events@[i as int] is ProducerExit);
                        assert(halt == events@[i as int]->ProducerExit_0);
                        assert(consume_spec(events@.skip(i as int), rest0) == Err::<
                            (),
                            ConsumerError,
                        >(halt));
                        assert(consume_spec(events@, accepted + rest0) == Err::<
                            (),
                            ConsumerError,
                        >(halt));
                        assert((accepted + rest0).len() == events@.len());
                    }
                }
                return Err(halt);
            },
        }
        i += 1;
    }
    proof {
        let empty_rest = Seq::<bool>::empty();
        assert(consume_spec(events@.skip(i as int), empty_rest) == consume_spec(
            events@,
            accepted + empty_rest,
        ));
        assert(events@.skip(i as int).len() == 0);
        assert(accepted + empty_rest =~= accepted);
        assert(consume_spec(events@, accepted) == Ok::<(), ConsumerError>(()));
        lemma_ok_means_no_exit(events@, accepted);
    }
    Ok(())
}

/// Law: a run that drains cleanly saw no exhaustion event — the transition
/// table yields `Ok` only for a stream holding none.
pub proof fn lemma_ok_means_no_exit(events: Seq<MessengerEvents>, accepted: Seq<bool>)
    requires
        consume_spec(events, accepted) == Ok::<(), ConsumerError>(()),
    ensures
        forall|j: int| 0 <= j < events.len() ==> !((#[trigger] events[j]) is ProducerExit),
    decreases events.len(),
{
    if events.len() == 0 {
    } else {
        assert(!(events[0] is ProducerExit));
        lemma_ok_means_no_exit(events.drop_first(), seq_rest(accepted));
        assert forall|j: int| 0 <= j < events.len() implies !((#[trigger] events[j])
            is ProducerExit) by {
            if j > 0 {
                assert(events.drop_first()[j - 1] == events[j]);
            }
        }
    }
}

/// Law: the consumer halts on the first engine failure. When the engine
/// rejects the connected event at position `i` and no earlier event halted
/// the stream, the outcome is exactly the engine-failure kind — whatever
/// stands in the stream after position `i`.
pub proof fn lemma_engine_failure_halts(
    events: Seq<MessengerEvents>,
    accepted: Seq<bool>,
    i: int,
)
    requires
        0 <= i < events.len(),
        accepted.len() == events.len(),
        events[i] is PeerConnected,
        !accepted[i],
        forall|j: int| 0 <= j < i ==> !((#[trigger] events[j]) is ProducerExit),
        forall|j: int| 0 <= j < i ==> ((#[trigger] events[j]) is PeerConnected ==> accepted[j]),
    ensures
        consume_spec(events, accepted) == Err::<(), ConsumerError>(
            ConsumerError::OnionMessengerFailure,
        ),
    decreases i,
{
    if i == 0 {
    } else {
        assert(events[0] is PeerConnected ==> accepted[0]);
        assert(!(events[0] is ProducerExit));
        assert(seq_rest(accepted) =~= accepted.drop_first());
        lemma_engine_failure_halts(events.drop_first(), accepted.drop_first(), i - 1);
    }
}

/// Law: an explicit exhaustion event halts the consumer with exactly the
/// reason it carries. When the event at position `i` is the first exhaustion
/// event and no earlier connected call was rejected, the outcome is an error
/// holding that reason — whatever stands in the stream after position `i`.
pub proof fn lemma_exit_propagates_reason(
    events: Seq<MessengerEvents>,
    accepted: Seq<bool>,
    i: int,
    reason: ConsumerError,
)
    requires
        0 <= i < events.len(),
        accepted.len() == events.len(),
        events[i] == MessengerEvents::ProducerExit(reason),
        forall|j: int| 0 <= j < i ==> !((#[trigger] events[j]) is ProducerExit),
        forall|j: int| 0 <= j < i ==> ((#[trigger] events[j]) is PeerConnected ==> accepted[j]),
    ensures
        consume_spec(events, accepted) == Err::<(), ConsumerError>(reason),
    decreases i,
{
    if i == 0 {
    } else {
        assert(events[0] is PeerConnected ==> accepted[0]);
        assert(!(events[0] is ProducerExit));
        assert(seq_rest(accepted) =~= accepted.drop_first());
        lemma_exit_propagates_reason(events.drop_first(), accepted.drop_first(), i - 1, reason);
    }
}

/// Law: a stream that ends without an exhaustion event, and whose connected
/// events the engine all accepts, drains to a clean, non-error halt.
pub proof fn lemma_clean_exit(events: Seq<MessengerEvents>, accepted: Seq<bool>)
    requires
        accepted.len() == events.len(),
        forall|j: int| 0 <= j < events.len() ==> !((#[trigger] events[j]) is ProducerExit),
        forall|j: int|
            0 <= j < events.len() ==> ((#[trigger] events[j]) is PeerConnected ==> accepted[j]),
    ensures
        consume_spec(events, accepted) == Ok::<(), ConsumerError>(()),
    decreases events.len(),
{
    if events.len() == 0 {
    } else {
        assert(events[0] is PeerConnected ==> accepted[0]);
        assert(!(events[0] is ProducerExit));
        assert(seq_rest(accepted) =~= accepted.drop_first());
        lemma_clean_exit(events.drop_first(), accepted.drop_first());
    }
}

} // verus!
