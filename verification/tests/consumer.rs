use lndk::consumer::{
    connected_init_features, consume_event, consume_messenger_events, feature_bit_in_bytes,
    features_support_onion_messages, ConsumerError, MessengerEvents, OnionMessageHandler,
};
use lndk::signer::NodePublicKey;

struct MockOnionHandler {
    connect_results: Vec<Result<(), ()>>,
    connected_features: Vec<Vec<u8>>,
    disconnected_count: usize,
}

impl MockOnionHandler {
    fn new(connect_results: Vec<Result<(), ()>>) -> Self {
        MockOnionHandler {
            connect_results,
            connected_features: Vec::new(),
            disconnected_count: 0,
        }
    }
}

impl OnionMessageHandler for MockOnionHandler {
    fn peer_connected(
        &mut self,
        _their_node_id: &NodePublicKey,
        init_features: &Vec<u8>,
        inbound: bool,
    ) -> Result<(), ()> {
        assert!(!inbound);
        self.connected_features.push(init_features.clone());
        self.connect_results.remove(0)
    }

    fn peer_disconnected(&mut self, _their_node_id: &NodePublicKey) {
        self.disconnected_count += 1;
    }
}

fn pubkey() -> NodePublicKey {
    let decoded =
        hex::decode("02eec7245d6b7d2ccb30380bfbe2a3648cd7a942653f5aa340edcea1f283686619")
            .unwrap();
    let mut bytes = [0u8; 33];
    bytes.copy_from_slice(&decoded);
    NodePublicKey { bytes }
}

#[test]
fn test_consume_messenger_events() {
    let pk = pubkey();
    let mut mock = MockOnionHandler::new(vec![Ok(()), Ok(())]);

    let events = vec![
        // Peer connected: onion messaging supported.
        MessengerEvents::PeerConnected(pk, true),
        // Peer connected: onion messaging not supported.
        MessengerEvents::PeerConnected(pk, false),
        // Cover peer disconnected events.
        MessengerEvents::PeerDisconnected(pk),
        // Finally, a producer exit event to test exit.
        MessengerEvents::ProducerExit(ConsumerError::PeerProducerExit),
    ];

    let consume_err =
        consume_messenger_events(&mut mock, &events).expect_err("consume should error");
    assert_eq!(consume_err, ConsumerError::PeerProducerExit);

    // The first connected call advertised onion messaging, the second did not.
    assert_eq!(mock.connected_features.len(), 2);
    assert!(features_support_onion_messages(&mock.connected_features[0]));
    assert!(!features_support_onion_messages(&mock.connected_features[1]));
    assert_eq!(mock.disconnected_count, 1);
}

#[test]
fn test_consumer_exit_onion_messenger_failure() {
    // A peer connected event whose handler call fails.
    let pk = pubkey();
    let mut mock = MockOnionHandler::new(vec![Err(())]);

    let events = vec![MessengerEvents::PeerConnected(pk, true)];

    let consume_err =
        consume_messenger_events(&mut mock, &events).expect_err("consume should error");
    assert_eq!(consume_err, ConsumerError::OnionMessengerFailure);
}

#[test]
fn test_consumer_clean_exit() {
    // A drained stream (the producer stopped without an exit event) is a
    // clean, non-error halt.
    let mut mock = MockOnionHandler::new(vec![]);
    let events: Vec<MessengerEvents> = vec![];
    assert!(consume_messenger_events(&mut mock, &events).is_ok());
}

#[test]
fn consumer_stops_at_first_engine_failure() {
    // Nothing after the failing connected event is processed: no
    // disconnected call reaches the engine, and the later exit event's
    // reason is not the one reported.
    let pk = pubkey();
    let mut mock = MockOnionHandler::new(vec![Err(())]);

    let events = vec![
        MessengerEvents::PeerConnected(pk, true),
        MessengerEvents::PeerDisconnected(pk),
        MessengerEvents::ProducerExit(ConsumerError::PeerProducerExit),
    ];

    let consume_err =
        consume_messenger_events(&mut mock, &events).expect_err("consume should error");
    assert_eq!(consume_err, ConsumerError::OnionMessengerFailure);
    assert_eq!(mock.connected_features.len(), 1);
    assert_eq!(mock.disconnected_count, 0);
}

#[test]
fn exit_event_propagates_its_exact_reason() {
    // An exhaustion event can carry either reason; the reported error is
    // exactly the carried one.
    let mut mock = MockOnionHandler::new(vec![]);
    let events = vec![MessengerEvents::ProducerExit(ConsumerError::OnionMessengerFailure)];
    let consume_err =
        consume_messenger_events(&mut mock, &events).expect_err("consume should error");
    assert_eq!(consume_err, ConsumerError::OnionMessengerFailure);
}

#[test]
fn consume_event_handles_each_kind() {
    let pk = pubkey();

    let mut mock = MockOnionHandler::new(vec![Ok(())]);
    assert!(consume_event(&mut mock, &MessengerEvents::PeerConnected(pk, true)).is_ok());

    let mut mock = MockOnionHandler::new(vec![]);
    assert!(consume_event(&mut mock, &MessengerEvents::PeerDisconnected(pk)).is_ok());
    assert_eq!(mock.disconnected_count, 1);

    let mut mock = MockOnionHandler::new(vec![]);
    assert_eq!(
        consume_event(&mut mock, &MessengerEvents::ProducerExit(ConsumerError::PeerProducerExit)),
        Err(ConsumerError::PeerProducerExit)
    );
}

#[test]
fn init_features_encode_the_onion_bit() {
    // Bit 39 sits in byte 4 (little-endian), position 7: exactly the bytes
    // of 1u64 << 39.
    let with_support = connected_init_features(true);
    assert_eq!(with_support, vec![0u8, 0, 0, 0, 0x80, 0, 0, 0]);
    assert_eq!(with_support, (1u64 << 39).to_le_bytes().to_vec());
    assert!(features_support_onion_messages(&with_support));

    let without_support = connected_init_features(false);
    assert_eq!(without_support, Vec::<u8>::new());
    assert!(!features_support_onion_messages(&without_support));
}

#[test]
fn feature_bit_lookup_handles_short_vectors() {
    assert!(!feature_bit_in_bytes(&vec![], 0));
    assert!(!feature_bit_in_bytes(&vec![0u8, 0, 0, 0], 39));
    assert!(feature_bit_in_bytes(&vec![1u8], 0));
    assert!(feature_bit_in_bytes(&vec![0u8, 0x02], 9));
    assert!(!feature_bit_in_bytes(&vec![0u8, 0x02], 8));
}

#[test]
fn consumer_messages_name_their_kind() {
    assert_eq!(
        ConsumerError::OnionMessengerFailure.message(),
        "consumer err: onion messenger failure"
    );
    assert_eq!(ConsumerError::PeerProducerExit.message(), "consumer err: peer producer exit");
    assert_eq!(
        MessengerEvents::PeerDisconnected(pubkey()).message(),
        "messenger event: peer disconnected"
    );
}
