use relay_hub::ingest::begin_ingest;
use relay_hub::ingest::end_ingest;
use relay_hub::ingest::forward_packet;
use relay_hub::ingest::IngestReject;
use relay_hub::state::State;

#[test]
fn handshake_without_stream_id_is_rejected_and_registry_untouched() {
    let mut state = State::new();
    let r = begin_ingest(&mut state, None);
    assert!(matches!(r, Err(IngestReject::Unauthorized)));
    assert!(state.get_stream_ids().is_empty());
}

#[test]
fn second_publisher_for_same_id_is_rejected_first_unaffected() {
    let mut state = State::new();
    let first = begin_ingest(&mut state, Some("cam1".to_owned())).unwrap();
    let second = begin_ingest(&mut state, Some("cam1".to_owned()));
    assert!(matches!(second, Err(IngestReject::Unauthorized)));
    // The first publisher's stream is still live and still serves packets.
    assert!(state.contains_stream("cam1"));
    assert!(state.get_stream_sender("cam1").is_some());
    end_ingest(&mut state, first);
}

#[test]
fn session_end_deregisters_exactly_its_stream() {
    let mut state = State::new();
    state.add_stream("other".to_owned()).unwrap();
    let session = begin_ingest(&mut state, Some("cam1".to_owned())).unwrap();
    assert_eq!(session.stream_id().as_str(), "cam1");
    end_ingest(&mut state, session);
    assert!(!state.contains_stream("cam1"));
    assert!(state.contains_stream("other"));
    // The identifier is free for a later publisher.
    assert!(begin_ingest(&mut state, Some("cam1".to_owned())).is_ok());
}

#[test]
fn forwarded_packets_reach_a_subscriber_in_order() {
    let mut state = State::new();
    let session = begin_ingest(&mut state, Some("cam1".to_owned())).unwrap();
    let sender = state.get_stream_sender("cam1").unwrap();

    // No subscriber yet: the send reports that and is harmless.
    assert!(!forward_packet(&sender, bytes::Bytes::from_static(b"p1")));

    let mut receiver = state.get_stream_receiver("cam1").unwrap();
    assert!(forward_packet(&sender, bytes::Bytes::from_static(b"p2")));
    assert!(forward_packet(&sender, bytes::Bytes::from_static(b"p3")));
    assert_eq!(receiver.try_recv().unwrap(), bytes::Bytes::from_static(b"p2"));
    assert_eq!(receiver.try_recv().unwrap(), bytes::Bytes::from_static(b"p3"));

    // Publisher leaves: once every send handle is gone the subscriber's
    // channel reports closed.
    end_ingest(&mut state, session);
    drop(sender);
    assert!(matches!(
        receiver.try_recv(),
        Err(tokio::sync::broadcast::error::TryRecvError::Closed)
    ));
}
