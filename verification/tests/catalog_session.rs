use std::collections::BTreeSet;

use relay_hub::catalog::catalog_step;
use relay_hub::catalog::catalog_text;
use relay_hub::catalog::registry_snapshot_text;
use relay_hub::catalog::CatalogAction;
use relay_hub::session::SessionEvent;
use relay_hub::state::State;

type Payload = Vec<u8>;
type Event = SessionEvent<Payload, Vec<String>>;

fn decode(text: &str) -> BTreeSet<String> {
    let ids: Vec<String> = serde_json::from_str(text).unwrap();
    ids.into_iter().collect()
}

#[test]
fn catalog_text_is_a_json_array_of_the_ids() {
    assert_eq!(catalog_text(&vec!["cam1".to_owned()]), "[\"cam1\"]");
    assert_eq!(catalog_text(&Vec::new()), "[]");
    assert_eq!(
        catalog_text(&vec!["cam1".to_owned(), "cam2".to_owned()]),
        "[\"cam1\",\"cam2\"]"
    );
}

#[test]
fn catalog_text_escapes_awkward_ids() {
    let id = "ca\"m\\1".to_owned();
    let text = catalog_text(&vec![id.clone()]);
    let decoded: Vec<String> = serde_json::from_str(&text).unwrap();
    assert_eq!(decoded, vec![id]);
}

#[test]
fn delivered_snapshot_is_sent_as_text() {
    let ids = vec!["cam1".to_owned(), "cam2".to_owned()];
    match catalog_step::<Payload>(Event::Delivered(ids.clone())) {
        CatalogAction::SendSnapshot(text) => {
            assert_eq!(decode(&text), ids.into_iter().collect::<BTreeSet<_>>());
        }
        other => panic!("expected a snapshot send, got {:?}", other),
    }
}

#[test]
fn lag_triggers_resnapshot() {
    assert_eq!(
        catalog_step::<Payload>(Event::Lagged(7)),
        CatalogAction::Resnapshot
    );
}

#[test]
fn catalog_session_frame_handling_matches_stream_session() {
    let payload: Payload = vec![5];
    assert_eq!(
        catalog_step(Event::FramePing(payload.clone())),
        CatalogAction::SendPong(payload)
    );
    assert_eq!(catalog_step::<Payload>(Event::FrameText), CatalogAction::Continue);
    assert_eq!(catalog_step::<Payload>(Event::FrameBinary), CatalogAction::Continue);
    assert_eq!(catalog_step::<Payload>(Event::FramePong), CatalogAction::Continue);
    assert_eq!(catalog_step::<Payload>(Event::FrameClose), CatalogAction::Close);
    assert_eq!(catalog_step::<Payload>(Event::TransportError), CatalogAction::Close);
    assert_eq!(catalog_step::<Payload>(Event::TransportGone), CatalogAction::Close);
    assert_eq!(catalog_step::<Payload>(Event::BusClosed), CatalogAction::Close);
    assert_eq!(catalog_step::<Payload>(Event::Tick), CatalogAction::SendPing);
}

#[test]
fn initial_snapshot_matches_registry() {
    let mut state = State::new();
    assert_eq!(registry_snapshot_text(&state), "[]");
    state.add_stream("cam1".to_owned()).unwrap();
    assert_eq!(decode(&registry_snapshot_text(&state)), decode("[\"cam1\"]"));
}

#[test]
fn catalog_subscriber_converges_after_bursty_churn() {
    // More mutations than the catalog channel retains: the subscriber lags,
    // and recovery by re-snapshotting ends consistent with the registry.
    let mut state = State::new();
    let mut receiver = state.get_streams_changed_receiver();
    for n in 0..300 {
        state.add_stream(format!("s{}", n)).unwrap();
    }
    match receiver.try_recv() {
        Err(tokio::sync::broadcast::error::TryRecvError::Lagged(k)) => assert!(k > 0),
        other => panic!("expected a lag, got {:?}", other),
    }
    // The session's reaction to a lag is Resnapshot...
    assert_eq!(
        catalog_step::<Payload>(Event::Lagged(20)),
        CatalogAction::Resnapshot
    );
    // ...and the re-sent snapshot is exactly the live set.
    let expected: BTreeSet<String> = (0..300).map(|n| format!("s{}", n)).collect();
    assert_eq!(decode(&registry_snapshot_text(&state)), expected);
}

#[test]
fn catalog_frames_track_every_observed_mutation_in_order() {
    let mut state = State::new();
    let mut receiver = state.get_streams_changed_receiver();
    state.add_stream("cam1".to_owned()).unwrap();
    state.add_stream("cam2".to_owned()).unwrap();
    state.remove_stream("cam1").unwrap();

    let mut seen: Vec<BTreeSet<String>> = Vec::new();
    seen.push(decode("[]"));
    while let Ok(ids) = receiver.try_recv() {
        match catalog_step::<Payload>(Event::Delivered(ids)) {
            CatalogAction::SendSnapshot(text) => seen.push(decode(&text)),
            other => panic!("expected a snapshot send, got {:?}", other),
        }
    }
    let expected: Vec<BTreeSet<String>> = vec![
        decode("[]"),
        decode("[\"cam1\"]"),
        decode("[\"cam1\",\"cam2\"]"),
        decode("[\"cam2\"]"),
    ];
    assert_eq!(seen, expected);
}
