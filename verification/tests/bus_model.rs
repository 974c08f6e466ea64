use relay_hub::bus::Bus;
use relay_hub::bus::BusRecv;
use relay_hub::bus::STREAM_BUS_CAPACITY;

fn packet(n: u8) -> Vec<u8> {
    vec![n, n, n]
}

#[test]
fn cursor_sees_only_packets_published_after_subscribe() {
    let mut bus = Bus::new(16);
    bus.publish(packet(1));
    let mut cursor = bus.subscribe();
    bus.publish(packet(2));
    bus.publish(packet(3));
    let got = bus.drain(&mut cursor);
    assert_eq!(got, vec![packet(2), packet(3)]);
}

#[test]
fn in_order_delivery_without_lag() {
    let mut bus = Bus::new(16);
    let mut cursor = bus.subscribe();
    for n in 0..10u8 {
        bus.publish(packet(n));
    }
    let got = bus.drain(&mut cursor);
    let expected: Vec<Vec<u8>> = (0..10u8).map(packet).collect();
    assert_eq!(got, expected);
}

#[test]
fn lag_is_reported_once_and_delivery_resumes_with_oldest_retained() {
    let mut bus = Bus::new(100);
    let mut cursor = bus.subscribe();
    // 600 packets through a 100-packet bus: 500 are dropped for this cursor.
    for n in 0..600u16 {
        bus.publish(n.to_be_bytes().to_vec());
    }
    match bus.receive(&mut cursor) {
        BusRecv::Lagged(k) => assert_eq!(k, 500),
        _ => panic!("expected a lag report"),
    }
    // The cursor resumes with the oldest retained packet; no close.
    match bus.receive(&mut cursor) {
        BusRecv::Packet(p) => assert_eq!(p, 500u16.to_be_bytes().to_vec()),
        _ => panic!("expected a packet after the lag report"),
    }
}

#[test]
fn buffer_never_exceeds_capacity() {
    let mut bus = Bus::new(STREAM_BUS_CAPACITY);
    for n in 0..(STREAM_BUS_CAPACITY + 500) {
        bus.publish(vec![(n % 251) as u8]);
    }
    assert!(bus.buffered_len() <= STREAM_BUS_CAPACITY);
    // A subscriber that fell arbitrarily far behind still has at most
    // STREAM_BUS_CAPACITY packets queued.
    let mut stale = bus.subscribe();
    let got = bus.drain(&mut stale);
    assert!(got.len() <= STREAM_BUS_CAPACITY);
}

#[test]
fn slow_cursor_does_not_disturb_other_subscribers() {
    let mut bus = Bus::new(4);
    let mut slow = bus.subscribe();
    for n in 0..20u8 {
        bus.publish(packet(n));
    }
    // `slow` lags badly...
    match bus.receive(&mut slow) {
        BusRecv::Lagged(k) => assert_eq!(k, 16),
        _ => panic!("expected a lag report"),
    }
    // ...while a subscriber that joins now still gets everything published
    // from here on, in order.
    let mut fresh = bus.subscribe();
    bus.publish(packet(21));
    bus.publish(packet(22));
    let got = bus.drain(&mut fresh);
    assert_eq!(got, vec![packet(21), packet(22)]);
}

#[test]
fn drained_open_bus_reports_empty() {
    let bus = Bus::new(4);
    let mut cursor = bus.subscribe();
    assert!(matches!(bus.receive(&mut cursor), BusRecv::Empty));
}

#[test]
fn closed_bus_yields_remaining_packets_then_closed() {
    let mut bus = Bus::new(4);
    let mut cursor = bus.subscribe();
    bus.publish(packet(1));
    bus.publish(packet(2));
    bus.close();
    match bus.receive(&mut cursor) {
        BusRecv::Packet(p) => assert_eq!(p, packet(1)),
        _ => panic!("expected the first packet"),
    }
    match bus.receive(&mut cursor) {
        BusRecv::Packet(p) => assert_eq!(p, packet(2)),
        _ => panic!("expected the second packet"),
    }
    assert!(matches!(bus.receive(&mut cursor), BusRecv::Closed));
}
