use webxash3d_metamod::{ChannelOpenCounter, ChannelRole};

fn starts(events: &[ChannelRole]) -> usize {
    let mut c = ChannelOpenCounter::new();
    events.iter().filter(|r| c.record_open(**r)).count()
}

#[test]
fn gate_fires_once_outbound_first() {
    let mut c = ChannelOpenCounter::new();
    assert_eq!(c.count(), 0);
    assert!(!c.record_open(ChannelRole::Outbound));
    assert_eq!(c.count(), 1);
    assert!(c.record_open(ChannelRole::Inbound));
    assert_eq!(c.count(), 2);
}

#[test]
fn gate_fires_once_inbound_first() {
    let mut c = ChannelOpenCounter::new();
    assert!(!c.record_open(ChannelRole::Inbound));
    assert!(c.record_open(ChannelRole::Outbound));
    assert!(c.is_open(ChannelRole::Inbound) && c.is_open(ChannelRole::Outbound));
}

#[test]
fn gate_ignores_repeated_open_events() {
    assert_eq!(starts(&[ChannelRole::Inbound, ChannelRole::Inbound]), 0);
    assert_eq!(
        starts(&[
            ChannelRole::Inbound,
            ChannelRole::Inbound,
            ChannelRole::Outbound,
            ChannelRole::Outbound,
            ChannelRole::Inbound,
        ]),
        1
    );
    assert_eq!(starts(&[]), 0);
}

#[test]
fn gate_from_bits_matches_fetch_or() {
    // The bit set as an atomic `fetch_or` leaves it, before each event.
    let mut bits: u8 = 0;
    let mut fired = 0;
    for role in [ChannelRole::Inbound, ChannelRole::Outbound, ChannelRole::Outbound] {
        let prev = bits;
        bits |= ChannelOpenCounter::open_bit(role);
        if ChannelOpenCounter::from_bits(prev).record_open(role) {
            fired += 1;
        }
    }
    assert_eq!(fired, 1);
    assert_eq!(ChannelOpenCounter::from_bits(3).count(), 2);
    assert_eq!(ChannelOpenCounter::open_bit(ChannelRole::Outbound), 1);
    assert_eq!(ChannelOpenCounter::open_bit(ChannelRole::Inbound), 2);
}

#[test]
fn channel_labels() {
    assert_eq!(ChannelRole::Outbound.label(), "write");
    assert_eq!(ChannelRole::Inbound.label(), "read");
}
