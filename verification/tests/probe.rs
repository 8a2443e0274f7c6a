use ttcp_rs::roundtrip::{clock_offset_micros, rtt_micros, RTTFrame, RoundTripArgs};

#[test]
fn probe_args_hand_back_what_went_in() {
    let a = RoundTripArgs::new(true, "127.0.0.1".to_string(), 12345);
    assert!(a.is_server());
    assert_eq!(a.host(), "127.0.0.1");
    assert_eq!(a.port(), 12345);
    let b = RoundTripArgs::new(false, "10.0.0.9".to_string(), 80);
    assert!(!b.is_server());
    assert_eq!(b.host(), "10.0.0.9");
}

#[test]
fn default_frame_is_unstamped() {
    let f = RTTFrame::default();
    assert_eq!(f.t1(), 0);
    assert_eq!(f.t2(), 0);
}

#[test]
fn round_trip_time_is_elapsed_micros() {
    assert_eq!(rtt_micros(10, 25), 15);
    assert_eq!(rtt_micros(0, 0), 0);
    assert_eq!(rtt_micros(1_700_000_000_000_000, 1_700_000_000_000_250), 250);
}

#[test]
fn clock_offset_is_stamp_minus_midpoint() {
    assert_eq!(clock_offset_micros(10, 100, 30), 100 - 20);
    // The midpoint rounds down, as integer division does.
    assert_eq!(clock_offset_micros(1, 5, 4), 5 - 2);
    assert_eq!(clock_offset_micros(0, 0, 0), 0);
}

#[test]
fn stamping_one_side_leaves_the_other() {
    let mut f = RTTFrame::new(77, 88);
    f.set_t2_to_now();
    assert_eq!(f.t1(), 77);
    let t2 = f.t2();
    f.set_t1_to_now();
    assert_eq!(f.t2(), t2);
    // The clock runs forward from the Unix epoch.
    assert!(f.t1() > 0);
}

#[test]
fn reflected_frame_keeps_the_send_stamp() {
    // The server decodes a probe, stamps only t2, and sends it back; the
    // client finds its own send stamp untouched in the reflection.
    let probe = RTTFrame::new(123_456, 0);
    let mut at_server = RTTFrame::decode(&probe.encode());
    at_server.set_t2_to_now();
    let at_client = RTTFrame::decode(&at_server.encode());
    assert_eq!(at_client.t1(), 123_456);
    assert_eq!(at_client.t2(), at_server.t2());
}
