use radarflow::pacing::{Pace, Pacer};
use radarflow::websocket::{reply_to, ClientMessage, Reply};

#[test]
fn target_interval_from_poll_rate() {
    assert_eq!(Pacer::new(60).target_interval(), 16_666_666);
    assert_eq!(Pacer::new(1).target_interval(), 1_000_000_000);
    assert_eq!(Pacer::new(1000).target_interval(), 1_000_000);
}

#[test]
fn sleeps_rest_of_interval() {
    let mut p = Pacer::new(100);
    assert_eq!(p.pace(4_000_000), Pace { remaining: 6_000_000, warn: false });
    assert_eq!(p.pace(10_000_000), Pace { remaining: 0, warn: false });
    assert_eq!(p.missmatch_count(), 0);
}

#[test]
fn overruns_warn_after_limit() {
    let mut p = Pacer::new(1000);
    for i in 0..25u32 {
        assert_eq!(p.pace(2_000_000), Pace { remaining: 0, warn: false });
        assert_eq!(p.missmatch_count(), i + 1);
    }
    assert_eq!(p.pace(2_000_000), Pace { remaining: 0, warn: true });
    assert_eq!(p.missmatch_count(), 25);
    assert_eq!(p.pace(500_000), Pace { remaining: 500_000, warn: false });
    assert_eq!(p.pace(2_000_000), Pace { remaining: 0, warn: true });
}

#[test]
fn websocket_replies() {
    assert_eq!(reply_to(&ClientMessage::Text("requestInfo".to_string())), Reply::SendRadarData);
    assert_eq!(reply_to(&ClientMessage::Text("requestinfo".to_string())), Reply::Ignore);
    assert_eq!(reply_to(&ClientMessage::Text(String::new())), Reply::Ignore);
    assert_eq!(reply_to(&ClientMessage::Close), Reply::Close);
    assert_eq!(reply_to(&ClientMessage::Other), Reply::Ignore);
}

#[test]
fn no_warning_before_twenty_five_overruns() {
    let mut p = Pacer::new(100);
    for _ in 0..24u32 {
        assert!(!p.pace(20_000_000).warn);
        assert!(!p.pace(1_000_000).warn);
    }
    assert!(!p.pace(20_000_000).warn);
    assert!(p.pace(20_000_000).warn);
}
