use pubsub_subscriber::keepalive::{PingAction, PingEvent, Pinger};

#[test]
fn timer_sends_a_ping() {
    let mut pinger = Pinger::new(10_000);
    assert_eq!(pinger.interval_millis(), 10_000);
    for _ in 0..100 {
        assert_eq!(pinger.step(PingEvent::Tick), PingAction::Ping);
        assert!(!pinger.is_stopped());
    }
}

#[test]
fn cancellation_closes_the_channel_and_stops() {
    let mut pinger = Pinger::new(250);
    assert_eq!(pinger.step(PingEvent::Tick), PingAction::Ping);
    assert_eq!(pinger.step(PingEvent::Cancelled), PingAction::Close);
    assert!(pinger.is_stopped());
    assert_eq!(pinger.interval_millis(), 250);
}

#[test]
fn cancellation_before_the_first_ping() {
    let mut pinger = Pinger::new(1);
    assert!(!pinger.is_stopped());
    assert_eq!(pinger.step(PingEvent::Cancelled), PingAction::Close);
    assert!(pinger.is_stopped());
}

#[test]
fn channel_is_closed_once_over_a_run() {
    let events = [PingEvent::Tick, PingEvent::Tick, PingEvent::Tick, PingEvent::Cancelled];
    let mut pinger = Pinger::new(10);
    let mut closes = 0;
    let mut pings = 0;
    for event in events {
        assert!(!pinger.is_stopped());
        match pinger.step(event) {
            PingAction::Ping => pings += 1,
            PingAction::Close => closes += 1,
        }
    }
    assert_eq!(pings, 3);
    assert_eq!(closes, 1);
    assert!(pinger.is_stopped());
}

#[test]
fn stopped_pinger_answers_nothing() {
    let mut pinger = Pinger::new(10);
    assert_eq!(pinger.try_step(PingEvent::Tick), Some(PingAction::Ping));
    assert_eq!(pinger.try_step(PingEvent::Cancelled), Some(PingAction::Close));
    assert_eq!(pinger.try_step(PingEvent::Tick), None);
    assert_eq!(pinger.try_step(PingEvent::Cancelled), None);
    assert!(pinger.is_stopped());
}
