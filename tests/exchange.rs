use ublox7::exchange::{Exchange, ExchangeAction, ExchangeEvent, ExchangeState, RetryConfig};
use ublox7::frame::{encode_ubx_frame, FrameError, UbxMessage};

/// A simulated transport: answers attempt `n` (counted from 1) with `reply(n)`.
fn drive(ex: &mut Exchange, reply: &dyn Fn(u32) -> Option<Vec<u8>>) -> Result<UbxMessage, u32> {
    let mut ev = ExchangeEvent::Start;
    let mut writes: u32 = 0;
    loop {
        match ex.on_event(ev) {
            ExchangeAction::Write(_) => {
                writes += 1;
                ev = ExchangeEvent::WriteOk;
            }
            ExchangeAction::Read => {
                ev = match reply(ex.attempt()) {
                    Some(bytes) => ExchangeEvent::ReadOk(bytes),
                    None => ExchangeEvent::ReadFailed,
                };
            }
            ExchangeAction::Deliver(m) => return Ok(m),
            ExchangeAction::GiveUp => return Err(writes),
            ExchangeAction::Ignore => panic!("event out of order"),
        }
    }
}

#[test]
fn default_config() {
    let c = RetryConfig::default();
    assert_eq!(c.max_retries, 10);
}

#[test]
fn matches_on_tenth_attempt() {
    let mut ex = Exchange::new(0x01, 0x02, &[], &RetryConfig::default()).unwrap();
    let other = encode_ubx_frame(0x01, 0x35, &[9, 9]).unwrap();
    let wanted = encode_ubx_frame(0x01, 0x02, &[1, 2, 3]).unwrap();
    let r = drive(&mut ex, &|n| Some(if n == 10 { wanted.clone() } else { other.clone() }));
    let m = r.unwrap();
    assert_eq!((m.class, m.id, m.payload), (0x01, 0x02, vec![1, 2, 3]));
    assert_eq!(ex.attempt(), 10);
    assert_eq!(ex.state(), ExchangeState::Matched);
}

#[test]
fn never_matching_exhausts_retries() {
    let mut ex = Exchange::new(0x01, 0x02, &[], &RetryConfig::default()).unwrap();
    let other = encode_ubx_frame(0x01, 0x35, &[]).unwrap();
    let r = drive(&mut ex, &|n| if n % 2 == 0 { Some(other.clone()) } else { None });
    assert_eq!(r.unwrap_err(), 10);
    assert_eq!(ex.state(), ExchangeState::Exhausted);
    assert_eq!(ex.attempt(), 10);
}

#[test]
fn write_failure_counts_as_attempt() {
    let cfg = RetryConfig { max_retries: 3, attempt_timeout_ms: 10, inter_attempt_delay_ms: 0 };
    let mut ex = Exchange::new(0x01, 0x02, &[], &cfg).unwrap();
    let frame = encode_ubx_frame(0x01, 0x02, &[]).unwrap();
    assert!(matches!(ex.on_event(ExchangeEvent::Start), ExchangeAction::Write(f) if f == frame));
    assert!(matches!(ex.on_event(ExchangeEvent::WriteFailed), ExchangeAction::Write(_)));
    assert_eq!(ex.attempt(), 2);
    assert!(matches!(ex.on_event(ExchangeEvent::WriteFailed), ExchangeAction::Write(_)));
    assert!(matches!(ex.on_event(ExchangeEvent::WriteFailed), ExchangeAction::GiveUp));
    assert_eq!(ex.state(), ExchangeState::Exhausted);
    assert!(matches!(ex.on_event(ExchangeEvent::Start), ExchangeAction::Ignore));
}

#[test]
fn corrupted_response_is_no_response() {
    let cfg = RetryConfig { max_retries: 1, attempt_timeout_ms: 10, inter_attempt_delay_ms: 0 };
    let mut ex = Exchange::new(0x01, 0x02, &[], &cfg).unwrap();
    let mut bad = encode_ubx_frame(0x01, 0x02, &[4, 4]).unwrap();
    bad[6] = 5;
    let r = drive(&mut ex, &|_| Some(bad.clone()));
    assert_eq!(r.unwrap_err(), 1);
}

#[test]
fn zero_retries_gives_up_at_once() {
    let cfg = RetryConfig { max_retries: 0, attempt_timeout_ms: 10, inter_attempt_delay_ms: 0 };
    let mut ex = Exchange::new(0x01, 0x02, &[], &cfg).unwrap();
    assert!(matches!(ex.on_event(ExchangeEvent::Start), ExchangeAction::GiveUp));
    assert_eq!(ex.attempt(), 0);
}

#[test]
fn exchange_rejects_oversized_request() {
    let payload = vec![0u8; 70000];
    assert!(matches!(Exchange::new(0x01, 0x02, &payload, &RetryConfig::default()), Err(FrameError::PayloadTooLarge)));
}

#[test]
fn out_of_order_event_is_ignored() {
    let mut ex = Exchange::new(0x01, 0x02, &[], &RetryConfig::default()).unwrap();
    assert!(matches!(ex.on_event(ExchangeEvent::WriteOk), ExchangeAction::Ignore));
    assert_eq!(ex.state(), ExchangeState::Idle);
    assert!(matches!(ex.on_event(ExchangeEvent::Start), ExchangeAction::Write(_)));
    assert!(matches!(ex.on_event(ExchangeEvent::ReadFailed), ExchangeAction::Ignore));
    assert_eq!(ex.state(), ExchangeState::Sent);
}
