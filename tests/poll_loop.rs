use ardu_temp::{
    crc8, Action, ParseError, Outcome, Phase, PollLoop, TemperatureState,
};

fn good_frame() -> Vec<u8> {
    let mut f = vec![0xAA, 0x02, 0x20, 0x04, 0x00, 0xFA, 0x01, 0x2C, 0x01, 0x5E, 0x01, 0x90, 0];
    f[12] = crc8(&f[0..12]);
    f
}

#[test]
fn first_action_is_open() {
    let mut m = PollLoop::new();
    assert_eq!(m.phase(), Phase::Connecting);
    let s = m.step(true, Outcome::Started);
    assert_eq!(s.action, Action::Open);
    assert_eq!(s.effect.connected, None);
    assert!(s.effect.publish.is_none());
}

#[test]
fn open_then_good_poll_publishes_and_waits_ten_seconds() {
    let mut m = PollLoop::new();
    m.step(true, Outcome::Started);
    let s = m.step(true, Outcome::Opened);
    assert_eq!(s.action, Action::Poll);
    assert_eq!(s.effect.connected, Some(true));
    let s = m.step(true, Outcome::Received(good_frame()));
    assert_eq!(s.action, Action::Sleep);
    assert_eq!(s.effect.publish.unwrap().tenths, [250, 300, 350, 400]);
    assert_eq!(m.phase(), Phase::Interval(10));
    let mut sleeps = 1;
    loop {
        let s = m.step(true, Outcome::Slept);
        if s.action == Action::Poll {
            break;
        }
        assert_eq!(s.action, Action::Sleep);
        sleeps += 1;
    }
    assert_eq!(sleeps, 10);
}

#[test]
fn bad_frame_disconnects_and_backs_off() {
    let mut m = PollLoop::new();
    m.step(true, Outcome::Started);
    m.step(true, Outcome::Opened);
    let mut bad = good_frame();
    bad[12] ^= 0xFF;
    let s = m.step(true, Outcome::Received(bad));
    assert_eq!(s.action, Action::Sleep);
    assert_eq!(s.effect.connected, Some(false));
    assert!(s.effect.publish.is_none());
    assert!(matches!(s.rejected, Some(ParseError::CrcMismatch { .. })));
    assert_eq!(m.phase(), Phase::Backoff(5));
}

#[test]
fn empty_read_is_an_error() {
    let mut m = PollLoop::new();
    m.step(true, Outcome::Started);
    m.step(true, Outcome::Opened);
    let s = m.step(true, Outcome::Received(Vec::new()));
    assert_eq!(s.effect.connected, Some(false));
    assert_eq!(s.rejected, Some(ParseError::TooShort(0)));
    assert_eq!(m.phase(), Phase::Backoff(5));
}

#[test]
fn transport_failure_disconnects() {
    let mut m = PollLoop::new();
    m.step(true, Outcome::Started);
    m.step(true, Outcome::Opened);
    let s = m.step(true, Outcome::TransportFailed);
    assert_eq!(s.action, Action::Sleep);
    assert_eq!(s.effect.connected, Some(false));
}

// A transport that never opens: count the open attempts over simulated seconds.
#[test]
fn failing_open_retries_every_five_seconds() {
    let mut m = PollLoop::new();
    let mut outcome = Outcome::Started;
    let mut seconds: u32 = 0;
    let mut opens_at: Vec<u32> = Vec::new();
    let mut ever_connected = false;
    while seconds < 30 {
        let s = m.step(true, outcome);
        if s.effect.connected == Some(true) {
            ever_connected = true;
        }
        outcome = match s.action {
            Action::Open => {
                opens_at.push(seconds);
                Outcome::OpenFailed
            }
            Action::Sleep => {
                seconds += 1;
                Outcome::Slept
            }
            Action::Poll => Outcome::TransportFailed,
            Action::Exit => break,
        };
    }
    assert!(!ever_connected);
    assert_eq!(opens_at, vec![0, 5, 10, 15, 20, 25]);
}

#[test]
fn stop_exits_and_clears_flag_from_every_phase() {
    for start in [Outcome::Started, Outcome::Opened, Outcome::OpenFailed] {
        let mut m = PollLoop::new();
        m.step(true, Outcome::Started);
        m.step(true, start);
        let s = m.step(false, Outcome::Slept);
        assert_eq!(s.action, Action::Exit);
        assert_eq!(s.effect.connected, Some(false));
        assert_eq!(m.phase(), Phase::Stopped);
        let s = m.step(true, Outcome::Opened);
        assert_eq!(s.action, Action::Exit);
    }
}

#[test]
fn stop_during_interval_exits_on_next_step() {
    let mut m = PollLoop::new();
    m.step(true, Outcome::Started);
    m.step(true, Outcome::Opened);
    m.step(true, Outcome::Received(good_frame()));
    m.step(true, Outcome::Slept);
    let s = m.step(false, Outcome::Slept);
    assert_eq!(s.action, Action::Exit);
    assert_eq!(s.effect.connected, Some(false));
}

#[test]
fn state_starts_zero_and_disconnected() {
    let state = TemperatureState::new();
    assert_eq!(state.get_temperatures(), [0, 0, 0, 0]);
    assert!(!state.is_connected());
}

#[test]
fn state_update_and_flag_are_independent() {
    let state = TemperatureState::new();
    let data = ardu_temp::parse_response_packet(&good_frame()).unwrap();
    state.update(data);
    assert_eq!(state.get_temperatures(), [250, 300, 350, 400]);
    assert!(!state.is_connected());
    state.set_connected(true);
    assert!(state.is_connected());
    assert_eq!(state.get_temperatures(), [250, 300, 350, 400]);
    let clone = state.clone();
    clone.set_connected(false);
    assert!(!state.is_connected());
}
