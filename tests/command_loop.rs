use gauge::command_loop::{CommandLoop, Indicator, Phase};
use gauge::pwm::{Channel, PwmChannels};

fn gauge_duties(l: &CommandLoop) -> (u16, u16) {
    let c = l.channels();
    (c.get_duty(Channel::C2), c.get_duty(Channel::C3))
}

/// Offers the pending echo to a transport that accepts at most the counts
/// in `accepts`, one per write, and returns what it accepted.
fn echo_with(l: &mut CommandLoop, accepts: &[usize]) -> Vec<u8> {
    let mut out = Vec::new();
    for &a in accepts {
        if l.phase() != Phase::Echo {
            break;
        }
        let pending = l.pending_echo();
        let n = a.min(pending.len());
        out.extend_from_slice(&pending[..n]);
        l.on_write(n);
    }
    out
}

#[test]
fn startup_drives_the_gauge_to_the_middle() {
    let l = CommandLoop::new(1000);
    assert_eq!(gauge_duties(&l), (636, 636));
    let c = l.channels();
    assert_eq!(c.get_duty(Channel::C1), 0);
    assert!(c.is_enabled(Channel::C1));
    assert!(c.is_enabled(Channel::C2));
    assert!(c.is_enabled(Channel::C3));
    assert_eq!(c.get_max_duty(), 1000);
    assert_eq!(l.phase(), Phase::WaitForData);
}

#[test]
fn a_command_sets_both_gauge_channels() {
    let mut l = CommandLoop::new(1000);
    l.on_read(&[255]);
    assert_eq!(gauge_duties(&l), (960, 960));
    assert_eq!(l.indicator(), Indicator::Active);
    assert_eq!(l.phase(), Phase::Echo);
}

#[test]
fn only_the_first_byte_is_a_command() {
    let mut l = CommandLoop::new(1000);
    l.on_read(&[0, 255, 255]);
    assert_eq!(gauge_duties(&l), (215, 215));
    assert_eq!(l.pending_echo(), vec![0, 255, 255]);
}

#[test]
fn the_same_command_twice_gives_the_same_duty() {
    let mut l = CommandLoop::new(1000);
    l.on_read(&[128]);
    let first = gauge_duties(&l);
    echo_with(&mut l, &[1]);
    l.on_read(&[128]);
    assert_eq!(gauge_duties(&l), first);
    assert_eq!(first, (638, 638));
}

#[test]
fn channels_stay_together_over_many_commands() {
    let mut l = CommandLoop::new(700);
    for b in [0u8, 17, 99, 200, 255, 3] {
        l.on_read(&[b, b]);
        let (c2, c3) = gauge_duties(&l);
        assert_eq!(c2, c3);
        assert!(c2 <= 700);
        echo_with(&mut l, &[2]);
        let (c2, c3) = gauge_duties(&l);
        assert_eq!(c2, c3);
    }
}

#[test]
fn echo_returns_the_bytes_through_partial_writes() {
    let data: Vec<u8> = (0..64u8).map(|i| i.wrapping_mul(37)).collect();
    let mut l = CommandLoop::new(1000);
    l.on_read(&data);
    let out = echo_with(&mut l, &[1, 0, 5, 0, 0, 13, 20, 64]);
    assert_eq!(out, data);
    assert_eq!(l.phase(), Phase::WaitForData);
    assert_eq!(l.indicator(), Indicator::Idle);
}

#[test]
fn echo_of_a_single_byte() {
    let mut l = CommandLoop::new(1000);
    l.on_read(&[42]);
    let out = echo_with(&mut l, &[0, 1]);
    assert_eq!(out, vec![42]);
    assert_eq!(l.phase(), Phase::WaitForData);
}

#[test]
fn echo_waits_on_a_stalled_transport() {
    let mut l = CommandLoop::new(1000);
    l.on_read(&[9, 8, 7]);
    let out = echo_with(&mut l, &[0; 1000]);
    assert!(out.is_empty());
    assert_eq!(l.phase(), Phase::Echo);
    assert_eq!(l.pending_echo(), vec![9, 8, 7]);
    assert_eq!(l.indicator(), Indicator::Active);
}

#[test]
fn partial_echo_leaves_the_rest_pending() {
    let mut l = CommandLoop::new(1000);
    l.on_read(&[1, 2, 3, 4]);
    l.on_write(3);
    assert_eq!(l.pending_echo(), vec![4]);
    assert_eq!(l.phase(), Phase::Echo);
}

#[test]
fn an_empty_read_only_idles_the_indicator() {
    let mut l = CommandLoop::new(1000);
    assert_eq!(l.indicator(), Indicator::Active);
    l.on_read(&[]);
    assert_eq!(l.indicator(), Indicator::Idle);
    assert_eq!(l.phase(), Phase::WaitForData);
    assert_eq!(gauge_duties(&l), (636, 636));
}

#[test]
fn a_failed_read_idles_the_indicator() {
    let mut l = CommandLoop::new(1000);
    l.on_read_error();
    assert_eq!(l.indicator(), Indicator::Idle);
    assert_eq!(l.phase(), Phase::WaitForData);
}

#[test]
fn a_small_timer_clamps_the_command() {
    let mut l = CommandLoop::new(300);
    assert_eq!(gauge_duties(&l), (300, 300));
    l.on_read(&[255]);
    assert_eq!(gauge_duties(&l), (300, 300));
}

#[test]
fn pwm_channels_enable_and_set() {
    let mut p = PwmChannels::new(500);
    assert!(!p.is_enabled(Channel::C2));
    p.enable(Channel::C2);
    assert!(p.is_enabled(Channel::C2));
    assert!(!p.is_enabled(Channel::C1));
    p.set_duty(Channel::C1, 12);
    p.set_gauge_duty(400);
    assert_eq!(p.get_duty(Channel::C1), 12);
    assert_eq!(p.get_duty(Channel::C2), 400);
    assert_eq!(p.get_duty(Channel::C3), 400);
}
