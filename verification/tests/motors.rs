use duck_race::config::{pct_to_compare, HOMING_PCT, KICK_PCT, LANES, PWM_TOP};
use duck_race::motors::{Motors, Slice};

fn forward_lines(m: &Motors) -> [u16; LANES] {
    [
        m.fwd01.compare_a,
        m.fwd01.compare_b,
        m.fwd23.compare_a,
        m.fwd23.compare_b,
    ]
}

#[test]
fn duty_becomes_its_share_of_the_period() {
    assert_eq!(pct_to_compare(0), 0);
    assert_eq!(pct_to_compare(1), 62);
    assert_eq!(pct_to_compare(50), 3124);
    assert_eq!(pct_to_compare(70), 4374);
    assert_eq!(pct_to_compare(100), PWM_TOP);
    assert_eq!(pct_to_compare(255), 15934);
}

#[test]
fn compare_rises_with_the_duty() {
    for pct in 0..255u8 {
        assert!(pct_to_compare(pct) <= pct_to_compare(pct + 1));
    }
}

#[test]
fn motors_start_asleep_and_idle() {
    let m = Motors::new();
    assert!(!m.awake);
    assert_eq!(forward_lines(&m), [0; LANES]);
    assert_eq!(m.rev, Slice { compare_a: 0, compare_b: 0 });
}

#[test]
fn enable_touches_only_nsleep() {
    let mut m = Motors::new();
    m.race_forward(&[10, 20, 30, 40]);
    let before = m;
    m.enable(true);
    assert!(m.awake);
    assert_eq!(Motors { awake: false, ..m }, before);
    m.enable(false);
    assert_eq!(m, before);
}

#[test]
fn race_forward_drives_each_lane_and_holds_the_shared_line_low() {
    let mut m = Motors::new();
    m.reverse_all(HOMING_PCT);
    m.race_forward(&[0, 70, 85, 100]);
    assert_eq!(forward_lines(&m), [0, 4374, 5311, PWM_TOP]);
    assert_eq!(m.rev.compare_a, 0);
}

#[test]
fn single_lane_leaves_the_others_as_they_are() {
    let mut m = Motors::new();
    m.race_forward(&[10, 20, 30, 40]);
    m.set_lane_forward(2, 100);
    assert_eq!(
        forward_lines(&m),
        [pct_to_compare(10), pct_to_compare(20), PWM_TOP, pct_to_compare(40)]
    );
    m.set_lane_forward(4, 50);
    assert_eq!(
        forward_lines(&m),
        [pct_to_compare(10), pct_to_compare(20), PWM_TOP, pct_to_compare(40)]
    );
}

#[test]
fn reverse_uses_the_shared_line_alone() {
    let mut m = Motors::new();
    m.race_forward(&[KICK_PCT; LANES]);
    m.reverse_all(HOMING_PCT);
    assert_eq!(forward_lines(&m), [0; LANES]);
    assert_eq!(m.rev.compare_a, 4061);
}

#[test]
fn brake_takes_every_line_high_and_coast_every_line_low() {
    let mut m = Motors::new();
    m.brake_all();
    assert_eq!(forward_lines(&m), [PWM_TOP; LANES]);
    assert_eq!(m.rev.compare_a, PWM_TOP);
    m.coast_all();
    assert_eq!(forward_lines(&m), [0; LANES]);
    assert_eq!(m.rev.compare_a, 0);
}
