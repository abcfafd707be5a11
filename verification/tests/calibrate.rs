use duck_race::calibrate::{
    checksum, load, nudge_down, nudge_up, save, Baselines, Leg, Tune, TuneTurn, CFG_OFFSET,
    FLASH_SIZE, MAGIC, RECORD_LEN, SECTOR_SIZE,
};
use duck_race::config::{BASE_DEFAULT_PCT, FLOOR_PCT, HOMING_PCT};
use duck_race::inputs::{Event, Levels};
use duck_race::leds::Mode;
use duck_race::motors::Motors;
use duck_race::turn::Wait;

const DEFAULTS: [u8; 4] = [BASE_DEFAULT_PCT; 4];

#[test]
fn defaults_are_the_same_in_every_lane() {
    assert_eq!(Baselines::default().pct, [70, 70, 70, 70]);
}

#[test]
fn checksum_folds_the_duties_into_the_mark() {
    assert_eq!(checksum(&[0, 0, 0, 0]), MAGIC);
    assert_eq!(checksum(&[1, 2, 3, 4]), 0xD0CC_0001 ^ 0x0403_0201);
    assert_eq!(checksum(&[70, 72, 90, 100]), 0xD0CC_0001 ^ 0x645A_4846);
}

#[test]
fn record_has_the_mark_the_duties_and_the_checksum() {
    let buf = save(&Baselines { pct: [70, 72, 90, 100] });
    assert_eq!(
        buf,
        [0x01, 0x00, 0xCC, 0xD0, 70, 72, 90, 100, 0x47, 0x48, 0x96, 0xB4]
    );
}

#[test]
fn what_was_saved_is_loaded() {
    for pct in [[70, 70, 70, 70], [100, 99, 98, 70], [75, 80, 85, 90]] {
        assert_eq!(load(Some(save(&Baselines { pct }))).pct, pct);
    }
}

#[test]
fn a_failed_read_gives_the_defaults() {
    assert_eq!(load(None).pct, DEFAULTS);
}

#[test]
fn blank_flash_gives_the_defaults() {
    assert_eq!(load(Some([0xFF; RECORD_LEN])).pct, DEFAULTS);
    assert_eq!(load(Some([0x00; RECORD_LEN])).pct, DEFAULTS);
}

#[test]
fn any_changed_byte_gives_the_defaults() {
    let good = save(&Baselines { pct: [80, 81, 82, 83] });
    for i in 0..RECORD_LEN {
        for flip in [1u8, 2, 4, 0x80, 0xFF] {
            let mut bad = good;
            bad[i] ^= flip;
            assert_eq!(load(Some(bad)).pct, DEFAULTS);
        }
    }
}

#[test]
fn duties_out_of_range_give_the_defaults() {
    assert_eq!(load(Some(save(&Baselines { pct: [69, 80, 80, 80] }))).pct, DEFAULTS);
    assert_eq!(load(Some(save(&Baselines { pct: [80, 80, 80, 101] }))).pct, DEFAULTS);
}

#[test]
fn a_record_of_other_duties_is_another_record() {
    let a = save(&Baselines { pct: [80, 81, 82, 83] });
    let b = save(&Baselines { pct: [80, 81, 83, 82] });
    assert_ne!(a, b);
    assert_eq!(a, save(&Baselines { pct: [80, 81, 82, 83] }));
}

#[test]
fn record_lies_in_the_last_sector() {
    assert_eq!(CFG_OFFSET + SECTOR_SIZE, FLASH_SIZE);
    assert_eq!(CFG_OFFSET, 2 * 1024 * 1024 - 4096);
}

#[test]
fn nudges_stop_at_the_ends() {
    assert_eq!(nudge_up(70), 72);
    assert_eq!(nudge_up(98), 100);
    assert_eq!(nudge_up(99), 100);
    assert_eq!(nudge_up(100), 100);
    assert_eq!(nudge_up(255), 100);
    assert_eq!(nudge_down(100), 98);
    assert_eq!(nudge_down(72), FLOOR_PCT);
    assert_eq!(nudge_down(71), FLOOR_PCT);
    assert_eq!(nudge_down(FLOOR_PCT), FLOOR_PCT);
    assert_eq!(nudge_down(1), FLOOR_PCT);
    assert_eq!(nudge_down(nudge_up(80)), 80);
}

fn stay(turn: TuneTurn) -> duck_race::turn::Output {
    match turn {
        TuneTurn::Stay(out) => out,
        TuneTurn::Saved(_) => panic!("left TUNE mode"),
    }
}

#[test]
fn tune_buttons_pick_and_adjust() {
    let mut base = Baselines::default();
    let mut motors = Motors::new();
    let (mut tune, out) = Tune::enter(&base);
    assert_eq!(out.mode, Some(Mode::Tune { lane: 0, pct: 70 }));
    assert_eq!(out.wait, Wait::Event(500));
    let out = stay(tune.tune_mode(&mut base, &mut motors, 1, Some(Event::Select(2))));
    assert_eq!(out.mode, Some(Mode::Tune { lane: 2, pct: 70 }));
    assert_eq!(tune.active, 2);
    for pct in [72, 74, 76] {
        let out = stay(tune.tune_mode(&mut base, &mut motors, 2, Some(Event::Up)));
        assert_eq!(out.mode, Some(Mode::Tune { lane: 2, pct }));
    }
    let out = stay(tune.tune_mode(&mut base, &mut motors, 3, Some(Event::Down)));
    assert_eq!(out.mode, Some(Mode::Tune { lane: 2, pct: 74 }));
    assert_eq!(base.pct, [70, 70, 74, 70]);
    let out = stay(tune.tune_mode(&mut base, &mut motors, 4, Some(Event::EndHit(2))));
    assert_eq!(out.mode, None);
    stay(tune.tune_mode(&mut base, &mut motors, 5, None));
    assert_eq!(base.pct, [70, 70, 74, 70]);
    assert_eq!(motors, Motors::new());
    let out = stay(tune.tune_mode(&mut base, &mut motors, 6, Some(Event::Select(9))));
    assert_eq!(out.mode, Some(Mode::Tune { lane: 3, pct: 70 }));
}

#[test]
fn holding_go_saves_the_baselines() {
    let mut base = Baselines { pct: [70, 80, 90, 100] };
    let mut motors = Motors::new();
    let (mut tune, _) = Tune::enter(&base);
    match tune.tune_mode(&mut base, &mut motors, 9, Some(Event::GoLong)) {
        TuneTurn::Saved(buf) => assert_eq!(load(Some(buf)).pct, [70, 80, 90, 100]),
        TuneTurn::Stay(_) => panic!("nothing was saved"),
    }
}

#[test]
fn test_run_goes_out_and_back() {
    let mut base = Baselines { pct: [70, 80, 90, 100] };
    let mut motors = Motors::new();
    let mut levels = Levels::new();
    let (mut tune, _) = Tune::enter(&base);
    stay(tune.tune_mode(&mut base, &mut motors, 0, Some(Event::Select(1))));
    let out = stay(tune.tune_mode(&mut base, &mut motors, 1_000, Some(Event::Go)));
    assert_eq!(out.wait, Wait::Event(200));
    assert_eq!(tune.leg, Leg::Out { since: 1_000 });
    assert!(motors.awake);
    assert_eq!(motors.fwd01.compare_b, 4999);
    assert_eq!(motors.fwd01.compare_a, 0);

    // Another lane's finish switch does not end the run.
    tune.test_lane(&mut motors, 2_000, &levels, Some(Event::EndHit(0)));
    assert_eq!(tune.leg, Leg::Out { since: 1_000 });
    tune.test_lane(&mut motors, 3_000, &levels, Some(Event::EndHit(1)));
    assert_eq!(tune.leg, Leg::Back { since: 3_000 });
    let mut reversed = Motors::new();
    reversed.enable(true);
    reversed.reverse_all(HOMING_PCT);
    assert_eq!(motors, reversed);

    tune.test_lane(&mut motors, 4_000, &levels, None);
    assert_eq!(tune.leg, Leg::Back { since: 3_000 });
    levels.home[1] = true;
    let out = tune.test_lane(&mut motors, 5_000, &levels, None);
    assert_eq!(tune.leg, Leg::Idle);
    assert_eq!(out.wait, Wait::Event(500));
    assert_eq!(motors.rev.compare_a, 0);
}

#[test]
fn test_run_legs_time_out() {
    let mut motors = Motors::new();
    let levels = Levels::new();
    let mut tune = Tune { active: 0, leg: Leg::Out { since: 0 } };
    tune.test_lane(&mut motors, 12_000_000, &levels, None);
    assert_eq!(tune.leg, Leg::Out { since: 0 });
    tune.test_lane(&mut motors, 12_000_001, &levels, None);
    assert_eq!(tune.leg, Leg::Back { since: 12_000_001 });
    tune.test_lane(&mut motors, 22_000_001, &levels, None);
    assert_eq!(tune.leg, Leg::Back { since: 12_000_001 });
    tune.test_lane(&mut motors, 22_000_002, &levels, None);
    assert_eq!(tune.leg, Leg::Idle);
}
