use duck_race::audio::{Sound, VOLUME_DEFAULT, VOLUME_MAX};
use duck_race::bringup::{cycle, fault_edge, AudioCheck, Jog, LaneTest, Panel, Run, CLIPS};
use duck_race::config::{pct_to_compare, HOMING_PCT, JOG_DUTY_PCT};
use duck_race::inputs::{Event, Levels};
use duck_race::motors::Motors;
use duck_race::turn::Wait;

const FREE: [bool; 4] = [false; 4];

fn forward_lines(m: &Motors) -> [u16; 4] {
    [
        m.fwd01.compare_a,
        m.fwd01.compare_b,
        m.fwd23.compare_a,
        m.fwd23.compare_b,
    ]
}

#[test]
fn jog_drives_while_a_button_is_held() {
    let mut m = Motors::new();
    let mut jog = Jog::start(&mut m, false);
    assert!(m.awake);
    let duty = pct_to_compare(JOG_DUTY_PCT);

    jog.motor_jog(&FREE, true, false, false, &mut m);
    assert_eq!(forward_lines(&m), [duty, 0, 0, 0]);
    jog.motor_jog(&[false, false, true, false], true, true, false, &mut m);
    assert_eq!(forward_lines(&m), [0, 0, duty, 0]);
    assert_eq!(m.rev.compare_a, 0);
    jog.motor_jog(&FREE, false, true, false, &mut m);
    assert_eq!(forward_lines(&m), [0; 4]);
    assert_eq!(m.rev.compare_a, duty);
    jog.motor_jog(&FREE, false, false, false, &mut m);
    assert_eq!(forward_lines(&m), [0; 4]);
    assert_eq!(m.rev.compare_a, 0);
    assert_eq!(jog.active, 2);
}

#[test]
fn the_last_of_several_duck_buttons_counts() {
    let mut m = Motors::new();
    let mut jog = Jog::start(&mut m, false);
    jog.motor_jog(&[true, true, false, true], false, false, false, &mut m);
    assert_eq!(jog.active, 3);
    jog.motor_jog(&[true, true, false, false], false, false, false, &mut m);
    assert_eq!(jog.active, 1);
    jog.motor_jog(&FREE, false, false, false, &mut m);
    assert_eq!(jog.active, 1);
}

#[test]
fn a_fault_is_reported_when_it_comes_and_when_it_goes() {
    assert_eq!(fault_edge(false, false), None);
    assert_eq!(fault_edge(false, true), Some(true));
    assert_eq!(fault_edge(true, true), None);
    assert_eq!(fault_edge(true, false), Some(false));

    let mut m = Motors::new();
    let mut jog = Jog::start(&mut m, true);
    assert_eq!(jog.motor_jog(&FREE, false, false, true, &mut m), None);
    assert_eq!(jog.motor_jog(&FREE, true, false, false, &mut m), Some(false));
    assert_eq!(jog.motor_jog(&FREE, true, false, false, &mut m), None);
    assert_eq!(jog.motor_jog(&FREE, false, false, true, &mut m), Some(true));
}

#[test]
fn a_lane_runs_to_the_finish_and_home() {
    let mut m = Motors::new();
    let mut levels = Levels { home: [true; 4], end: FREE };
    let (mut test, wait) = LaneTest::start(&mut m);
    assert_eq!(wait, Wait::Event(500));
    assert_eq!(
        test.lane_sequence(&mut m, 1, &levels, Some(Event::Select(1))),
        Wait::Event(500)
    );
    assert_eq!(
        test.lane_sequence(&mut m, 2, &levels, Some(Event::Go)),
        Wait::Event(50)
    );
    assert_eq!(test.run, Run::Out { since: 2 });
    assert_eq!(forward_lines(&m), [0, pct_to_compare(JOG_DUTY_PCT), 0, 0]);

    levels.home[1] = false;
    test.lane_sequence(&mut m, 3, &levels, Some(Event::Select(0)));
    assert_eq!(test, LaneTest { active: 1, run: Run::Out { since: 2 } });
    levels.end[1] = true;
    test.lane_sequence(&mut m, 4, &levels, None);
    assert_eq!(test.run, Run::Back { since: 4 });
    assert_eq!(m.rev.compare_a, pct_to_compare(HOMING_PCT));
    levels.end[1] = false;
    levels.home[1] = true;
    assert_eq!(
        test.lane_sequence(&mut m, 5, &levels, None),
        Wait::Event(500)
    );
    assert_eq!(test.run, Run::Idle);
    assert_eq!(m.rev.compare_a, 0);
}

#[test]
fn legs_that_are_done_are_skipped() {
    let mut m = Motors::new();
    let (mut test, _) = LaneTest::start(&mut m);
    let at_finish = Levels { home: FREE, end: [true; 4] };
    test.lane_sequence(&mut m, 7, &at_finish, Some(Event::Go));
    assert_eq!(test.run, Run::Back { since: 7 });

    let (mut test, _) = LaneTest::start(&mut m);
    let both = Levels { home: [true; 4], end: [true; 4] };
    test.lane_sequence(&mut m, 8, &both, Some(Event::Go));
    assert_eq!(test.run, Run::Idle);
    assert_eq!(m.rev.compare_a, 0);
}

#[test]
fn legs_time_out() {
    let mut m = Motors::new();
    let open = Levels::new();
    let (mut test, _) = LaneTest::start(&mut m);
    test.lane_sequence(&mut m, 0, &open, Some(Event::Go));
    test.lane_sequence(&mut m, 12_000_000, &open, None);
    assert_eq!(test.run, Run::Out { since: 0 });
    test.lane_sequence(&mut m, 12_000_001, &open, None);
    assert_eq!(test.run, Run::Back { since: 12_000_001 });
    test.lane_sequence(&mut m, 22_000_002, &open, None);
    assert_eq!(test.run, Run::Idle);
}

#[test]
fn other_events_leave_an_idle_lane_alone() {
    let mut m = Motors::new();
    let (mut test, _) = LaneTest::start(&mut m);
    let before = m;
    for ev in [Event::GoLong, Event::Up, Event::Down, Event::EndHit(0)] {
        test.lane_sequence(&mut m, 1, &Levels::new(), Some(ev));
    }
    assert_eq!(test, LaneTest { active: 0, run: Run::Idle });
    assert_eq!(m, before);
    test.lane_sequence(&mut m, 1, &Levels::new(), Some(Event::Select(77)));
    assert_eq!(test.active, 3);
}

fn panel() -> Panel {
    Panel { selects: FREE, go: false, up: false, down: false }
}

#[test]
fn clips_are_in_file_order() {
    for idx in 0..CLIPS {
        assert_eq!(cycle(idx).track(), Some(idx as u16 + 1));
    }
}

#[test]
fn go_steps_through_the_set_and_round() {
    let mut check = AudioCheck::start();
    for press in 0..9 {
        let asked = check.audio_check(&Panel { go: true, ..panel() });
        assert_eq!(asked.clip, Some(cycle(press % CLIPS)));
        // Held down, it does not play again.
        let asked = check.audio_check(&Panel { go: true, ..panel() });
        assert_eq!(asked.clip, None);
        check.audio_check(&panel());
    }
    assert_eq!(check.idx, 2);
    assert_eq!(cycle(6), Sound::Lose);
}

#[test]
fn duck_buttons_play_their_bets_once() {
    let mut check = AudioCheck::start();
    let two = Panel { selects: [true, false, true, false], ..panel() };
    assert_eq!(check.audio_check(&two).bets, [true, false, true, false]);
    assert_eq!(check.audio_check(&two).bets, FREE);
    let all = Panel { selects: [true; 4], ..panel() };
    assert_eq!(check.audio_check(&all).bets, [false, true, false, true]);
}

#[test]
fn volume_moves_by_two_and_stays_on_the_scale() {
    let up = Panel { up: true, ..panel() };
    let down = Panel { down: true, ..panel() };
    let mut check = AudioCheck::start();
    assert_eq!(check.volume, VOLUME_DEFAULT);
    let mut heard = Vec::new();
    for _ in 0..5 {
        heard.push(check.audio_check(&up).louder);
        check.audio_check(&panel());
    }
    assert_eq!(heard, vec![Some(24), Some(26), Some(28), Some(30), Some(VOLUME_MAX)]);
    for _ in 0..15 {
        check.audio_check(&down);
        check.audio_check(&panel());
    }
    assert_eq!(check.volume, 0);
    assert_eq!(check.audio_check(&down).softer, Some(0));
}

#[test]
fn both_volume_buttons_at_once_undo_each_other() {
    let mut check = AudioCheck::start();
    let asked = check.audio_check(&Panel { up: true, down: true, ..panel() });
    assert_eq!(asked.louder, Some(24));
    assert_eq!(asked.softer, Some(22));
    assert_eq!(check.volume, 22);
}
