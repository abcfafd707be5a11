use duck_race::audio::Sound;
use duck_race::calibrate::{load, Baselines, Leg};
use duck_race::config::{
    pct_to_compare, BOOT_NUDGE_PCT, HOMING_PCT, KICK_PCT, PWM_TOP, WATCHDOG_MS,
};
use duck_race::game::{nudge_duties, Game, Homing, Phase};
use duck_race::inputs::{drain, Event, EventQueue, Levels};
use duck_race::leds::Mode;
use duck_race::motors::Motors;
use duck_race::race::Draw;
use duck_race::turn::{clamp_lane, Output, Senses, Wait};

const HOME: [bool; 4] = [true; 4];
const AWAY: [bool; 4] = [false; 4];

fn senses(now: u64, home: [bool; 4]) -> Senses {
    let calm = Draw { chance: 99, speed: 14, span: 0 };
    Senses { now, levels: Levels { home, end: [false; 4] }, draws: [calm; 4] }
}

fn forward_lines(m: &Motors) -> [u16; 4] {
    [
        m.fwd01.compare_a,
        m.fwd01.compare_b,
        m.fwd23.compare_a,
        m.fwd23.compare_b,
    ]
}

fn coasting(m: &Motors) -> bool {
    forward_lines(m) == [0; 4] && m.rev.compare_a == 0
}

fn reversing(m: &Motors) -> bool {
    forward_lines(m) == [0; 4] && m.rev.compare_a == pct_to_compare(HOMING_PCT)
}

/// A machine that waits for a player at time zero.
fn waiting() -> Game {
    let mut motors = Motors::new();
    motors.enable(true);
    Game { phase: Phase::Attract, motors, base: Baselines::default(), at: 0 }
}

fn quiet(out: &Output) -> bool {
    !out.drain && out.mode.is_none() && out.sound.is_none() && out.save.is_none()
}

/// A machine in a race that pick `pick` is in, launched at the returned time.
fn racing(pick: u8) -> (Game, u64) {
    let mut g = waiting();
    g.run(&senses(1_000, HOME), Some(Event::Select(pick)));
    g.run(&senses(2_000, HOME), Some(Event::Go));
    g.run(&senses(1_002_000, HOME), None);
    g.run(&senses(1_062_000, HOME), None);
    (g, 1_062_000)
}

#[test]
fn boot_nudges_settles_and_homes() {
    let mut g = Game::new(Baselines::default(), false);
    assert!(!g.motors.awake);

    let out = g.run(&senses(10, HOME), None);
    assert!(quiet(&out));
    assert_eq!(out.wait, Wait::Sleep(200));
    assert!(g.motors.awake);
    assert_eq!(forward_lines(&g.motors), [pct_to_compare(BOOT_NUDGE_PCT); 4]);

    let out = g.run(&senses(200_010, AWAY), None);
    assert!(quiet(&out));
    assert_eq!(out.wait, Wait::Sleep(75));
    assert!(coasting(&g.motors));

    let out = g.run(&senses(275_010, AWAY), None);
    assert_eq!(out.mode, Some(Mode::Home));
    assert_eq!(out.sound, Some(Sound::Home));
    assert_eq!(out.wait, Wait::Event(50));
    assert!(reversing(&g.motors));

    let out = g.run(&senses(300_000, HOME), None);
    assert_eq!(out.mode, Some(Mode::Attract));
    assert_eq!(out.sound, None);
    assert_eq!(out.wait, Wait::Event(500));
    assert!(coasting(&g.motors));
    assert!(matches!(g.phase, Phase::Attract));
}

#[test]
fn nudge_leaves_lanes_at_the_finish_alone() {
    let levels = Levels { home: [false; 4], end: [false, true, false, true] };
    assert_eq!(nudge_duties(&levels), [85, 0, 85, 0]);
    let mut g = Game::new(Baselines::default(), false);
    g.run(&Senses { levels, ..senses(10, AWAY) }, None);
    let nudge = pct_to_compare(BOOT_NUDGE_PCT);
    assert_eq!(forward_lines(&g.motors), [nudge, 0, nudge, 0]);
}

#[test]
fn nothing_moves_when_every_lane_is_home() {
    let mut g = Game { phase: Phase::Settle, ..waiting() };
    let out = g.run(&senses(5, HOME), None);
    assert_eq!(out.mode, Some(Mode::Attract));
    assert_eq!(out.sound, Some(Sound::Home));
    assert!(coasting(&g.motors));
    assert!(matches!(g.phase, Phase::Attract));
}

#[test]
fn homed_lanes_stay_homed_and_events_do_not_count() {
    let mut g = Game { phase: Phase::Settle, ..waiting() };
    g.run(&senses(0, [true, false, false, false]), None);
    g.run(&senses(1, [false, true, false, false]), Some(Event::StartHit(3)));
    match g.phase {
        Phase::Home(Homing { homed, since }) => {
            assert_eq!(homed, [true, true, false, false]);
            assert_eq!(since, 0);
        }
        _ => panic!("homing is not over"),
    }
    g.run(&senses(2, [false, false, true, false]), Some(Event::Go));
    assert!(reversing(&g.motors));
    g.run(&senses(3, [false, false, false, true]), Some(Event::Select(1)));
    assert!(matches!(g.phase, Phase::Attract));
}

#[test]
fn homing_gives_up_after_ten_seconds() {
    let mut g = Game { phase: Phase::Settle, ..waiting() };
    g.run(&senses(1_000, AWAY), None);
    let out = g.run(&senses(10_001_000, AWAY), None);
    assert!(quiet(&out));
    assert!(matches!(g.phase, Phase::Home(_)));
    let out = g.run(&senses(10_001_001, AWAY), None);
    assert_eq!(out.mode, Some(Mode::Attract));
    assert!(coasting(&g.motors));
}

#[test]
fn only_a_duck_button_starts_a_selection() {
    let mut g = waiting();
    for ev in [
        None,
        Some(Event::Go),
        Some(Event::GoLong),
        Some(Event::Up),
        Some(Event::Down),
        Some(Event::StartHit(1)),
        Some(Event::EndHit(1)),
    ] {
        let out = g.run(&senses(1, HOME), ev);
        assert!(quiet(&out));
        assert_eq!(out.wait, Wait::Event(500));
        assert!(matches!(g.phase, Phase::Attract));
    }
    let out = g.run(&senses(2, HOME), Some(Event::Select(1)));
    assert_eq!(out.mode, Some(Mode::Select(1)));
    assert_eq!(out.sound, Some(Sound::Bet(1)));
    assert!(matches!(g.phase, Phase::Selecting { pick: 1 }));
}

#[test]
fn the_pick_can_be_changed_until_go() {
    let mut g = waiting();
    g.run(&senses(1, HOME), Some(Event::Select(0)));
    let out = g.run(&senses(2, HOME), Some(Event::Select(3)));
    assert_eq!(out.mode, Some(Mode::Select(3)));
    assert_eq!(out.sound, Some(Sound::Bet(3)));
    let out = g.run(&senses(3, HOME), Some(Event::EndHit(2)));
    assert!(quiet(&out));
    let out = g.run(&senses(4, HOME), Some(Event::Select(200)));
    assert_eq!(out.sound, Some(Sound::Bet(3)));
    g.run(&senses(5, HOME), Some(Event::Go));
    assert!(matches!(g.phase, Phase::Hold { pick: 3, since: 5 }));
}

#[test]
fn lights_and_music_come_before_the_launch() {
    let mut g = waiting();
    g.run(&senses(1_000, HOME), Some(Event::Select(2)));
    let out = g.run(&senses(2_000, HOME), Some(Event::Go));
    assert_eq!(out.mode, Some(Mode::Race));
    assert_eq!(out.sound, Some(Sound::Race));
    assert!(!out.drain);
    assert_eq!(out.wait, Wait::Sleep(200));
    assert!(coasting(&g.motors));

    let out = g.run(&senses(1_001_999, HOME), None);
    assert!(quiet(&out));
    assert_eq!(out.wait, Wait::Sleep(200));
    assert!(coasting(&g.motors));

    let out = g.run(&senses(1_002_000, HOME), None);
    assert!(out.drain);
    assert_eq!(out.wait, Wait::Sleep(60));
    assert_eq!(forward_lines(&g.motors), [pct_to_compare(KICK_PCT); 4]);

    let out = g.run(&senses(1_062_000, HOME), None);
    assert!(quiet(&out));
    assert_eq!(out.wait, Wait::Event(30));
    match g.phase {
        Phase::Race { pick, race } => {
            assert_eq!(pick, 2);
            assert_eq!(race.start, 1_062_000);
        }
        _ => panic!("the race is on"),
    }
    assert_eq!(forward_lines(&g.motors), [pct_to_compare(70); 4]);
}

#[test]
fn a_stale_finish_is_drained_before_the_race() {
    let mut g = waiting();
    let mut queue = EventQueue::new();
    g.run(&senses(1, HOME), Some(Event::Select(0)));
    g.run(&senses(2, HOME), Some(Event::Go));
    assert!(queue.send(Event::EndHit(3)));
    let out = g.run(&senses(1_000_002, HOME), None);
    if out.drain {
        drain(&mut queue);
    }
    g.run(&senses(1_060_002, HOME), None);
    g.run(&senses(1_090_002, HOME), queue.receive());
    assert!(matches!(g.phase, Phase::Race { .. }));
}

#[test]
fn buttons_do_nothing_in_a_race() {
    let (mut g, start) = racing(0);
    for ev in [
        Event::Select(3),
        Event::Go,
        Event::GoLong,
        Event::Up,
        Event::Down,
        Event::StartHit(0),
    ] {
        let out = g.run(&senses(start + 10, AWAY), Some(ev));
        assert!(quiet(&out));
        assert!(matches!(g.phase, Phase::Race { pick: 0, .. }));
    }
}

#[test]
fn the_picked_duck_wins() {
    let (mut g, start) = racing(2);
    let out = g.run(&senses(start + 5_000_000, AWAY), Some(Event::EndHit(2)));
    assert!(quiet(&out));
    assert_eq!(out.wait, Wait::Sleep(200));
    assert_eq!(forward_lines(&g.motors), [PWM_TOP; 4]);
    assert_eq!(g.motors.rev.compare_a, PWM_TOP);

    let out = g.run(&senses(start + 5_200_000, AWAY), None);
    assert_eq!(out.mode, Some(Mode::Winner(2)));
    assert_eq!(out.sound, Some(Sound::Win));
    assert!(coasting(&g.motors));

    let out = g.run(&senses(start + 9_199_999, AWAY), None);
    assert!(quiet(&out));
    assert_eq!(out.wait, Wait::Sleep(200));
    let out = g.run(&senses(start + 9_200_000, AWAY), None);
    assert_eq!(out.mode, Some(Mode::Home));
    assert!(reversing(&g.motors));
}

#[test]
fn another_duck_wins() {
    let (mut g, start) = racing(2);
    g.run(&senses(start + 1, AWAY), Some(Event::EndHit(0)));
    let out = g.run(&senses(start + 200_001, AWAY), None);
    assert_eq!(out.mode, Some(Mode::Winner(0)));
    assert_eq!(out.sound, Some(Sound::Lose));
}

#[test]
fn a_race_without_a_finisher_goes_home_in_silence() {
    let (mut g, start) = racing(1);
    g.run(&senses(start + 12_000_000, AWAY), None);
    assert!(matches!(g.phase, Phase::Race { .. }));
    g.run(&senses(start + 12_000_001, AWAY), None);
    assert!(matches!(g.phase, Phase::Brake { winner: None, .. }));
    let out = g.run(&senses(start + 12_200_001, AWAY), None);
    assert_eq!(out.mode, Some(Mode::Home));
    assert_eq!(out.sound, Some(Sound::Home));
    assert_eq!(Sound::Home.track(), None);
    assert!(matches!(g.phase, Phase::Home(_)));
    assert!(reversing(&g.motors));
}

#[test]
fn a_race_that_times_out_at_home_waits_for_a_player() {
    let (mut g, start) = racing(1);
    g.run(&senses(start + 12_000_001, HOME), None);
    let out = g.run(&senses(start + 12_200_001, HOME), None);
    assert_eq!(out.mode, Some(Mode::Attract));
    assert!(coasting(&g.motors));
}

#[test]
fn a_lane_stalls_and_is_kicked_in_a_race() {
    let (mut g, start) = racing(0);
    let mut s = senses(start + 200_000, AWAY);
    s.draws[1] = Draw { chance: 29, speed: 14, span: 0 };
    g.run(&s, None);
    let run = pct_to_compare(70);
    assert_eq!(forward_lines(&g.motors), [run, 0, run, run]);
    g.run(&senses(start + 300_000, AWAY), None);
    assert_eq!(forward_lines(&g.motors), [run, pct_to_compare(KICK_PCT), run, run]);
    g.run(&senses(start + 390_000, AWAY), None);
    assert_eq!(forward_lines(&g.motors), [run; 4]);
}

#[test]
fn tune_mode_comes_first_when_go_is_held() {
    let mut g = Game::new(Baselines::default(), true);
    let out = g.run(&senses(1, HOME), None);
    assert_eq!(out.mode, Some(Mode::Tune { lane: 0, pct: 70 }));
    assert_eq!(out.wait, Wait::Event(500));
    let out = g.run(&senses(2, HOME), Some(Event::Up));
    assert_eq!(out.mode, Some(Mode::Tune { lane: 0, pct: 72 }));
    assert_eq!(g.base.pct, [72, 70, 70, 70]);
    let out = g.run(&senses(3, HOME), Some(Event::Go));
    assert!(quiet(&out));
    match g.phase {
        Phase::Tune(t) => assert_eq!(t.leg, Leg::Out { since: 3 }),
        _ => panic!("a test run is on"),
    }
    // A long press during a run saves nothing.
    let out = g.run(&senses(4, HOME), Some(Event::GoLong));
    assert!(out.save.is_none());
    g.run(&senses(5, HOME), Some(Event::EndHit(0)));
    assert!(reversing(&g.motors));
    g.run(&senses(6, HOME), None);
    assert!(coasting(&g.motors));

    let out = g.run(&senses(7, HOME), Some(Event::GoLong));
    assert_eq!(load(out.save).pct, [72, 70, 70, 70]);
    assert_eq!(out.wait, Wait::Sleep(200));
    assert!(matches!(g.phase, Phase::Nudge));
    assert_eq!(g.base.pct, [72, 70, 70, 70]);
}

#[test]
fn lanes_past_the_last_are_the_last() {
    assert_eq!(clamp_lane(0), 0);
    assert_eq!(clamp_lane(3), 3);
    assert_eq!(clamp_lane(4), 3);
    assert_eq!(clamp_lane(255), 3);
}

#[test]
fn the_same_turn_gives_the_same_answer() {
    let (g, start) = racing(1);
    let s = senses(start + 210_000, AWAY);
    let mut a = g;
    let mut b = g;
    let out_a = a.run(&s, Some(Event::Up));
    let out_b = b.run(&s, Some(Event::Up));
    assert_eq!(a.motors, b.motors);
    match (a.phase, b.phase) {
        (Phase::Race { race, .. }, Phase::Race { race: r, .. }) => {
            assert_eq!(race.lanes, r.lanes);
        }
        _ => panic!("the race is on"),
    }
    assert_eq!(out_a.wait, out_b.wait);
}

#[test]
fn a_whole_game_comes_round_and_feeds_the_watchdog() {
    let mut g = Game::new(Baselines::default(), false);
    let mut now = 0;
    let mut seen = Vec::new();
    for _ in 0..1_000 {
        let home = !matches!(g.phase, Phase::Race { .. } | Phase::Brake { .. } | Phase::Winner { .. });
        let ev = match g.phase {
            Phase::Attract => Some(Event::Select(1)),
            Phase::Selecting { .. } => Some(Event::Go),
            Phase::Race { race, .. } if now > race.start + 3_000_000 => Some(Event::EndHit(1)),
            _ => None,
        };
        let out = g.run(&senses(now, [home; 4]), ev);
        if let Some(sound) = out.sound {
            seen.push(sound);
        }
        let ms = match out.wait {
            Wait::Event(ms) => ms,
            Wait::Sleep(ms) => ms,
        };
        assert!(ms < WATCHDOG_MS);
        assert_eq!(g.at, now);
        now += 1_000 * ms;
    }
    assert_eq!(
        seen[..6],
        [Sound::Home, Sound::Bet(1), Sound::Race, Sound::Win, Sound::Home, Sound::Bet(1)]
    );
}
