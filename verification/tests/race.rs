use duck_race::calibrate::Baselines;
use duck_race::config::{FLOOR_PCT, KICK_PCT, RESUME_KICK_MS};
use duck_race::inputs::Event;
use duck_race::race::{rand_range, roll_speed, Draw, Lane, Race, Standing};

const CALM: Draw = Draw { chance: 99, speed: 0, span: 0 };

#[test]
fn range_covers_both_ends() {
    assert_eq!(rand_range(0, 200, 400), 200);
    assert_eq!(rand_range(200, 200, 400), 400);
    assert_eq!(rand_range(201, 200, 400), 200);
    assert_eq!(rand_range(u32::MAX, 5, 6), 6);
    let mut seen = [false; 7];
    for raw in 0..7 {
        seen[rand_range(raw, 10, 16) as usize - 10] = true;
    }
    assert_eq!(seen, [true; 7]);
}

#[test]
fn an_empty_range_is_its_lower_end() {
    assert_eq!(rand_range(123, 7, 7), 7);
    assert_eq!(rand_range(123, 9, 3), 9);
}

#[test]
fn speed_is_the_baseline_and_an_offset() {
    // Baseline 80: spread 16, so 33 offsets from -16 to 16.
    assert_eq!(roll_speed(16, 80), 80);
    assert_eq!(roll_speed(32, 80), 96);
    assert_eq!(roll_speed(33 + 17, 80), 81);
    assert_eq!(roll_speed(0, 80), FLOOR_PCT);
    assert_eq!(roll_speed(6, 80), 70);
    assert_eq!(roll_speed(7, 80), 71);
}

#[test]
fn speed_stays_in_the_band() {
    assert_eq!(roll_speed(40, 100), 100);
    assert_eq!(roll_speed(20, 100), 100);
    assert_eq!(roll_speed(0, 100), 80);
    assert_eq!(roll_speed(5, 0), FLOOR_PCT);
    assert_eq!(roll_speed(102, 255), 100);
    for base in [0u8, 4, 70, 85, 100] {
        for raw in 0..60 {
            let duty = roll_speed(raw, base);
            assert!((FLOOR_PCT..=100).contains(&duty));
        }
    }
}

#[test]
fn a_lane_opens_running() {
    let lane = Lane::open(1_000_000, 80, Draw { chance: 0, speed: 20, span: 100 });
    assert_eq!(
        lane,
        Lane { target: 84, next_change: 1_300_000, kick_until: 1_000_000 }
    );
    assert_eq!(lane.command(1_000_000), 84);
}

#[test]
fn a_segment_runs_until_it_expires() {
    let mut lane = Lane::open(0, 80, CALM);
    let before = lane;
    lane.reroll(199_999, 80, Draw { chance: 0, speed: 9, span: 9 });
    assert_eq!(lane, before);
    lane.reroll(200_000, 80, Draw { chance: 99, speed: 20, span: 200 });
    assert_eq!(lane, Lane { target: 84, next_change: 600_000, kick_until: 0 });
}

#[test]
fn three_rerolls_in_ten_stall() {
    let start = Lane { target: 80, next_change: 0, kick_until: 0 };
    let mut stalls = 0;
    for chance in 0..100 {
        let mut lane = start;
        lane.reroll(0, 80, Draw { chance, speed: 16, span: 0 });
        if lane.target == 0 {
            stalls += 1;
            assert_eq!(lane.next_change, 100_000);
            assert_eq!(lane.command(0), 0);
        }
    }
    assert_eq!(stalls, 30);
}

#[test]
fn a_stall_ends_with_a_kick_and_never_in_a_stall() {
    let mut lane = Lane { target: 0, next_change: 500_000, kick_until: 100 };
    lane.reroll(500_000, 70, Draw { chance: 0, speed: 14, span: 0 });
    assert_eq!(
        lane,
        Lane { target: 70, next_change: 700_000, kick_until: 590_000 }
    );
    assert_eq!(RESUME_KICK_MS, 90);
    assert_eq!(lane.command(500_000), KICK_PCT);
    assert_eq!(lane.command(589_999), KICK_PCT);
    assert_eq!(lane.command(590_000), 70);
}

#[test]
fn a_kick_does_not_slow_a_faster_lane() {
    let lane = Lane { target: 95, next_change: 900, kick_until: 500 };
    assert_eq!(lane.command(0), 95);
}

fn draws() -> [Draw; 4] {
    [
        Draw { chance: 0, speed: 16, span: 0 },
        Draw { chance: 50, speed: 20, span: 50 },
        Draw { chance: 99, speed: 32, span: 100 },
        Draw { chance: 30, speed: 0, span: 200 },
    ]
}

#[test]
fn a_race_opens_every_lane_moving() {
    let race = Race::open(10, &Baselines { pct: [80; 4] }, &draws());
    assert_eq!(race.start, 10);
    assert_eq!(race.commands(10), [80, 84, 96, 70]);
    assert_eq!(race.lanes[2].next_change, 300_010);
}

#[test]
fn lanes_reroll_on_their_own() {
    let base = Baselines { pct: [80; 4] };
    let mut race = Race::open(0, &base, &draws());
    race.reroll(260_000, &base, &draws());
    // Lanes 0 and 1 have expired: the draw stalls lane 0, lane 1 gets a new speed.
    assert_eq!(race.commands(260_000), [0, 84, 96, 70]);
    assert_eq!(race.lanes[0].next_change, 360_000);
    assert_eq!(race.lanes[1].next_change, 510_000);
    assert_eq!(race.lanes[2].next_change, 300_000);
    assert_eq!(race.lanes[3].next_change, 400_000);

    let mut other = Race::open(0, &base, &[draws()[0]; 4]);
    other.reroll(260_000, &base, &draws());
    assert_eq!(other.lanes[0], race.lanes[0]);
}

#[test]
fn the_finish_switch_decides() {
    let race = Race::open(0, &Baselines::default(), &draws());
    assert_eq!(race.standing(5, Some(Event::EndHit(2))), Standing::Won(2));
    assert_eq!(race.standing(5, Some(Event::EndHit(9))), Standing::Won(3));
    assert_eq!(race.standing(5, Some(Event::StartHit(2))), Standing::Running);
    assert_eq!(race.standing(5, Some(Event::Go)), Standing::Running);
    assert_eq!(race.standing(5, None), Standing::Running);
}

#[test]
fn a_race_times_out_after_twelve_seconds() {
    let race = Race::open(1_000, &Baselines::default(), &draws());
    assert_eq!(race.standing(12_001_000, None), Standing::Running);
    assert_eq!(race.standing(12_001_001, None), Standing::TimedOut);
    assert_eq!(
        race.standing(12_001_001, Some(Event::EndHit(0))),
        Standing::Won(0)
    );
}
