use duck_race::config::{COUNTS, LANES, NUM_LEDS, ROWS, ROW_MAX};
use duck_race::leds::{
    chase_color, chase_step, duck_color, lane_light, led_task, offsets, phys_index, Glow,
    LedController, Light, Mode, Rgb, Walk, CHASE_LUT_LEN, WALK_ROW_TICKS,
};

const DARK: Rgb = Rgb { r: 0, g: 0, b: 0 };

/// A gamma table that is its own argument.
fn straight() -> [u8; 256] {
    let mut g = [0u8; 256];
    for (i, v) in g.iter_mut().enumerate() {
        *v = i as u8;
    }
    g
}

fn board() -> LedController {
    LedController::new(straight(), [0; CHASE_LUT_LEN])
}

fn ramp() -> [Rgb; ROW_MAX] {
    let mut c = [DARK; ROW_MAX];
    for (i, v) in c.iter_mut().enumerate() {
        *v = Rgb { r: i as u8, g: 2 * i as u8, b: 100 };
    }
    c
}

#[test]
fn ducks_have_their_colors() {
    assert_eq!(duck_color(0), Rgb { r: 255, g: 40, b: 0 });
    assert_eq!(duck_color(1), Rgb { r: 0, g: 120, b: 255 });
    assert_eq!(duck_color(2), Rgb { r: 0, g: 220, b: 40 });
    assert_eq!(duck_color(3), Rgb { r: 235, g: 190, b: 0 });
    assert_eq!(chase_color(), Rgb { r: 255, g: 180, b: 100 });
}

#[test]
fn rows_start_where_the_last_one_ends() {
    assert_eq!(offsets(), [0, 39, 78, 117]);
    assert_eq!(NUM_LEDS, COUNTS.iter().sum::<usize>());
}

#[test]
fn odd_rows_are_reversed() {
    assert_eq!(phys_index(0, 0), 0);
    assert_eq!(phys_index(0, 38), 38);
    assert_eq!(phys_index(1, 38), 39);
    assert_eq!(phys_index(1, 0), 77);
    assert_eq!(phys_index(2, 0), 78);
    assert_eq!(phys_index(2, 38), 116);
    assert_eq!(phys_index(3, 38), 117);
    assert_eq!(phys_index(3, 0), 155);
}

#[test]
fn every_pixel_is_used_once() {
    let mut hits = [0; NUM_LEDS];
    for r in 0..ROWS {
        for p in 0..COUNTS[r] {
            hits[phys_index(r, p)] += 1;
        }
    }
    assert!(hits.iter().all(|h| *h == 1));
}

#[test]
fn modes_light_their_lanes() {
    let amber = Light { color: Rgb { r: 255, g: 120, b: 0 }, glow: Glow::Breathe };
    for l in 0..LANES {
        assert_eq!(lane_light(Mode::Home, l), Some(amber));
        assert_eq!(lane_light(Mode::Attract, l), None);
        assert_eq!(lane_light(Mode::Race, l), None);
        let glow = if l == 2 { Glow::Pulse } else { Glow::Faint };
        assert_eq!(
            lane_light(Mode::Select(2), l),
            Some(Light { color: duck_color(l), glow })
        );
        let blink = Some(Light { color: duck_color(l), glow: Glow::Blink });
        assert_eq!(lane_light(Mode::Winner(1), l), if l == 1 { blink } else { None });
    }
}

#[test]
fn marquee_runs_in_two_modes() {
    assert_eq!(chase_step(Mode::Race), Some(55));
    assert_eq!(chase_step(Mode::Attract), Some(150));
    assert_eq!(chase_step(Mode::Home), None);
    assert_eq!(chase_step(Mode::Select(0)), None);
    assert_eq!(chase_step(Mode::Winner(0)), None);
}

#[test]
fn renderer_keeps_the_last_mode() {
    assert_eq!(led_task(Mode::Home, None), Mode::Home);
    assert_eq!(led_task(Mode::Home, Some(Mode::Race)), Mode::Race);
}

#[test]
fn bulb_stays_at_its_last_step() {
    let mut lut = [7u8; CHASE_LUT_LEN];
    lut[0] = 255;
    lut[CHASE_LUT_LEN - 1] = 3;
    let leds = LedController::new(straight(), lut);
    assert_eq!(leds.bulb(0), 255);
    assert_eq!(leds.bulb(1), 7);
    assert_eq!(leds.bulb(127), 3);
    assert_eq!(leds.bulb(128), 3);
    assert_eq!(leds.bulb(100_000), 3);
}

#[test]
fn colors_are_gamma_corrected() {
    let mut gamma = [0u8; 256];
    gamma[10] = 1;
    gamma[200] = 150;
    gamma[255] = 255;
    let leds = LedController::new(gamma, [0; CHASE_LUT_LEN]);
    assert_eq!(
        leds.scaled(Rgb { r: 10, g: 200, b: 255 }),
        Rgb { r: 1, g: 150, b: 255 }
    );
}

#[test]
fn lights_on_one_pixel_keep_the_brighter_channel() {
    let mut leds = board();
    leds.fill_lane(1, Rgb { r: 10, g: 200, b: 0 });
    leds.fill_lane(1, Rgb { r: 90, g: 20, b: 5 });
    for p in 0..COUNTS[1] {
        assert_eq!(leds.fb[phys_index(1, p)], Rgb { r: 90, g: 200, b: 5 });
    }
    assert_eq!(leds.fb[phys_index(0, 5)], DARK);
    assert_eq!(leds.fb[phys_index(2, 5)], DARK);
}

#[test]
fn marquee_is_in_step_on_every_row() {
    let mut leds = board();
    leds.render(Mode::Race, &[Rgb { r: 9, g: 9, b: 9 }; LANES], &ramp());
    for r in 0..ROWS {
        for p in 0..COUNTS[r] {
            assert_eq!(leds.fb[phys_index(r, p)], ramp()[p]);
        }
    }
}

#[test]
fn only_the_winners_row_is_lit() {
    let mut leds = board();
    let lanes = [
        Rgb { r: 1, g: 1, b: 1 },
        Rgb { r: 2, g: 2, b: 2 },
        Rgb { r: 3, g: 3, b: 3 },
        Rgb { r: 4, g: 4, b: 4 },
    ];
    leds.render(Mode::Race, &lanes, &ramp());
    leds.render(Mode::Winner(2), &lanes, &ramp());
    for r in 0..ROWS {
        for p in 0..COUNTS[r] {
            let want = if r == 2 { lanes[2] } else { DARK };
            assert_eq!(leds.fb[phys_index(r, p)], want);
        }
    }
}

#[test]
fn selection_lights_every_row_in_its_own_light() {
    let mut leds = board();
    let lanes = [
        Rgb { r: 1, g: 0, b: 0 },
        Rgb { r: 0, g: 2, b: 0 },
        Rgb { r: 0, g: 0, b: 3 },
        Rgb { r: 4, g: 4, b: 0 },
    ];
    leds.render(Mode::Select(9), &lanes, &ramp());
    for r in 0..ROWS {
        assert_eq!(leds.fb[phys_index(r, 0)], lanes[r]);
        assert_eq!(leds.fb[phys_index(r, 38)], lanes[r]);
    }
}

#[test]
fn tune_shows_the_level_as_a_bar() {
    let mut leds = board();
    let lanes = [Rgb { r: 5, g: 6, b: 7 }; LANES];
    // 39 pixels at 70 % are 27, at 72 % 28, at 100 % all of them.
    for (pct, bar) in [(0, 0), (70, 27), (72, 28), (99, 38), (100, 39), (200, 39)] {
        leds.render(Mode::Tune { lane: 1, pct }, &lanes, &ramp());
        for p in 0..COUNTS[1] {
            let want = if p < bar { lanes[1] } else { DARK };
            assert_eq!(leds.fb[phys_index(1, p)], want);
        }
        assert_eq!(leds.fb[phys_index(0, 38)], lanes[0]);
        assert_eq!(leds.fb[phys_index(3, 38)], lanes[3]);
    }
    for l in 0..LANES {
        let glow = if l == 1 { Glow::Pulse } else { Glow::Faint };
        assert_eq!(
            lane_light(Mode::Tune { lane: 1, pct: 80 }, l),
            Some(Light { color: duck_color(l), glow })
        );
    }
    assert_eq!(chase_step(Mode::Tune { lane: 1, pct: 80 }), None);
}

#[test]
fn rows_are_drawn_once_in_the_walk() {
    assert!(Walk::Chain(0).is_new());
    assert!(Walk::Chain(7).is_new());
    assert!(Walk::Rows(0).is_new());
    assert!(!Walk::Rows(1).is_new());
    assert!(!Walk::Rows(WALK_ROW_TICKS - 1).is_new());
    assert!(Walk::Dot { row: 0, pos: 0 }.is_new());
}

#[test]
fn walk_goes_through_chain_rows_and_dots() {
    let mut leds = board();
    let mut walk = Walk::start();
    let dot = Rgb { r: 60, g: 60, b: 60 };
    for i in 0..NUM_LEDS {
        assert_eq!(walk, Walk::Chain(i));
        assert_eq!(walk.hold_ms(), 45);
        leds.test_walk(walk);
        for k in 0..NUM_LEDS {
            assert_eq!(leds.fb[k], if k == i { dot } else { DARK });
        }
        walk = walk.next();
    }
    for k in 0..WALK_ROW_TICKS {
        assert_eq!(walk, Walk::Rows(k));
        assert_eq!(walk.hold_ms(), 50);
        leds.test_walk(walk);
        assert_eq!(leds.fb[phys_index(0, 3)], Rgb { r: 85, g: 13, b: 0 });
        assert_eq!(leds.fb[phys_index(3, 0)], Rgb { r: 78, g: 63, b: 0 });
        walk = walk.next();
    }
    for row in 0..ROWS {
        for pos in 0..COUNTS[row] {
            assert_eq!(walk, Walk::Dot { row, pos });
            assert_eq!(walk.hold_ms(), 40);
            leds.test_walk(walk);
            let lit: Vec<usize> = (0..NUM_LEDS).filter(|i| leds.fb[*i] != DARK).collect();
            assert_eq!(lit, vec![phys_index(row, pos)]);
            walk = walk.next();
        }
    }
    assert_eq!(walk, Walk::start());
}
