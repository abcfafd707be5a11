//! The LED board: four serpentine rows, one per lane, drawn in (lane, position) space.
//!
//! Row `r` is wired start to finish if `r` is even and finish to start if it is odd;
//! `phys_index` absorbs that flip. Brightness curves are floating point and come in from
//! outside, as colours already dimmed; the board applies the gamma table and places them.

use crate::config::{
    CHASE_STEP_MS_ATTRACT, CHASE_STEP_MS_RACE, COUNTS, LANES, NUM_LEDS, ROWS, ROW_MAX,
};
use vstd::prelude::*;

verus! {

/// A colour, one byte per channel.
#[derive(Clone, Copy, PartialEq, Eq, Structural, Debug)]
pub struct Rgb {
    pub r: u8,
    pub g: u8,
    pub b: u8,
}

/// What the board should show. Set by the game, read by the renderer.
#[derive(Clone, Copy, PartialEq, Eq, Structural, Debug)]
pub enum Mode {
    Home,
    Attract,
    Select(u8),
    Race,
    Winner(u8),
    /// TUNE: the active lane, and the level of its baseline in percent.
    Tune { lane: u8, pct: u8 },
}

/// A dark pixel.
pub open spec fn dark() -> Rgb {
    Rgb { r: 0, g: 0, b: 0 }
}

/// The colour of each duck.
pub open spec fn color_of(lane: int) -> Rgb {
    if lane == 0 {
        Rgb { r: 255, g: 40, b: 0 }
    } else if lane == 1 {
        Rgb { r: 0, g: 120, b: 255 }
    } else if lane == 2 {
        Rgb { r: 0, g: 220, b: 40 }
    } else {
        Rgb { r: 235, g: 190, b: 0 }
    }
}

/// Red-orange, blue, green, yellow: a distinct colour per duck.
pub fn duck_color(lane: usize) -> (c: Rgb)
    requires
        lane < LANES,
    ensures
        c == color_of(lane as int),
{
    if lane == 0 {
        Rgb { r: 255, g: 40, b: 0 }
    } else if lane == 1 {
        Rgb { r: 0, g: 120, b: 255 }
    } else if lane == 2 {
        Rgb { r: 0, g: 220, b: 40 }
    } else {
        Rgb { r: 235, g: 190, b: 0 }
    }
}

/// Warm white, before gamma: the filament colour of the marquee chase.
pub fn chase_color() -> (c: Rgb)
    ensures
        c == (Rgb { r: 255, g: 180, b: 100 }),
{
    Rgb { r: 255, g: 180, b: 100 }
}

/// Law: no two ducks share a colour.
pub proof fn duck_colors_are_distinct(a: int, b: int)
    requires
        0 <= a < LANES,
        0 <= b < LANES,
        color_of(a) == color_of(b),
    ensures
        a == b,
{
}

// ---- The chain ----

/// Where row `r` starts in the chain: the pixels of all rows before it.
pub open spec fn offset(r: int) -> int
    decreases r,
{
    if r <= 0 {
        0
    } else {
        offset(r - 1) + COUNTS[r - 1]
    }
}

/// There is a pixel at position `p` of row `r`.
pub open spec fn on_board(r: int, p: int) -> bool {
    0 <= r < ROWS && 0 <= p < COUNTS[r]
}

/// Chain index of position `p`, counted from the start line, of row `r`.
pub open spec fn phys(r: int, p: int) -> int {
    if r % 2 == 0 {
        offset(r) + p
    } else {
        offset(r) + (COUNTS[r] - 1 - p)
    }
}

/// The rows lie one after the other, and together they are the chain.
proof fn lemma_offsets()
    ensures
        offset(0) == 0,
        forall|r: int| 0 <= r < ROWS ==> #[trigger] offset(r + 1) == offset(r) + COUNTS[r],
        forall|r: int| 0 <= r <= ROWS ==> 0 <= #[trigger] offset(r) <= NUM_LEDS,
        forall|r1: int, r2: int|
            0 <= r1 < r2 <= ROWS ==> #[trigger] offset(r1) + COUNTS[r1] <= #[trigger] offset(r2),
        offset(ROWS as int) == NUM_LEDS,
        forall|r: int| 0 <= r < ROWS ==> 0 < #[trigger] COUNTS[r] <= ROW_MAX,
{
    reveal_with_fuel(offset, 5);
}

/// Law: the chain is as long as the four rows together, and no row is longer than the
/// longest.
pub proof fn chain_holds_all_rows()
    ensures
        NUM_LEDS == offset(ROWS as int),
        forall|r: int| 0 <= r < ROWS ==> #[trigger] COUNTS[r] <= ROW_MAX,
{
    lemma_offsets();
}

/// Law: different places on the board are different pixels of the chain, all within it.
pub proof fn places_are_distinct_pixels(r1: int, p1: int, r2: int, p2: int)
    requires
        on_board(r1, p1),
        on_board(r2, p2),
    ensures
        0 <= phys(r1, p1) < NUM_LEDS,
        0 <= phys(r2, p2) < NUM_LEDS,
        phys(r1, p1) == phys(r2, p2) ==> r1 == r2 && p1 == p2,
{
    lemma_offsets();
}

/// Law: every pixel of the chain is a place on the board.
pub proof fn every_pixel_has_a_place(i: int) -> (place: (int, int))
    requires
        0 <= i < NUM_LEDS,
    ensures
        on_board(place.0, place.1),
        phys(place.0, place.1) == i,
{
    lemma_offsets();
    let r: int = if i < offset(1) {
        0
    } else if i < offset(2) {
        1
    } else if i < offset(3) {
        2
    } else {
        3
    };
    assert(offset(r + 1) == offset(r) + COUNTS[r]);
    if r % 2 == 0 {
        (r, i - offset(r))
    } else {
        (r, COUNTS[r] - 1 - (i - offset(r)))
    }
}

/// Law: the chain snakes. It runs from start to finish along an even row and crosses at the
/// finish; it runs back along an odd row and crosses at the start.
pub proof fn chain_snakes(r: int, p: int)
    requires
        on_board(r, p),
    ensures
        r % 2 == 0 && p + 1 < COUNTS[r] ==> phys(r, p + 1) == phys(r, p) + 1,
        r % 2 == 1 && p + 1 < COUNTS[r] ==> phys(r, p + 1) == phys(r, p) - 1,
        r % 2 == 0 && r + 1 < ROWS ==> phys(r + 1, COUNTS[r + 1] - 1) == phys(r, COUNTS[r] - 1) + 1,
        r % 2 == 1 && r + 1 < ROWS ==> phys(r + 1, 0) == phys(r, 0) + 1,
{
    lemma_offsets();
}

/// Prefix sums of the row lengths: where each row starts in the chain.
pub fn offsets() -> (o: [usize; ROWS])
    ensures
        forall|r: int| 0 <= r < ROWS ==> #[trigger] o[r] == offset(r),
{
    proof {
        lemma_offsets();
    }
    let mut o: [usize; ROWS] = [0usize; ROWS];
    let mut i: usize = 1;
    while i < ROWS
        invariant
            1 <= i <= ROWS,
            forall|r: int| 0 <= r < i ==> #[trigger] o[r] == offset(r),
            forall|r: int| 0 <= r <= ROWS ==> 0 <= #[trigger] offset(r) <= NUM_LEDS,
        decreases ROWS - i,
    {
        assert(offset(i as int) == offset(i - 1) + COUNTS[i - 1]);
        assert(o[i - 1] == offset(i - 1));
        o[i] = o[i - 1] + COUNTS[i - 1];
        i = i + 1;
    }
    o
}

/// Physical chain index of row `r` at position `p` from the start line.
pub fn phys_index(r: usize, p: usize) -> (i: usize)
    requires
        on_board(r as int, p as int),
    ensures
        i == phys(r as int, p as int),
        i < NUM_LEDS,
{
    proof {
        lemma_offsets();
    }
    let o: [usize; ROWS] = offsets();
    assert(o[r as int] == offset(r as int));
    if r % 2 == 0 {
        o[r] + p
    } else {
        o[r] + (COUNTS[r] - 1 - p)
    }
}

// ---- What each mode shows ----

/// How a lane's light moves. The curves themselves are the renderer's.
#[derive(Clone, Copy, PartialEq, Eq, Structural, Debug)]
pub enum Glow {
    /// Dim breathing, while homing.
    Breathe,
    /// The pulse of the selected duck.
    Pulse,
    /// The steady dim of the ducks that are not selected.
    Faint,
    /// The blink of the winner.
    Blink,
}

/// A lane's light: its colour at full brightness, and how it moves.
#[derive(Clone, Copy, PartialEq, Eq, Structural, Debug)]
pub struct Light {
    pub color: Rgb,
    pub glow: Glow,
}

/// What lights a lane in a mode. In the two marquee modes nothing does: the chase has the
/// whole board.
pub open spec fn light_of(mode: Mode, lane: int) -> Option<Light> {
    match mode {
        Mode::Home => Some(Light { color: Rgb { r: 255, g: 120, b: 0 }, glow: Glow::Breathe }),
        Mode::Select(sel) => Some(
            Light {
                color: color_of(lane),
                glow: if lane == sel {
                    Glow::Pulse
                } else {
                    Glow::Faint
                },
            },
        ),
        Mode::Winner(w) => if lane == w {
            Some(Light { color: color_of(lane), glow: Glow::Blink })
        } else {
            None
        },
        Mode::Tune { lane: active, .. } => Some(
            Light {
                color: color_of(lane),
                glow: if lane == active {
                    Glow::Pulse
                } else {
                    Glow::Faint
                },
            },
        ),
        Mode::Attract => None,
        Mode::Race => None,
    }
}

/// Pixels of a level bar on row `r`: that share of the row, rounded down.
pub open spec fn bar_of(pct: u8, r: int) -> int {
    if pct >= 100 {
        COUNTS[r] as int
    } else {
        COUNTS[r] * pct / 100
    }
}

/// How far along its row, from the start, a lane is lit in a mode: all the way, but for the
/// active lane in TUNE, whose row is a bar that shows its level.
pub open spec fn reach_of(mode: Mode, r: int) -> int {
    match mode {
        Mode::Tune { lane, pct } if lane == r => bar_of(pct, r),
        _ => COUNTS[r] as int,
    }
}

/// Law: the level bar fits its row, grows with the level, is full at full duty and empty at
/// none.
pub proof fn bar_follows_the_level(low: u8, high: u8, r: int)
    requires
        low <= high,
        0 <= r < ROWS,
    ensures
        0 <= bar_of(low, r) <= bar_of(high, r) <= COUNTS[r],
        bar_of(100, r) == COUNTS[r],
        bar_of(0, r) == 0,
{
    let n = COUNTS[r] as int;
    assert(low < 100 ==> 0 <= n * low / 100 <= n) by (nonlinear_arith)
        requires
            n >= 0,
    ;
    assert(low <= high < 100 ==> n * low / 100 <= n * high / 100 <= n) by (nonlinear_arith)
        requires
            n >= 0,
    ;
    assert(n * 0 / 100 == 0) by (nonlinear_arith);
}

/// How far along its row a lane is lit.
fn reach(mode: Mode, lane: usize) -> (n: usize)
    requires
        lane < LANES,
    ensures
        n == reach_of(mode, lane as int),
        n <= COUNTS[lane as int],
{
    match mode {
        Mode::Tune { lane: active, pct } => if active as usize == lane && pct < 100 {
            proof {
                lemma_offsets();
                bar_follows_the_level(pct, pct, lane as int);
                assert(COUNTS[lane as int] * pct <= ROW_MAX * 100) by (nonlinear_arith)
                    requires
                        COUNTS[lane as int] <= ROW_MAX,
                        pct < 100,
                ;
            }
            COUNTS[lane] * pct as usize / 100
        } else {
            COUNTS[lane]
        },
        _ => COUNTS[lane],
    }
}

/// The light of a lane in a mode.
pub fn lane_light(mode: Mode, lane: usize) -> (light: Option<Light>)
    requires
        lane < LANES,
    ensures
        light == light_of(mode, lane as int),
{
    match mode {
        Mode::Home => Some(Light { color: Rgb { r: 255, g: 120, b: 0 }, glow: Glow::Breathe }),
        Mode::Select(sel) => {
            let glow: Glow = if lane == sel as usize {
                Glow::Pulse
            } else {
                Glow::Faint
            };
            Some(Light { color: duck_color(lane), glow })
        },
        Mode::Winner(w) => if lane == w as usize {
            Some(Light { color: duck_color(lane), glow: Glow::Blink })
        } else {
            None
        },
        Mode::Tune { lane: active, .. } => {
            let glow: Glow = if lane == active as usize {
                Glow::Pulse
            } else {
                Glow::Faint
            };
            Some(Light { color: duck_color(lane), glow })
        },
        Mode::Attract => None,
        Mode::Race => None,
    }
}

/// How fast the marquee runs in a mode: milliseconds per pixel. `None` where there is none.
pub open spec fn chase_of(mode: Mode) -> Option<u64> {
    match mode {
        Mode::Attract => Some(CHASE_STEP_MS_ATTRACT),
        Mode::Race => Some(CHASE_STEP_MS_RACE),
        _ => None,
    }
}

/// The pace of the marquee in a mode, if it shows one.
pub fn chase_step(mode: Mode) -> (step_ms: Option<u64>)
    ensures
        step_ms == chase_of(mode),
{
    match mode {
        Mode::Attract => Some(CHASE_STEP_MS_ATTRACT),
        Mode::Race => Some(CHASE_STEP_MS_RACE),
        _ => None,
    }
}

/// What the board shows after a frame on which `posted` may have come.
pub open spec fn shown_next(shown: Mode, posted: Option<Mode>) -> Mode {
    match posted {
        Some(m) => m,
        None => shown,
    }
}

/// The mode to draw: the one posted since the last frame, or else the one already shown.
pub fn led_task(shown: Mode, posted: Option<Mode>) -> (mode: Mode)
    ensures
        mode == shown_next(shown, posted),
{
    match posted {
        Some(m) => m,
        None => shown,
    }
}

// ---- The board ----

/// Steps of the bulb-decay curve over one bulb spacing.
pub const CHASE_LUT_LEN: usize = 128;

/// The larger of two channel values.
pub open spec fn larger(a: u8, b: u8) -> u8 {
    if a < b {
        b
    } else {
        a
    }
}

/// Two lights on one pixel: the larger of each channel.
pub open spec fn lighter(a: Rgb, b: Rgb) -> Rgb {
    Rgb { r: larger(a.r, b.r), g: larger(a.g, b.g), b: larger(a.b, b.b) }
}

fn max(a: u8, b: u8) -> (m: u8)
    ensures
        m == larger(a, b),
{
    if a < b {
        b
    } else {
        a
    }
}

/// The frame buffer and its two tables.
pub struct LedController {
    pub fb: [Rgb; NUM_LEDS],
    /// Gamma correction, by channel value.
    pub gamma: [u8; 256],
    /// Brightness of a bulb by its age.
    pub chase: [u8; CHASE_LUT_LEN],
}

impl LedController {
    /// The pixel at position `p` of row `r`.
    pub open spec fn pixel(self, r: int, p: int) -> Rgb {
        self.fb[phys(r, p)]
    }

    /// A colour after gamma correction.
    pub open spec fn corrected(self, c: Rgb) -> Rgb {
        Rgb { r: self.gamma[c.r as int], g: self.gamma[c.g as int], b: self.gamma[c.b as int] }
    }

    /// The tables are those of `other`.
    pub open spec fn same_tables(self, other: LedController) -> bool {
        self.gamma == other.gamma && self.chase == other.chase
    }

    /// Every pixel is `picture(row, position)`.
    pub open spec fn shows(self, picture: spec_fn(int, int) -> Rgb) -> bool {
        forall|r: int, p: int| on_board(r, p) ==> #[trigger] self.pixel(r, p) == picture(r, p)
    }

    /// What a frame of a mode looks like, lanes lit in `lanes` and the chase in `chase`.
    pub open spec fn picture(self, mode: Mode, lanes: Seq<Rgb>, chase: Seq<Rgb>) -> spec_fn(
        int,
        int,
    ) -> Rgb {
        |r: int, p: int|
            if chase_of(mode) is Some {
                self.corrected(chase[p])
            } else if light_of(mode, r) is Some && p < reach_of(mode, r) {
                self.corrected(lanes[r])
            } else {
                dark()
            }
    }

    /// A dark board with the given tables.
    pub fn new(gamma: [u8; 256], chase: [u8; CHASE_LUT_LEN]) -> (leds: LedController)
        ensures
            leds.gamma == gamma,
            leds.chase == chase,
            leds.shows(|r: int, p: int| dark()),
    {
        proof {
            lemma_offsets();
        }
        LedController { fb: [Rgb { r: 0, g: 0, b: 0 };NUM_LEDS], gamma, chase }
    }

    /// Turns every pixel off.
    fn clear(&mut self)
        ensures
            final(self).shows(|r: int, p: int| dark()),
            final(self).same_tables(*old(self)),
            forall|i: int| 0 <= i < NUM_LEDS ==> #[trigger] final(self).fb[i] == dark(),
    {
        proof {
            lemma_offsets();
        }
        self.fb = [Rgb { r: 0, g: 0, b: 0 };NUM_LEDS];
    }

    /// Brightness of a bulb at a step of its decay.
    pub open spec fn bulb_at(self, step: int) -> u8 {
        self.chase[if step < CHASE_LUT_LEN {
            step
        } else {
            CHASE_LUT_LEN - 1
        }]
    }

    /// Brightness of a bulb at a step of its decay; past the last step it stays at the last.
    pub fn bulb(&self, step: usize) -> (level: u8)
        ensures
            level == self.bulb_at(step as int),
    {
        if step < CHASE_LUT_LEN {
            self.chase[step]
        } else {
            self.chase[CHASE_LUT_LEN - 1]
        }
    }

    /// Gamma-corrects a dimmed colour.
    pub fn scaled(&self, dimmed: Rgb) -> (c: Rgb)
        ensures
            c == self.corrected(dimmed),
    {
        Rgb {
            r: self.gamma[dimmed.r as usize],
            g: self.gamma[dimmed.g as usize],
            b: self.gamma[dimmed.b as usize],
        }
    }

    /// Lights one pixel, keeping what is brighter already.
    fn max_px(&mut self, idx: usize, c: Rgb)
        requires
            idx < NUM_LEDS,
        ensures
            final(self).fb@ == old(self).fb@.update(idx as int, lighter(old(self).fb[idx as int], c)),
            final(self).same_tables(*old(self)),
    {
        let p: Rgb = self.fb[idx];
        self.fb[idx] = Rgb { r: max(p.r, c.r), g: max(p.g, c.g), b: max(p.b, c.b) };
    }

    /// Lights one place on the board.
    fn light_place(&mut self, r: usize, p: usize, c: Rgb)
        requires
            on_board(r as int, p as int),
        ensures
            final(self).shows(
                |r2: int, p2: int|
                    if r2 == r && p2 == p {
                        lighter(old(self).pixel(r2, p2), c)
                    } else {
                        old(self).pixel(r2, p2)
                    },
            ),
            final(self).same_tables(*old(self)),
    {
        let idx: usize = phys_index(r, p);
        self.max_px(idx, c);
        proof {
            assert forall|r2: int, p2: int| on_board(r2, p2) implies #[trigger] self.pixel(r2, p2)
                == (if r2 == r && p2 == p {
                lighter(old(self).pixel(r2, p2), c)
            } else {
                old(self).pixel(r2, p2)
            }) by {
                places_are_distinct_pixels(r as int, p as int, r2, p2);
            }
        }
    }

    /// Draws the marquee: every row the same, in step, one dimmed colour per position.
    pub fn draw_chase(&mut self, dimmed: &[Rgb; ROW_MAX])
        ensures
            final(self).shows(
                |r: int, p: int| lighter(old(self).pixel(r, p), old(self).corrected(dimmed[p])),
            ),
            final(self).same_tables(*old(self)),
    {
        let mut row: usize = 0;
        while row < ROWS
            invariant
                row <= ROWS,
                self.same_tables(*old(self)),
                self.shows(
                    |r: int, p: int|
                        if r < row {
                            lighter(old(self).pixel(r, p), old(self).corrected(dimmed[p]))
                        } else {
                            old(self).pixel(r, p)
                        },
                ),
            decreases ROWS - row,
        {
            proof {
                lemma_offsets();
            }
            let mut p: usize = 0;
            while p < COUNTS[row]
                invariant
                    row < ROWS,
                    COUNTS[row as int] <= ROW_MAX,
                    p <= COUNTS[row as int],
                    self.same_tables(*old(self)),
                    self.shows(
                        |r: int, q: int|
                            if r < row || (r == row && q < p) {
                                lighter(old(self).pixel(r, q), old(self).corrected(dimmed[q]))
                            } else {
                                old(self).pixel(r, q)
                            },
                    ),
                decreases COUNTS[row as int] - p,
            {
                let c: Rgb = self.scaled(dimmed[p]);
                let ghost before = *self;
                self.light_place(row, p, c);
                assert forall|r: int, q: int| on_board(r, q) implies #[trigger] self.pixel(r, q)
                    == (if r < row || (r == row && q < p + 1) {
                    lighter(old(self).pixel(r, q), old(self).corrected(dimmed[q]))
                } else {
                    old(self).pixel(r, q)
                }) by {
                    assert(before.pixel(r, q) == before.pixel(r, q));
                }
                p = p + 1;
            }
            row = row + 1;
        }
    }

    /// Fills one lane's row with a dimmed colour, as far as position `n`.
    fn fill_to(&mut self, lane: usize, n: usize, dimmed: Rgb)
        requires
            lane < LANES,
            n <= COUNTS[lane as int],
        ensures
            final(self).shows(
                |r: int, p: int|
                    if r == lane && p < n {
                        lighter(old(self).pixel(r, p), old(self).corrected(dimmed))
                    } else {
                        old(self).pixel(r, p)
                    },
            ),
            final(self).same_tables(*old(self)),
    {
        let c: Rgb = self.scaled(dimmed);
        let mut p: usize = 0;
        while p < n
            invariant
                lane < LANES,
                p <= n <= COUNTS[lane as int],
                c == old(self).corrected(dimmed),
                self.same_tables(*old(self)),
                self.shows(
                    |r: int, q: int|
                        if r == lane && q < p {
                            lighter(old(self).pixel(r, q), c)
                        } else {
                            old(self).pixel(r, q)
                        },
                ),
            decreases n - p,
        {
            let ghost before = *self;
            self.light_place(lane, p, c);
            assert forall|r: int, q: int| on_board(r, q) implies #[trigger] self.pixel(r, q) == (if r
                == lane && q < p + 1 {
                lighter(old(self).pixel(r, q), c)
            } else {
                old(self).pixel(r, q)
            }) by {
                assert(before.pixel(r, q) == before.pixel(r, q));
            }
            p = p + 1;
        }
    }

    /// Fills one lane's row with a dimmed colour.
    pub fn fill_lane(&mut self, lane: usize, dimmed: Rgb)
        requires
            lane < LANES,
        ensures
            final(self).shows(
                |r: int, p: int|
                    if r == lane {
                        lighter(old(self).pixel(r, p), old(self).corrected(dimmed))
                    } else {
                        old(self).pixel(r, p)
                    },
            ),
            final(self).same_tables(*old(self)),
    {
        self.fill_to(lane, COUNTS[lane], dimmed);
    }

    /// Draws one frame of a mode. `lanes` holds each lane's light, dimmed as its glow asks;
    /// `chase` holds the marquee's colour, dimmed for each position.
    pub fn render(&mut self, mode: Mode, lanes: &[Rgb; LANES], chase: &[Rgb; ROW_MAX])
        requires
            mode matches Mode::Winner(w) ==> w < LANES,
        ensures
            final(self).shows(old(self).picture(mode, lanes@, chase@)),
            final(self).same_tables(*old(self)),
    {
        self.clear();
        if chase_step(mode).is_some() {
            self.draw_chase(chase);
            return ;
        }
        let mut l: usize = 0;
        while l < LANES
            invariant
                l <= LANES,
                chase_of(mode) is None,
                self.same_tables(*old(self)),
                self.shows(
                    |r: int, p: int|
                        if r < l {
                            old(self).picture(mode, lanes@, chase@)(r, p)
                        } else {
                            dark()
                        },
                ),
            decreases LANES - l,
        {
            let ghost before = *self;
            if lane_light(mode, l).is_some() {
                self.fill_to(l, reach(mode, l), lanes[l]);
            }
            assert forall|r: int, p: int| on_board(r, p) implies #[trigger] self.pixel(r, p) == (if r
                < l + 1 {
                old(self).picture(mode, lanes@, chase@)(r, p)
            } else {
                dark()
            }) by {
                assert(before.pixel(r, p) == before.pixel(r, p));
            }
            l = l + 1;
        }
    }
}

/// Law: lighting is monotone, and the order of two lights on a pixel does not matter.
pub proof fn lights_add_up(a: Rgb, b: Rgb, c: Rgb)
    ensures
        lighter(a, b) == lighter(b, a),
        lighter(lighter(a, b), c) == lighter(a, lighter(b, c)),
        lighter(a, a) == a,
        lighter(dark(), a) == a,
        lighter(a, b).r >= a.r,
        lighter(a, b).g >= a.g,
        lighter(a, b).b >= a.b,
{
}

/// Law: the picture decides every pixel of the chain.
pub proof fn picture_fixes_the_board(
    a: LedController,
    b: LedController,
    picture: spec_fn(int, int) -> Rgb,
)
    requires
        a.shows(picture),
        b.shows(picture),
    ensures
        a.fb@ == b.fb@,
{
    assert forall|i: int| 0 <= i < NUM_LEDS implies a.fb[i] == b.fb[i] by {
        let place = every_pixel_has_a_place(i);
        assert(a.pixel(place.0, place.1) == b.pixel(place.0, place.1));
    }
    assert(a.fb@ =~= b.fb@);
}

/// Law: in a marquee mode the whole board reads as one sign: every row shows the same at the
/// same distance from the start, in step.
pub proof fn marquee_rows_are_in_step(
    before: LedController,
    after: LedController,
    mode: Mode,
    lanes: Seq<Rgb>,
    chase: Seq<Rgb>,
    r1: int,
    r2: int,
    p: int,
)
    requires
        chase_of(mode) is Some,
        after.shows(before.picture(mode, lanes, chase)),
        on_board(r1, p),
        on_board(r2, p),
    ensures
        after.pixel(r1, p) == after.pixel(r2, p),
{
}

/// Law: only the winner's row is lit while a winner is shown.
pub proof fn only_the_winner_is_lit(
    before: LedController,
    after: LedController,
    w: u8,
    lanes: Seq<Rgb>,
    chase: Seq<Rgb>,
    r: int,
    p: int,
)
    requires
        after.shows(before.picture(Mode::Winner(w), lanes, chase)),
        on_board(r, p),
        r != w,
    ensures
        after.pixel(r, p) == dark(),
{
}

/// Law: in TUNE the active row is a bar as long as its level says, and dark beyond it.
pub proof fn active_row_is_a_bar(
    before: LedController,
    after: LedController,
    lane: u8,
    pct: u8,
    lanes: Seq<Rgb>,
    chase: Seq<Rgb>,
    p: int,
)
    requires
        after.shows(before.picture(Mode::Tune { lane, pct }, lanes, chase)),
        on_board(lane as int, p),
    ensures
        after.pixel(lane as int, p) == if p < bar_of(pct, lane as int) {
            before.corrected(lanes[lane as int])
        } else {
            dark()
        },
{
}

// ---- Bring-up: the wiring walk ----

/// How long the rows of the second pass stay lit, in ticks.
pub const WALK_ROW_TICKS: usize = 40;

/// Where the wiring walk is. It goes through the chain pixel by pixel, then shows each row in
/// its duck's colour, then walks each row from its start, and begins again.
#[derive(Clone, Copy, PartialEq, Eq, Structural, Debug)]
pub enum Walk {
    Chain(usize),
    Rows(usize),
    Dot { row: usize, pos: usize },
}

/// A third of each channel.
pub open spec fn third(c: Rgb) -> Rgb {
    Rgb { r: c.r / 3, g: c.g / 3, b: c.b / 3 }
}

impl Walk {
    /// The step exists.
    pub open spec fn wf(self) -> bool {
        match self {
            Walk::Chain(i) => i < NUM_LEDS,
            Walk::Rows(k) => k < WALK_ROW_TICKS,
            Walk::Dot { row, pos } => on_board(row as int, pos as int),
        }
    }

    /// The step after this one.
    pub open spec fn following(self) -> Walk {
        match self {
            Walk::Chain(i) => if i + 1 < NUM_LEDS {
                Walk::Chain((i + 1) as usize)
            } else {
                Walk::Rows(0)
            },
            Walk::Rows(k) => if k + 1 < WALK_ROW_TICKS {
                Walk::Rows((k + 1) as usize)
            } else {
                Walk::Dot { row: 0, pos: 0 }
            },
            Walk::Dot { row, pos } => if pos + 1 < COUNTS[row as int] {
                Walk::Dot { row, pos: (pos + 1) as usize }
            } else if row + 1 < ROWS {
                Walk::Dot { row: (row + 1) as usize, pos: 0 }
            } else {
                Walk::Chain(0)
            },
        }
    }

    /// The place of the step in a round.
    pub open spec fn number(self) -> int {
        match self {
            Walk::Chain(i) => i as int,
            Walk::Rows(k) => NUM_LEDS + k,
            Walk::Dot { row, pos } => NUM_LEDS + WALK_ROW_TICKS + offset(row as int) + pos,
        }
    }

    /// The first step.
    pub fn start() -> (walk: Walk)
        ensures
            walk == Walk::Chain(0),
            walk.wf(),
    {
        Walk::Chain(0)
    }

    /// Moves on.
    pub fn next(self) -> (walk: Walk)
        requires
            self.wf(),
        ensures
            walk == self.following(),
            walk.wf(),
    {
        proof {
            lemma_offsets();
        }
        match self {
            Walk::Chain(i) => if i + 1 < NUM_LEDS {
                Walk::Chain(i + 1)
            } else {
                Walk::Rows(0)
            },
            Walk::Rows(k) => if k + 1 < WALK_ROW_TICKS {
                Walk::Rows(k + 1)
            } else {
                Walk::Dot { row: 0, pos: 0 }
            },
            Walk::Dot { row, pos } => if pos + 1 < COUNTS[row] {
                Walk::Dot { row, pos: pos + 1 }
            } else if row + 1 < ROWS {
                Walk::Dot { row: row + 1, pos: 0 }
            } else {
                Walk::Chain(0)
            },
        }
    }

    /// How long the step is held.
    pub fn hold_ms(self) -> (ms: u64)
        ensures
            ms == match self {
                Walk::Chain(_) => 45u64,
                Walk::Rows(_) => 50u64,
                Walk::Dot { .. } => 40u64,
            },
    {
        match self {
            Walk::Chain(_) => 45,
            Walk::Rows(_) => 50,
            Walk::Dot { .. } => 40,
        }
    }
}

impl Walk {
    /// The step shows something new. The rows of the second pass are drawn once and stay.
    pub fn is_new(self) -> (new: bool)
        ensures
            new == !(self matches Walk::Rows(k) && k > 0),
    {
        match self {
            Walk::Rows(k) => k == 0,
            _ => true,
        }
    }
}

/// Law: a step that is not new shows what the step before it showed.
pub proof fn old_steps_show_the_same(walk: Walk)
    requires
        walk.wf(),
        walk.following() matches Walk::Rows(k) && k > 0,
    ensures
        LedController::walk_picture(walk.following()) =~= LedController::walk_picture(walk),
{
    assert forall|r: int, p: int|
        LedController::walk_picture(walk.following())(r, p) == #[trigger] LedController::walk_picture(
            walk,
        )(r, p) by {}
}

/// Steps of one round of the walk.
pub open spec fn walk_len() -> int {
    NUM_LEDS + WALK_ROW_TICKS + NUM_LEDS
}

/// Law: the walk takes its steps in order and comes round: the step after the one numbered
/// `n` is numbered one more, and after the last comes the first.
pub proof fn walk_comes_round(walk: Walk)
    requires
        walk.wf(),
    ensures
        walk.following().wf(),
        0 <= walk.number() < walk_len(),
        walk.following().number() == if walk.number() + 1 < walk_len() {
            walk.number() + 1
        } else {
            0
        },
{
    lemma_offsets();
}

/// Law: every step comes once in a round.
pub proof fn walk_steps_are_distinct(a: Walk, b: Walk)
    requires
        a.wf(),
        b.wf(),
        a.number() == b.number(),
    ensures
        a == b,
{
    lemma_offsets();
}

/// A row's colour in the wiring walk: its duck's, dimmed.
fn row_color(row: usize) -> (c: Rgb)
    requires
        row < ROWS,
    ensures
        c == third(color_of(row as int)),
{
    let c: Rgb = duck_color(row);
    Rgb { r: c.r / 3, g: c.g / 3, b: c.b / 3 }
}

impl LedController {
    /// What a step of the wiring walk looks like.
    pub open spec fn walk_picture(walk: Walk) -> spec_fn(int, int) -> Rgb {
        |r: int, p: int|
            match walk {
                Walk::Chain(i) => if phys(r, p) == i {
                    Rgb { r: 60, g: 60, b: 60 }
                } else {
                    dark()
                },
                Walk::Rows(_) => third(color_of(r)),
                Walk::Dot { row, pos } => if r == row && p == pos {
                    third(color_of(r))
                } else {
                    dark()
                },
            }
    }

    /// Draws one step of the wiring walk.
    pub fn test_walk(&mut self, walk: Walk)
        requires
            walk.wf(),
        ensures
            final(self).shows(LedController::walk_picture(walk)),
            final(self).same_tables(*old(self)),
    {
        self.clear();
        match walk {
            Walk::Chain(i) => {
                self.fb[i] = Rgb { r: 60, g: 60, b: 60 };
                proof {
                    assert forall|r: int, p: int| on_board(r, p) implies #[trigger] self.pixel(r, p)
                        == LedController::walk_picture(walk)(r, p) by {
                        places_are_distinct_pixels(r, p, r, p);
                    }
                }
            },
            Walk::Rows(_) => {
                self.draw_rows();
            },
            Walk::Dot { row, pos } => {
                let c: Rgb = row_color(row);
                self.light_place(row, pos, c);
            },
        }
    }

    /// Lights every row of a dark board in its duck's colour, dimmed.
    fn draw_rows(&mut self)
        requires
            old(self).shows(|r: int, p: int| dark()),
        ensures
            final(self).shows(|r: int, p: int| third(color_of(r))),
            final(self).same_tables(*old(self)),
    {
        let mut row: usize = 0;
        while row < ROWS
            invariant
                row <= ROWS,
                self.same_tables(*old(self)),
                self.shows(
                    |r: int, p: int|
                        if r < row {
                            third(color_of(r))
                        } else {
                            dark()
                        },
                ),
            decreases ROWS - row,
        {
            let c: Rgb = row_color(row);
            let mut p: usize = 0;
            while p < COUNTS[row]
                invariant
                    row < ROWS,
                    p <= COUNTS[row as int],
                    c == third(color_of(row as int)),
                    self.same_tables(*old(self)),
                    self.shows(
                        |r: int, q: int|
                            if r < row || (r == row && q < p) {
                                third(color_of(r))
                            } else {
                                dark()
                            },
                    ),
                decreases COUNTS[row as int] - p,
            {
                let ghost before = *self;
                self.light_place(row, p, c);
                assert forall|r: int, q: int| on_board(r, q) implies #[trigger] self.pixel(r, q)
                    == (if r < row || (r == row && q < p + 1) {
                    third(color_of(r))
                } else {
                    dark()
                }) by {
                    assert(before.pixel(r, q) == before.pixel(r, q));
                }
                p = p + 1;
            }
            row = row + 1;
        }
    }
}

// ---- What a frame looks like, pixel by pixel ----

/// Law: the board is its rows and nothing else, and the data enters at the start of the first
/// row. With `chain_snakes` this fixes where every place of the board is on the chain.
pub proof fn board_is_its_rows(r: int, p: int)
    ensures
        on_board(r, p) <==> 0 <= r < ROWS && 0 <= p < COUNTS[r],
        phys(0, 0) == 0,
{
    lemma_offsets();
}

/// Law: a board that shows a picture has every pixel of it, wherever the chain puts it.
pub proof fn shown_is_on_every_pixel(
    leds: LedController,
    picture: spec_fn(int, int) -> Rgb,
    r: int,
    p: int,
)
    requires
        leds.shows(picture),
        0 <= r < ROWS,
        0 <= p < COUNTS[r],
    ensures
        leds.fb[phys(r, p)] == picture(r, p),
        leds.pixel(r, p) == picture(r, p),
{
    assert(leds.pixel(r, p) == picture(r, p));
}

/// Law: gamma correction looks each channel up in the table by its own value, and a frame
/// leaves both tables alone.
pub proof fn gamma_is_by_channel(leds: LedController, other: LedController, c: Rgb)
    ensures
        leds.corrected(c).r == leds.gamma[c.r as int],
        leds.corrected(c).g == leds.gamma[c.g as int],
        leds.corrected(c).b == leds.gamma[c.b as int],
        leds.same_tables(other) <==> leds.gamma == other.gamma && leds.chase == other.chase,
        dark() == (Rgb { r: 0, g: 0, b: 0 }),
{
}

/// Law: two lights on a pixel give, channel by channel, the brighter of the two.
pub proof fn brighter_channel_wins(a: Rgb, b: Rgb)
    ensures
        lighter(a, b).r == a.r || lighter(a, b).r == b.r,
        lighter(a, b).g == a.g || lighter(a, b).g == b.g,
        lighter(a, b).b == a.b || lighter(a, b).b == b.b,
        lighter(a, b).r >= a.r && lighter(a, b).r >= b.r,
        lighter(a, b).g >= a.g && lighter(a, b).g >= b.g,
        lighter(a, b).b >= a.b && lighter(a, b).b >= b.b,
{
}

/// Law: in both marquee modes the whole board shows the chase: every pixel of every row is
/// the gamma-corrected chase at its distance from the start.
pub proof fn marquee_fills_the_board(
    before: LedController,
    after: LedController,
    mode: Mode,
    lanes: Seq<Rgb>,
    chase: Seq<Rgb>,
    r: int,
    p: int,
)
    requires
        mode is Attract || mode is Race,
        after.shows(before.picture(mode, lanes, chase)),
        0 <= r < ROWS,
        0 <= p < COUNTS[r],
    ensures
        after.fb[phys(r, p)] == (Rgb {
            r: before.gamma[chase[p].r as int],
            g: before.gamma[chase[p].g as int],
            b: before.gamma[chase[p].b as int],
        }),
{
    assert(after.pixel(r, p) == before.picture(mode, lanes, chase)(r, p));
}

/// Law: while homing and while a duck is being picked, every row is filled from end to end
/// with its lane's light.
pub proof fn every_row_is_lit(
    before: LedController,
    after: LedController,
    mode: Mode,
    lanes: Seq<Rgb>,
    chase: Seq<Rgb>,
    r: int,
    p: int,
)
    requires
        mode is Home || mode is Select,
        after.shows(before.picture(mode, lanes, chase)),
        0 <= r < ROWS,
        0 <= p < COUNTS[r],
    ensures
        after.fb[phys(r, p)] == (Rgb {
            r: before.gamma[lanes[r].r as int],
            g: before.gamma[lanes[r].g as int],
            b: before.gamma[lanes[r].b as int],
        }),
{
    assert(after.pixel(r, p) == before.picture(mode, lanes, chase)(r, p));
}

/// Law: a winner's row is filled from end to end with its light, and every other row is dark.
pub proof fn winner_fills_its_row(
    before: LedController,
    after: LedController,
    w: u8,
    lanes: Seq<Rgb>,
    chase: Seq<Rgb>,
    r: int,
    p: int,
)
    requires
        after.shows(before.picture(Mode::Winner(w), lanes, chase)),
        0 <= r < ROWS,
        0 <= p < COUNTS[r],
    ensures
        r == w ==> after.fb[phys(r, p)] == (Rgb {
            r: before.gamma[lanes[r].r as int],
            g: before.gamma[lanes[r].g as int],
            b: before.gamma[lanes[r].b as int],
        }),
        r != w ==> after.fb[phys(r, p)] == (Rgb { r: 0, g: 0, b: 0 }),
{
    assert(after.pixel(r, p) == before.picture(Mode::Winner(w), lanes, chase)(r, p));
}

/// Law: in TUNE the active row is lit at a place exactly when the place's share of the row is
/// below the level, and the other rows are filled from end to end.
pub proof fn tune_lights_up_to_the_level(
    before: LedController,
    after: LedController,
    lane: u8,
    pct: u8,
    lanes: Seq<Rgb>,
    chase: Seq<Rgb>,
    r: int,
    p: int,
)
    requires
        after.shows(before.picture(Mode::Tune { lane, pct }, lanes, chase)),
        0 <= r < ROWS,
        0 <= p < COUNTS[r],
    ensures
        after.fb[phys(r, p)] == if r != lane || 100 * (p + 1) <= COUNTS[r] * pct {
            Rgb {
                r: before.gamma[lanes[r].r as int],
                g: before.gamma[lanes[r].g as int],
                b: before.gamma[lanes[r].b as int],
            }
        } else {
            Rgb { r: 0, g: 0, b: 0 }
        },
{
    assert(after.pixel(r, p) == before.picture(Mode::Tune { lane, pct }, lanes, chase)(r, p));
    let n = COUNTS[r] as int;
    let x: int = n * pct;
    assert(pct >= 100 ==> x >= 100 * n) by (nonlinear_arith)
        requires
            x == n * pct,
            n >= 0,
    ;
}

/// Law: the level bar is the level's share of its row to within one pixel, and at full duty
/// or more the whole row.
pub proof fn bar_is_the_share(pct: u8, r: int)
    requires
        0 <= r < ROWS,
    ensures
        pct <= 100 ==> 100 * bar_of(pct, r) <= COUNTS[r] * pct < 100 * (bar_of(pct, r) + 1),
        pct >= 100 ==> bar_of(pct, r) == COUNTS[r],
{
    let n = COUNTS[r] as int;
    let x: int = n * pct;
    assert(pct == 100 ==> x == 100 * n) by (nonlinear_arith)
        requires
            x == n * pct,
    ;
}

/// Law: a lane is lit from end to end in every mode but its own in TUNE.
pub proof fn rows_are_lit_to_the_end(mode: Mode, r: int)
    requires
        0 <= r < ROWS,
        !(mode matches Mode::Tune { lane, .. } && lane == r),
    ensures
        reach_of(mode, r) == COUNTS[r],
{
}

/// Law: homing breathes amber on every lane; a pick pulses in its duck's colour and the other
/// ducks stay faint in theirs, and so it is in TUNE with the active lane; a winner blinks
/// alone; and the two marquee modes leave the lanes to the chase.
pub proof fn lights_fit_the_mode(lane: int, sel: u8, pct: u8)
    requires
        0 <= lane < LANES,
    ensures
        light_of(Mode::Home, lane) == Some(
            Light { color: Rgb { r: 255, g: 120, b: 0 }, glow: Glow::Breathe },
        ),
        lane == sel ==> light_of(Mode::Select(sel), lane) == Some(
            Light { color: color_of(lane), glow: Glow::Pulse },
        ),
        lane != sel ==> light_of(Mode::Select(sel), lane) == Some(
            Light { color: color_of(lane), glow: Glow::Faint },
        ),
        light_of(Mode::Tune { lane: sel, pct }, lane) == light_of(Mode::Select(sel), lane),
        lane == sel ==> light_of(Mode::Winner(sel), lane) == Some(
            Light { color: color_of(lane), glow: Glow::Blink },
        ),
        lane != sel ==> light_of(Mode::Winner(sel), lane) is None,
        light_of(Mode::Attract, lane) is None,
        light_of(Mode::Race, lane) is None,
{
}

/// Law: the marquee runs in attract and in a race, faster in the race, and in no other mode.
pub proof fn marquee_is_faster_in_a_race(mode: Mode)
    ensures
        chase_of(mode) is Some <==> mode is Attract || mode is Race,
        chase_of(Mode::Attract) == Some(CHASE_STEP_MS_ATTRACT),
        chase_of(Mode::Race) == Some(CHASE_STEP_MS_RACE),
        0 < CHASE_STEP_MS_RACE < CHASE_STEP_MS_ATTRACT,
{
}

/// Law: the wiring walk lights what it says: one pixel of the chain in grey, or every row in
/// its duck's colour, or one place in its row's colour; the colours at a third, and all else
/// dark.
pub proof fn walk_lights_what_it_says(leds: LedController, walk: Walk, r: int, p: int)
    requires
        leds.shows(LedController::walk_picture(walk)),
        0 <= r < ROWS,
        0 <= p < COUNTS[r],
    ensures
        match walk {
            Walk::Chain(i) => leds.fb[phys(r, p)] == if phys(r, p) == i {
                Rgb { r: 60, g: 60, b: 60 }
            } else {
                Rgb { r: 0, g: 0, b: 0 }
            },
            Walk::Rows(_) => {
                &&& leds.fb[phys(r, p)].r == color_of(r).r / 3
                &&& leds.fb[phys(r, p)].g == color_of(r).g / 3
                &&& leds.fb[phys(r, p)].b == color_of(r).b / 3
            },
            Walk::Dot { row, pos } => if r == row && p == pos {
                &&& leds.fb[phys(r, p)].r == color_of(r).r / 3
                &&& leds.fb[phys(r, p)].g == color_of(r).g / 3
                &&& leds.fb[phys(r, p)].b == color_of(r).b / 3
            } else {
                leds.fb[phys(r, p)] == (Rgb { r: 0, g: 0, b: 0 })
            },
        },
{
    assert(leds.pixel(r, p) == LedController::walk_picture(walk)(r, p));
}

/// Law: the walk's steps are the pixels of the chain, the ticks of the row pass, and the
/// places of the board; it goes along each, and from the end of one on to the next.
pub proof fn walk_goes_pass_by_pass(i: usize, row: usize, pos: usize)
    ensures
        Walk::Chain(i).wf() <==> i < NUM_LEDS,
        Walk::Rows(i).wf() <==> i < WALK_ROW_TICKS,
        (Walk::Dot { row, pos }).wf() <==> row < ROWS && pos < COUNTS[row as int],
        i + 1 < NUM_LEDS ==> Walk::Chain(i).following() == Walk::Chain((i + 1) as usize),
        i + 1 == NUM_LEDS ==> Walk::Chain(i).following() == Walk::Rows(0),
        i + 1 < WALK_ROW_TICKS ==> Walk::Rows(i).following() == Walk::Rows((i + 1) as usize),
        i + 1 == WALK_ROW_TICKS ==> Walk::Rows(i).following() == (Walk::Dot { row: 0, pos: 0 }),
        row < ROWS && pos + 1 < COUNTS[row as int] ==> (Walk::Dot { row, pos }).following() == (
        Walk::Dot { row, pos: (pos + 1) as usize }),
        row + 1 < ROWS && pos + 1 == COUNTS[row as int] ==> (Walk::Dot { row, pos }).following()
            == (Walk::Dot { row: (row + 1) as usize, pos: 0 }),
        row + 1 == ROWS && pos + 1 == COUNTS[row as int] ==> (Walk::Dot { row, pos }).following()
            == Walk::Chain(0),
{
}

/// Law: a bulb's brightness is read off the decay table at its step, and stays at the table's
/// end after it; and the board keeps its mode until another is posted, which it takes at once.
pub proof fn table_and_mode_are_taken_as_they_are(
    leds: LedController,
    step: int,
    shown: Mode,
    posted: Mode,
)
    requires
        0 <= step,
    ensures
        step < CHASE_LUT_LEN ==> leds.bulb_at(step) == leds.chase[step],
        step >= CHASE_LUT_LEN ==> leds.bulb_at(step) == leds.chase[CHASE_LUT_LEN - 1],
        shown_next(shown, Some(posted)) == posted,
        shown_next(shown, None) == shown,
{
}

} // verus!
