//! Central tuning constants and the LED layout: the one place to change the feel.

use vstd::prelude::*;

verus! {

/// Number of lanes, and of ducks.
pub const LANES: usize = 4;

// ---- Motor PWM ----

/// PWM period. At 125 MHz and divider 1 this is about 20 kHz, above audible whine.
pub const PWM_TOP: u16 = 6249;

/// Lowest duty a moving motor is ever given, in percent.
pub const FLOOR_PCT: u8 = 70;

/// Brief high duty at launch, to break static friction.
pub const KICK_PCT: u8 = 85;

pub const KICK_MS: u64 = 60;

/// Duty of the shared reverse line while homing.
pub const HOMING_PCT: u8 = 65;

/// Per-lane baseline before any calibration.
pub const BASE_DEFAULT_PCT: u8 = 70;

/// Random speed spread, as a percentage of the lane's own baseline.
pub const SPEED_SPREAD_PCT: u8 = 20;

// ---- In-race speed variation ----

/// A running segment lasts a random time in this range.
pub const SEGMENT_MIN_MS: u64 = 200;

pub const SEGMENT_MAX_MS: u64 = 400;

/// Chance, in percent, that a re-roll stalls the lane instead of giving it a new speed.
pub const STALL_CHANCE_PCT: u32 = 30;

/// A stall lasts a random time in this range.
pub const STALL_MIN_MS: u64 = 100;

pub const STALL_MAX_MS: u64 = 300;

/// A lane leaving a stall gets at least `KICK_PCT` for this long.
pub const RESUME_KICK_MS: u64 = 90;

// ---- Boot ----

/// One-shot forward nudge at power-up, before the first homing pass, so that every gantry
/// arrives at its home switch with momentum. Zero milliseconds turns it off.
pub const BOOT_NUDGE_PCT: u8 = 85;

pub const BOOT_NUDGE_MS: u64 = 200;

// ---- Timing ----

/// Beat between GO and the launch: lights and music lead the ducks.
pub const RACE_START_DELAY_MS: u64 = 1_000;

pub const RACE_TIMEOUT_MS: u64 = 12_000;

pub const RESET_TIMEOUT_MS: u64 = 10_000;

pub const WINNER_SHOW_MS: u64 = 4_000;

pub const DEBOUNCE_MS: u64 = 25;

/// LED frame, and the re-roll tick of a race.
pub const FRAME_MS: u64 = 30;

pub const WATCHDOG_MS: u64 = 8_000;

/// Duty of the bring-up jog and single-lane modes.
pub const JOG_DUTY_PCT: u8 = 80;

// ---- LED layout: four serpentine rows, one per lane ----

pub const ROWS: usize = LANES;

/// Pixels in each row: measure the strips and edit these.
pub const ROW_0: usize = 39;

pub const ROW_1: usize = 39;

pub const ROW_2: usize = 39;

pub const ROW_3: usize = 39;

pub const COUNTS: [usize; ROWS] = [ROW_0, ROW_1, ROW_2, ROW_3];

/// Room for the longest row; no row may have more pixels than this.
pub const ROW_MAX: usize = 39;

/// Pixels in the whole chain.
pub const NUM_LEDS: usize = ROW_0 + ROW_1 + ROW_2 + ROW_3;

// ---- Marquee chase ----

/// One bright bulb every this many pixels along each row.
pub const CHASE_SPACING: usize = 5;

/// Time for the chase to advance one pixel during a race.
pub const CHASE_STEP_MS_RACE: u64 = 55;

/// The same chase, slower, while idle.
pub const CHASE_STEP_MS_ATTRACT: u64 = 150;

/// The PWM compare value of a duty percentage: that share of the period, rounded down.
pub open spec fn compare_of(pct: u8) -> u16 {
    (PWM_TOP * pct / 100) as u16
}

/// Converts a duty percentage to a PWM compare value.
pub fn pct_to_compare(pct: u8) -> (compare: u16)
    ensures
        compare == compare_of(pct),
        compare as int == PWM_TOP * pct / 100,
{
    assert(0 <= PWM_TOP * pct / 100 <= u16::MAX) by (nonlinear_arith)
        requires
            0 <= PWM_TOP <= 100 * 257,
            pct <= 255,
    ;
    assert(PWM_TOP * pct <= u32::MAX) by (nonlinear_arith);
    (PWM_TOP as u32 * pct as u32 / 100) as u16
}

/// Law: a higher duty never gives a lower compare value; no duty is off, any other is not,
/// and full duty is the whole period.
pub proof fn compare_is_monotone(low: u8, high: u8)
    requires
        low <= high,
    ensures
        compare_of(low) <= compare_of(high),
        compare_of(0) == 0,
        low >= 1 ==> compare_of(low) > 0,
        compare_of(100) == PWM_TOP,
{
    assert(0 <= PWM_TOP * low / 100 <= PWM_TOP * high / 100 <= u16::MAX) by (nonlinear_arith)
        requires
            0 <= PWM_TOP <= 100 * 257,
            low <= high <= 255,
    ;
    assert(low >= 1 ==> PWM_TOP * low / 100 >= 1) by (nonlinear_arith)
        requires
            PWM_TOP >= 100,
    ;
    assert(PWM_TOP * 100 / 100 == PWM_TOP) by (nonlinear_arith);
    assert(PWM_TOP * 0 / 100 == 0) by (nonlinear_arith);
}

/// Law: the compare value is the duty's share of the period to within one count: a hundred
/// times it is no more than the period times the duty, and one count more would be too much.
pub proof fn compare_is_the_share(pct: u8)
    ensures
        100 * compare_of(pct) <= PWM_TOP * pct,
        PWM_TOP * pct < 100 * (compare_of(pct) + 1),
{
    let x: int = PWM_TOP * pct;
    assert(0 <= x <= 6_553_500) by (nonlinear_arith)
        requires
            x == PWM_TOP * pct,
            0 <= PWM_TOP <= 25_700,
            0 <= pct <= 255,
    ;
}

} // verus!
