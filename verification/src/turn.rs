//! One turn of a state machine: what it reads of the world, and what it asks for.
//!
//! The firmware runs a loop. It feeds the watchdog, takes a turn, does what the turn asks, in
//! the order drain, lights, sound, flash, motors, then waits as it says, and hands what the
//! wait gave to the next turn.

use crate::audio::Sound;
use crate::calibrate::RECORD_LEN;
use crate::config::{LANES, WATCHDOG_MS};
use crate::inputs::Levels;
use crate::leds::Mode;
use crate::race::Draw;
use vstd::prelude::*;

verus! {

/// Longest wait for a player before the watchdog is fed again.
pub const RECV_MS: u64 = 500;

/// What a turn reads of the world.
#[derive(Clone, Copy, Debug)]
pub struct Senses {
    /// The time, in microseconds.
    pub now: u64,
    /// The limit switches.
    pub levels: Levels,
    /// Fresh random numbers, one draw per lane.
    pub draws: [Draw; LANES],
}

/// How a turn ends.
#[derive(Clone, Copy, PartialEq, Eq, Structural, Debug)]
pub enum Wait {
    /// Wait for an event, at most so many milliseconds. The next turn gets the event, or
    /// none.
    Event(u64),
    /// Wait so many milliseconds. Events stay in the queue; the next turn gets none.
    Sleep(u64),
}

impl Wait {
    /// The wait ends before the watchdog would bite.
    pub open spec fn is_short(self) -> bool {
        match self {
            Wait::Event(ms) => ms < WATCHDOG_MS,
            Wait::Sleep(ms) => ms < WATCHDOG_MS,
        }
    }
}

/// What a turn asks for.
#[derive(Clone, Copy, Debug)]
pub struct Output {
    /// Discard every queued event.
    pub drain: bool,
    /// Show this on the board.
    pub mode: Option<Mode>,
    /// Play this.
    pub sound: Option<Sound>,
    /// Write this record to flash.
    pub save: Option<[u8; RECORD_LEN]>,
    pub wait: Wait,
}

impl Output {
    /// Nothing but a wait.
    pub open spec fn only(wait: Wait) -> Output {
        Output { drain: false, mode: None, sound: None, save: None, wait }
    }

    /// Asks for nothing but a wait.
    pub fn quiet(wait: Wait) -> (out: Output)
        ensures
            out == Output::only(wait),
    {
        Output { drain: false, mode: None, sound: None, save: None, wait }
    }

    /// Asks for a mode on the board, and a wait.
    pub fn show(mode: Mode, wait: Wait) -> (out: Output)
        ensures
            out == (Output { mode: Some(mode), ..Output::only(wait) }),
    {
        Output { drain: false, mode: Some(mode), sound: None, save: None, wait }
    }
}

/// The lane that a button or a switch names; a number past the last lane names the last.
pub open spec fn lane_of(d: u8) -> usize {
    if d < LANES {
        d as usize
    } else {
        (LANES - 1) as usize
    }
}

/// Clamps a button or switch number to a lane.
pub fn clamp_lane(d: u8) -> (lane: usize)
    ensures
        lane == lane_of(d),
        lane < LANES,
{
    if (d as usize) < LANES {
        d as usize
    } else {
        LANES - 1
    }
}

/// Law: a button or a switch names the lane of its own number; every number past the last
/// lane names the last.
pub proof fn buttons_name_their_lane(d: u8)
    ensures
        d < LANES ==> lane_of(d) == d,
        d >= LANES ==> lane_of(d) == LANES - 1,
        lane_of(d) < LANES,
{
}

/// Law: a wait is short exactly when it ends before the watchdog's period is over, and a
/// request for nothing but a wait asks for nothing else.
pub proof fn short_waits_beat_the_watchdog(ms: u64, wait: Wait)
    ensures
        Wait::Event(ms).is_short() <==> ms < WATCHDOG_MS,
        Wait::Sleep(ms).is_short() <==> ms < WATCHDOG_MS,
        Output::only(wait) == (Output {
            drain: false,
            mode: None,
            sound: None,
            save: None,
            wait,
        }),
{
}

} // verus!
