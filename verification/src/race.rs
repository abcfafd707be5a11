//! The race speed model: each lane runs a sequence of segments, scheduled on its own.
//!
//! When a lane's segment expires it re-rolls: usually a fresh speed around its calibrated
//! baseline, sometimes a brief stall. The random numbers come in from outside, one `Draw`
//! per lane; the finish switch alone decides who wins.

use crate::calibrate::Baselines;
use crate::clock::{micros, us, LAST_INSTANT};
use crate::config::{
    FLOOR_PCT, KICK_PCT, LANES, RACE_TIMEOUT_MS, RESUME_KICK_MS, SEGMENT_MAX_MS, SEGMENT_MIN_MS,
    SPEED_SPREAD_PCT, STALL_CHANCE_PCT, STALL_MAX_MS, STALL_MIN_MS,
};
use crate::inputs::Event;
use crate::turn::{clamp_lane, lane_of};
use vstd::prelude::*;

verus! {

/// The random numbers one lane may use for one re-roll, fresh from the random source.
#[derive(Clone, Copy, PartialEq, Eq, Structural, Debug)]
pub struct Draw {
    /// Decides between a stall and a new speed.
    pub chance: u32,
    /// Decides the new speed.
    pub speed: u32,
    /// Decides how long the segment or the stall lasts.
    pub span: u32,
}

/// The number in `lo..=hi` that a raw draw stands for; `lo` where the range is empty.
pub open spec fn in_range(raw: u32, lo: int, hi: int) -> int {
    if hi <= lo {
        lo
    } else {
        lo + (raw as int) % (hi - lo + 1)
    }
}

/// Maps a raw random number to a number in `lo..=hi`.
pub fn rand_range(raw: u32, lo: u64, hi: u64) -> (n: u64)
    requires
        hi - lo < u64::MAX,
    ensures
        n == in_range(raw, lo as int, hi as int),
        lo <= hi ==> lo <= n <= hi,
{
    if hi <= lo {
        return lo;
    }
    let width: u64 = hi - lo + 1;
    assert(0 <= (raw as int) % (width as int) < width) by (nonlinear_arith)
        requires
            width > 0,
    ;
    lo + (raw as u64) % width
}

/// How far a lane's speed may stray from its baseline: a share of the baseline, at least one.
pub open spec fn spread_of(base_pct: u8) -> int {
    let share = (base_pct as int) * (SPEED_SPREAD_PCT as int) / 100;
    if share < 1 {
        1
    } else {
        share
    }
}

/// Nearest duty to `duty` that a moving motor may have.
pub open spec fn into_band(duty: int) -> int {
    if duty < FLOOR_PCT {
        FLOOR_PCT as int
    } else if duty > 100 {
        100
    } else {
        duty
    }
}

/// The running speed a raw draw stands for: the baseline plus an offset in
/// `-spread..=spread`, brought into the band of moving duties.
pub open spec fn speed_of(raw: u32, base_pct: u8) -> u8 {
    let spread = spread_of(base_pct);
    into_band(base_pct + (raw as int) % (2 * spread + 1) - spread) as u8
}

/// Rolls a running speed for one lane from its calibrated baseline.
pub fn roll_speed(raw: u32, base_pct: u8) -> (duty: u8)
    ensures
        duty == speed_of(raw, base_pct),
        FLOOR_PCT <= duty <= 100,
{
    let spread_pct: i32 = SPEED_SPREAD_PCT as i32;
    assert(0 <= base_pct * spread_pct <= 255 * 20) by (nonlinear_arith)
        requires
            spread_pct == 20,
    ;
    let share: i32 = base_pct as i32 * spread_pct / 100;
    let spread: i32 = if share < 1 {
        1
    } else {
        share
    };
    assert(spread == spread_of(base_pct));
    let width: u32 = 2 * spread as u32 + 1;
    assert(0 <= (raw as int) % (width as int) < width) by (nonlinear_arith)
        requires
            width > 0,
    ;
    let off: i32 = (raw % width) as i32 - spread;
    let duty: i32 = base_pct as i32 + off;
    if duty < FLOOR_PCT as i32 {
        FLOOR_PCT
    } else if duty > 100 {
        100
    } else {
        duty as u8
    }
}

/// Law: every number of a range comes up, for some raw draw, and no other does.
pub proof fn range_is_covered(lo: int, hi: int, n: int)
    requires
        lo <= hi,
        hi - lo <= u32::MAX,
    ensures
        lo <= n <= hi <==> exists|raw: u32| #[trigger] in_range(raw, lo, hi) == n,
{
    if lo <= n <= hi {
        let raw = (n - lo) as u32;
        assert((raw as int) % (hi - lo + 1) == raw) by (nonlinear_arith)
            requires
                0 <= raw < hi - lo + 1,
        ;
        assert(in_range(raw, lo, hi) == n);
    }
    assert forall|raw: u32| #[trigger] in_range(raw, lo, hi) == n implies lo <= n <= hi by {
        if lo < hi {
            assert(0 <= (raw as int) % (hi - lo + 1) < hi - lo + 1) by (nonlinear_arith)
                requires
                    lo < hi,
            ;
        }
    }
}

/// Law: whatever the draw, a running speed is in the band of moving duties, and from a
/// baseline in that band it strays by no more than the spread.
pub proof fn speed_stays_near_the_baseline(raw: u32, base_pct: u8)
    ensures
        FLOOR_PCT <= speed_of(raw, base_pct) <= 100,
        FLOOR_PCT <= base_pct <= 100 ==> base_pct - spread_of(base_pct) <= speed_of(raw, base_pct)
            <= base_pct + spread_of(base_pct),
{
    let spread = spread_of(base_pct);
    assert(0 <= (raw as int) % (2 * spread + 1) < 2 * spread + 1) by (nonlinear_arith)
        requires
            spread >= 1,
    ;
}

/// One lane's place in its sequence of segments.
#[derive(Clone, Copy, PartialEq, Eq, Structural, Debug)]
pub struct Lane {
    /// The duty this lane is trying to hold; zero while it stalls.
    pub target: u8,
    /// When it re-rolls.
    pub next_change: u64,
    /// Until when the kick that ends a stall lasts.
    pub kick_until: u64,
}

impl Lane {
    /// The lane is in a stall.
    pub open spec fn stalled(self) -> bool {
        self.target == 0
    }

    /// What holds of a lane between two frames, the last of them at `at`: it stalls or runs
    /// in the band of moving duties, a kick never outlasts its segment, and no kick is left
    /// over in a stall.
    pub open spec fn wf(self, at: u64) -> bool {
        &&& self.stalled() || FLOOR_PCT <= self.target <= 100
        &&& self.kick_until <= self.next_change
        &&& self.stalled() ==> self.kick_until <= at
    }

    /// The lane stalls at `now`, for a time that the draw decides.
    pub open spec fn stalls(self, now: u64, draw: Draw) -> Lane {
        Lane {
            target: 0,
            next_change: (now + 1000 * in_range(
                draw.span,
                STALL_MIN_MS as int,
                STALL_MAX_MS as int,
            )) as u64,
            kick_until: self.kick_until,
        }
    }

    /// The lane starts a running segment at `now`, with a kick if it was in a stall.
    pub open spec fn runs(self, now: u64, base_pct: u8, draw: Draw) -> Lane {
        Lane {
            target: speed_of(draw.speed, base_pct),
            next_change: (now + 1000 * in_range(
                draw.span,
                SEGMENT_MIN_MS as int,
                SEGMENT_MAX_MS as int,
            )) as u64,
            kick_until: if self.stalled() {
                (now + 1000 * RESUME_KICK_MS) as u64
            } else {
                self.kick_until
            },
        }
    }

    /// The lane after the frame at `now`.
    pub open spec fn after(self, now: u64, base_pct: u8, draw: Draw) -> Lane {
        if now < self.next_change {
            self
        } else if !self.stalled() && draw.chance % 100 < STALL_CHANCE_PCT {
            self.stalls(now, draw)
        } else {
            self.runs(now, base_pct, draw)
        }
    }

    /// What the lane is driven at: the kick overrides a lower target while it lasts.
    pub open spec fn duty(self, now: u64) -> u8 {
        if now < self.kick_until && self.target < KICK_PCT {
            KICK_PCT
        } else {
            self.target
        }
    }

    /// The opening segment: always a running speed, never a stall.
    pub open spec fn opens(now: u64, base_pct: u8, draw: Draw) -> Lane {
        Lane {
            target: speed_of(draw.speed, base_pct),
            next_change: (now + 1000 * in_range(
                draw.span,
                SEGMENT_MIN_MS as int,
                SEGMENT_MAX_MS as int,
            )) as u64,
            kick_until: now,
        }
    }

    /// Starts the lane on its opening segment.
    pub fn open(now: u64, base_pct: u8, draw: Draw) -> (lane: Lane)
        requires
            now <= LAST_INSTANT,
        ensures
            lane == Lane::opens(now, base_pct, draw),
            lane.wf(now),
            !lane.stalled(),
    {
        let target: u8 = roll_speed(draw.speed, base_pct);
        let span: u64 = rand_range(draw.span, SEGMENT_MIN_MS, SEGMENT_MAX_MS);
        Lane { target, next_change: now + micros(span), kick_until: now }
    }

    /// Re-rolls the lane if its segment has expired.
    pub fn reroll(&mut self, now: u64, base_pct: u8, draw: Draw)
        requires
            now <= LAST_INSTANT,
        ensures
            *final(self) == old(self).after(now, base_pct, draw),
    {
        if now < self.next_change {
            return ;
        }
        let stalling: bool = self.target == 0;
        if !stalling && draw.chance % 100 < STALL_CHANCE_PCT {
            let span: u64 = rand_range(draw.span, STALL_MIN_MS, STALL_MAX_MS);
            self.target = 0;
            self.next_change = now + micros(span);
        } else {
            if stalling {
                self.kick_until = now + micros(RESUME_KICK_MS);
            }
            let span: u64 = rand_range(draw.span, SEGMENT_MIN_MS, SEGMENT_MAX_MS);
            self.target = roll_speed(draw.speed, base_pct);
            self.next_change = now + micros(span);
        }
    }

    /// The duty to drive the lane at.
    pub fn command(&self, now: u64) -> (duty: u8)
        ensures
            duty == self.duty(now),
    {
        if now < self.kick_until && self.target < KICK_PCT {
            KICK_PCT
        } else {
            self.target
        }
    }
}

/// How a race stands.
#[derive(Clone, Copy, PartialEq, Eq, Structural, Debug)]
pub enum Standing {
    Running,
    Won(usize),
    TimedOut,
}

/// A race under way: when it was launched, and every lane's place in its segments.
#[derive(Clone, Copy, Debug)]
pub struct Race {
    pub start: u64,
    pub lanes: [Lane; LANES],
}

impl Race {
    /// The race was launched, and its last frame drawn, no later than `at`.
    pub open spec fn wf(self, at: u64) -> bool {
        &&& self.start <= at
        &&& forall|l: int| 0 <= l < LANES ==> (#[trigger] self.lanes[l]).wf(at)
    }

    /// The duty of every lane.
    pub open spec fn duties(self, now: u64) -> Seq<u8> {
        Seq::new(LANES as nat, |l: int| self.lanes[l].duty(now))
    }

    /// `self` is a race launched at `now`: every lane on its opening segment.
    pub open spec fn is_open(self, now: u64, base: Baselines, draws: Seq<Draw>) -> bool {
        &&& self.start == now
        &&& forall|l: int|
            0 <= l < LANES ==> #[trigger] self.lanes[l] == Lane::opens(now, base.pct[l], draws[l])
    }

    /// `self` is `before` one frame later: every lane whose segment has expired has
    /// re-rolled, on its own.
    pub open spec fn follows(
        self,
        before: Race,
        now: u64,
        base: Baselines,
        draws: Seq<Draw>,
    ) -> bool {
        &&& self.start == before.start
        &&& forall|l: int|
            0 <= l < LANES ==> #[trigger] self.lanes[l] == before.lanes[l].after(
                now,
                base.pct[l],
                draws[l],
            )
    }

    /// The first finish switch to report decides the race; without one, it runs until the
    /// timeout.
    pub open spec fn standing_at(self, now: u64, ev: Option<Event>) -> Standing {
        match ev {
            Some(Event::EndHit(l)) => Standing::Won(lane_of(l)),
            _ => if now - self.start > us(RACE_TIMEOUT_MS as int) {
                Standing::TimedOut
            } else {
                Standing::Running
            },
        }
    }

    /// Launches a race.
    pub fn open(now: u64, base: &Baselines, draws: &[Draw; LANES]) -> (race: Race)
        requires
            now <= LAST_INSTANT,
        ensures
            race.is_open(now, *base, draws@),
            race.wf(now),
    {
        let idle: Lane = Lane { target: 0, next_change: now, kick_until: now };
        let mut lanes: [Lane; LANES] = [idle;LANES];
        let mut l: usize = 0;
        while l < LANES
            invariant
                l <= LANES,
                now <= LAST_INSTANT,
                forall|k: int|
                    0 <= k < l ==> (#[trigger] lanes[k]).wf(now) && lanes[k] == Lane::opens(
                        now,
                        base.pct[k],
                        draws[k],
                    ),
            decreases LANES - l,
        {
            lanes[l] = Lane::open(now, base.pct[l], draws[l]);
            l = l + 1;
        }
        Race { start: now, lanes }
    }

    /// Re-rolls every lane whose segment has expired.
    pub fn reroll(
        &mut self,
        now: u64,
        base: &Baselines,
        draws: &[Draw; LANES],
    )
        requires
            now <= LAST_INSTANT,
        ensures
            final(self).follows(*old(self), now, *base, draws@),
            forall|at: u64| old(self).wf(at) && at <= now ==> final(self).wf(now),
    {
        let mut l: usize = 0;
        while l < LANES
            invariant
                l <= LANES,
                now <= LAST_INSTANT,
                self.start == old(self).start,
                forall|k: int|
                    0 <= k < l ==> #[trigger] self.lanes[k] == old(self).lanes[k].after(
                        now,
                        base.pct[k],
                        draws[k],
                    ),
                forall|k: int| l <= k < LANES ==> #[trigger] self.lanes[k] == old(self).lanes[k],
            decreases LANES - l,
        {
            let mut lane: Lane = self.lanes[l];
            lane.reroll(now, base.pct[l], draws[l]);
            self.lanes[l] = lane;
            l = l + 1;
        }
        proof {
            assert forall|at: u64| old(self).wf(at) && at <= now implies self.wf(now) by {
                assert forall|k: int| 0 <= k < LANES implies (#[trigger] self.lanes[k]).wf(now) by {
                    lane_stays_well_formed(old(self).lanes[k], at, now, base.pct[k], draws[k]);
                }
            }
        }
    }

    /// The duty to drive every lane at.
    pub fn commands(&self, now: u64) -> (duties: [u8; LANES])
        ensures
            duties@ == self.duties(now),
    {
        let mut duties: [u8; LANES] = [0u8; LANES];
        let mut l: usize = 0;
        while l < LANES
            invariant
                l <= LANES,
                forall|k: int| 0 <= k < l ==> #[trigger] duties@[k] == self.lanes[k].duty(now),
            decreases LANES - l,
        {
            duties[l] = self.lanes[l].command(now);
            l = l + 1;
        }
        assert(duties@ =~= self.duties(now));
        duties
    }

    /// How the race stands after a frame that gave `ev`.
    pub fn standing(&self, now: u64, ev: Option<Event>) -> (standing: Standing)
        requires
            self.start <= now,
        ensures
            standing == self.standing_at(now, ev),
            standing matches Standing::Won(w) ==> w < LANES,
    {
        match ev {
            Some(Event::EndHit(l)) => Standing::Won(clamp_lane(l)),
            _ => if now - self.start > micros(RACE_TIMEOUT_MS) {
                Standing::TimedOut
            } else {
                Standing::Running
            },
        }
    }
}

/// Law: a lane that is well-formed stays so through every frame, whatever the draws.
pub proof fn lane_stays_well_formed(lane: Lane, at: u64, now: u64, base_pct: u8, draw: Draw)
    requires
        lane.wf(at),
        at <= now <= LAST_INSTANT,
    ensures
        lane.after(now, base_pct, draw).wf(now),
{
    speed_stays_near_the_baseline(draw.speed, base_pct);
    range_is_covered(
        SEGMENT_MIN_MS as int,
        SEGMENT_MAX_MS as int,
        in_range(draw.span, SEGMENT_MIN_MS as int, SEGMENT_MAX_MS as int),
    );
    range_is_covered(
        STALL_MIN_MS as int,
        STALL_MAX_MS as int,
        in_range(draw.span, STALL_MIN_MS as int, STALL_MAX_MS as int),
    );
}

/// Law: a moving motor is never driven below the floor, and a stalled lane is not driven at
/// all.
pub proof fn duty_is_zero_or_above_the_floor(lane: Lane, at: u64, now: u64)
    requires
        lane.wf(at),
        at <= now,
    ensures
        lane.stalled() ==> lane.duty(now) == 0,
        !lane.stalled() ==> FLOOR_PCT <= lane.duty(now) <= 100,
{
}

/// Law: nothing but the finish switches decides a race. It is won only by the lane whose
/// switch reported, and whatever the lanes are doing, it ends soon after the timeout.
pub proof fn finish_switch_decides(race: Race, other: Race, now: u64, ev: Option<Event>)
    requires
        race.start == other.start,
    ensures
        race.standing_at(now, ev) == other.standing_at(now, ev),
        race.standing_at(now, ev) is Won <==> ev matches Some(Event::EndHit(_)),
        forall|l: u8|
            l < LANES && ev == Some(Event::EndHit(l)) ==> #[trigger] race.standing_at(now, ev)
                == Standing::Won(l as usize),
        now - race.start > us(RACE_TIMEOUT_MS as int) ==> race.standing_at(now, ev) !is Running,
{
}

/// Law: every duck leaves the line moving: no lane of a newly launched race is in a stall,
/// and each is driven at its rolled speed.
pub proof fn no_stall_off_the_line(
    race: Race,
    now: u64,
    base: Baselines,
    draws: Seq<Draw>,
    lane: int,
)
    requires
        race.is_open(now, base, draws),
        0 <= lane < LANES,
    ensures
        !race.lanes[lane].stalled(),
        race.duties(now)[lane] == speed_of(draws[lane].speed, base.pct[lane]),
        race.duties(now)[lane] >= FLOOR_PCT,
{
    speed_stays_near_the_baseline(draws[lane].speed, base.pct[lane]);
}

/// Law: the lanes are scheduled independently: what a lane does next depends on its own
/// segment, baseline and draw alone.
pub proof fn lanes_are_independent(
    a: Race,
    a_next: Race,
    b: Race,
    b_next: Race,
    now: u64,
    base_a: Baselines,
    base_b: Baselines,
    draws_a: Seq<Draw>,
    draws_b: Seq<Draw>,
    lane: int,
)
    requires
        0 <= lane < LANES,
        a_next.follows(a, now, base_a, draws_a),
        b_next.follows(b, now, base_b, draws_b),
        a.lanes[lane] == b.lanes[lane],
        base_a.pct[lane] == base_b.pct[lane],
        draws_a[lane] == draws_b[lane],
    ensures
        a_next.lanes[lane] == b_next.lanes[lane],
        a_next.duties(now)[lane] == b_next.duties(now)[lane],
{
}

/// Law: a lane that leaves a stall is kicked for the whole resume window, a lane never goes
/// from one stall into another, and a stall or a segment lasts a time in its range.
pub proof fn stalls_end_with_a_kick(
    lane: Lane,
    at: u64,
    now: u64,
    later: u64,
    base_pct: u8,
    draw: Draw,
)
    requires
        lane.wf(at),
        at <= now <= LAST_INSTANT,
        lane.next_change <= now,
    ensures
        ({
            let next = lane.after(now, base_pct, draw);
            &&& lane.stalled() ==> !next.stalled()
            &&& lane.stalled() && now <= later < now + 1000 * RESUME_KICK_MS ==> next.duty(later)
                >= KICK_PCT
            &&& next.stalled() ==> 1000 * STALL_MIN_MS <= next.next_change - now <= 1000
                * STALL_MAX_MS
            &&& !next.stalled() ==> 1000 * SEGMENT_MIN_MS <= next.next_change - now <= 1000
                * SEGMENT_MAX_MS
        }),
{
    lane_stays_well_formed(lane, at, now, base_pct, draw);
    speed_stays_near_the_baseline(draw.speed, base_pct);
    range_is_covered(
        SEGMENT_MIN_MS as int,
        SEGMENT_MAX_MS as int,
        in_range(draw.span, SEGMENT_MIN_MS as int, SEGMENT_MAX_MS as int),
    );
    range_is_covered(
        STALL_MIN_MS as int,
        STALL_MAX_MS as int,
        in_range(draw.span, STALL_MIN_MS as int, STALL_MAX_MS as int),
    );
}

// ---- One re-roll, case by case ----

/// Law: a draw is taken modulo the width of its range, so every number of the range stands
/// for the same number of draws, give or take one; an empty range is its lower end.
pub proof fn draws_are_taken_modulo_the_range(raw: u32, lo: int, hi: int)
    ensures
        hi <= lo ==> in_range(raw, lo, hi) == lo,
        lo < hi ==> lo <= in_range(raw, lo, hi) <= hi,
        lo < hi ==> (raw - (in_range(raw, lo, hi) - lo)) % (hi - lo + 1) == 0,
{
    if lo < hi {
        let w = hi - lo + 1;
        let q = (raw as int) / w;
        let m = (raw as int) % w;
        assert(0 <= m < w && raw - m == w * q) by (nonlinear_arith)
            requires
                w > 0,
                q == (raw as int) / w,
                m == (raw as int) % w,
        ;
        assert((w * q) % w == 0) by (nonlinear_arith)
            requires
                w > 0,
        ;
    }
}

/// Law: the spread is the baseline's share, to within one point, and never less than one.
pub proof fn spread_is_a_share_of_the_baseline(base_pct: u8)
    ensures
        spread_of(base_pct) >= 1,
        base_pct * SPEED_SPREAD_PCT >= 100 ==> 100 * spread_of(base_pct) <= base_pct
            * SPEED_SPREAD_PCT < 100 * (spread_of(base_pct) + 1),
        base_pct * SPEED_SPREAD_PCT < 100 ==> spread_of(base_pct) == 1,
{
    let x: int = base_pct * SPEED_SPREAD_PCT;
    assert(x >= 0) by (nonlinear_arith)
        requires
            x == base_pct * SPEED_SPREAD_PCT,
            base_pct >= 0,
            SPEED_SPREAD_PCT >= 0,
    ;
}

/// Law: a rolled speed is the baseline and an offset that the draw decides, modulo the width
/// of the spread on both sides, held within the floor and full duty.
pub proof fn speed_is_the_baseline_and_an_offset(raw: u32, base_pct: u8)
    ensures
        ({
            let spread = spread_of(base_pct);
            let rolled = base_pct - spread + in_range(raw, 0, 2 * spread);
            &&& rolled < FLOOR_PCT ==> speed_of(raw, base_pct) == FLOOR_PCT
            &&& FLOOR_PCT <= rolled <= 100 ==> speed_of(raw, base_pct) == rolled
            &&& rolled > 100 ==> speed_of(raw, base_pct) == 100
        }),
{
}

/// Law: speeds are fully random: every duty of the moving band within the spread of the
/// baseline is rolled by some draw.
pub proof fn every_speed_in_reach_comes_up(base_pct: u8, duty: u8) -> (raw: u32)
    requires
        FLOOR_PCT <= duty <= 100,
        base_pct - spread_of(base_pct) <= duty <= base_pct + spread_of(base_pct),
    ensures
        speed_of(raw, base_pct) == duty,
{
    let spread = spread_of(base_pct);
    let x: int = base_pct * SPEED_SPREAD_PCT;
    assert(0 <= x <= 255 * 255) by (nonlinear_arith)
        requires
            x == base_pct * SPEED_SPREAD_PCT,
            0 <= base_pct <= 255,
            0 <= SPEED_SPREAD_PCT <= 255,
    ;
    let raw = (duty - base_pct + spread) as u32;
    assert((raw as int) % (2 * spread + 1) == raw) by (nonlinear_arith)
        requires
            0 <= raw < 2 * spread + 1,
    ;
    raw
}

/// Law: a lane whose segment or stall has not expired is left as it is, whatever the draw; so
/// a stalled lane is not driven at any instant before its stall is over.
pub proof fn segments_run_their_course(lane: Lane, at: u64, now: u64, base_pct: u8, draw: Draw)
    requires
        now < lane.next_change,
    ensures
        lane.after(now, base_pct, draw) == lane,
        lane.wf(at) && lane.target == 0 && at <= now ==> lane.after(now, base_pct, draw).duty(now)
            == 0,
{
}

/// The lane after these frames: their times, and the draw each would use.
pub open spec fn after_frames(
    lane: Lane,
    nows: Seq<u64>,
    base_pct: u8,
    draws: Seq<Draw>,
) -> Lane
    decreases nows.len(),
{
    if nows.len() == 0 {
        lane
    } else {
        after_frames(lane, nows.drop_last(), base_pct, draws.drop_last()).after(
            nows.last(),
            base_pct,
            draws.last(),
        )
    }
}

/// Law: however many frames come before a segment or a stall is over, and whatever they draw,
/// the lane holds it.
pub proof fn no_frame_cuts_a_segment_short(
    lane: Lane,
    nows: Seq<u64>,
    base_pct: u8,
    draws: Seq<Draw>,
)
    requires
        nows.len() == draws.len(),
        forall|i: int| 0 <= i < nows.len() ==> #[trigger] nows[i] < lane.next_change,
    ensures
        after_frames(lane, nows, base_pct, draws) == lane,
    decreases nows.len(),
{
    if nows.len() > 0 {
        let rest = nows.drop_last();
        assert(forall|i: int| 0 <= i < rest.len() ==> #[trigger] rest[i] == nows[i]);
        no_frame_cuts_a_segment_short(lane, rest, base_pct, draws.drop_last());
        assert(nows[nows.len() - 1] < lane.next_change);
    }
}

/// Law: a lane that runs, and whose segment has expired, stalls exactly when the draw's chance
/// is in the stall share of a hundred. It then coasts for a drawn time in the stall range; or
/// it takes a fresh speed for a drawn time in the segment range. It gets no kick either way.
pub proof fn expired_runs_stall_or_run_on(lane: Lane, now: u64, base_pct: u8, draw: Draw)
    requires
        lane.target != 0,
        lane.next_change <= now <= LAST_INSTANT,
    ensures
        ({
            let next = lane.after(now, base_pct, draw);
            &&& next.kick_until == lane.kick_until
            &&& draw.chance % 100 < STALL_CHANCE_PCT ==> next.target == 0 && next.next_change == now
                + us(in_range(draw.span, STALL_MIN_MS as int, STALL_MAX_MS as int))
            &&& draw.chance % 100 >= STALL_CHANCE_PCT ==> next.target == speed_of(
                draw.speed,
                base_pct,
            ) && next.next_change == now + us(
                in_range(draw.span, SEGMENT_MIN_MS as int, SEGMENT_MAX_MS as int),
            )
        }),
{
    draws_are_taken_modulo_the_range(draw.span, STALL_MIN_MS as int, STALL_MAX_MS as int);
    draws_are_taken_modulo_the_range(draw.span, SEGMENT_MIN_MS as int, SEGMENT_MAX_MS as int);
}

/// Law: a stall that has expired always gives way to a fresh speed, for a drawn time in the
/// segment range, opened by a kick of the resume time; the draw's chance has no say.
pub proof fn expired_stalls_run_with_a_kick(lane: Lane, now: u64, base_pct: u8, draw: Draw)
    requires
        lane.target == 0,
        lane.next_change <= now <= LAST_INSTANT,
    ensures
        ({
            let next = lane.after(now, base_pct, draw);
            &&& next.target == speed_of(draw.speed, base_pct)
            &&& next.target != 0
            &&& next.next_change == now + us(
                in_range(draw.span, SEGMENT_MIN_MS as int, SEGMENT_MAX_MS as int),
            )
            &&& next.kick_until == now + us(RESUME_KICK_MS as int)
        }),
{
    speed_stays_near_the_baseline(draw.speed, base_pct);
    draws_are_taken_modulo_the_range(draw.span, SEGMENT_MIN_MS as int, SEGMENT_MAX_MS as int);
}

/// Law: within its kick a lane is driven at the kick or at its target, whichever is more;
/// outside it, at its target.
pub proof fn kick_overrides_a_lower_target(lane: Lane, now: u64)
    ensures
        lane.stalled() <==> lane.target == 0,
        now >= lane.kick_until ==> lane.duty(now) == lane.target,
        now < lane.kick_until && lane.target >= KICK_PCT ==> lane.duty(now) == lane.target,
        now < lane.kick_until && lane.target < KICK_PCT ==> lane.duty(now) == KICK_PCT,
{
}

/// Law: a lane opens with a rolled speed, for a drawn time in the segment range, without a
/// kick of its own.
pub proof fn lanes_open_running(now: u64, base_pct: u8, draw: Draw)
    requires
        now <= LAST_INSTANT,
    ensures
        Lane::opens(now, base_pct, draw).target == speed_of(draw.speed, base_pct),
        Lane::opens(now, base_pct, draw).target >= FLOOR_PCT,
        Lane::opens(now, base_pct, draw).next_change == now + us(
            in_range(draw.span, SEGMENT_MIN_MS as int, SEGMENT_MAX_MS as int),
        ),
        Lane::opens(now, base_pct, draw).kick_until == now,
{
    speed_stays_near_the_baseline(draw.speed, base_pct);
    draws_are_taken_modulo_the_range(draw.span, SEGMENT_MIN_MS as int, SEGMENT_MAX_MS as int);
}

/// Law: a race is its lanes: each opens, re-rolls and is driven by its own baseline and draw.
pub proof fn race_is_its_lanes(
    before: Race,
    race: Race,
    now: u64,
    base: Baselines,
    draws: Seq<Draw>,
    lane: int,
)
    requires
        0 <= lane < LANES,
    ensures
        race.duties(now).len() == LANES,
        race.duties(now)[lane] == race.lanes[lane].duty(now),
        race.is_open(now, base, draws) ==> race.start == now && race.lanes[lane] == Lane::opens(
            now,
            base.pct[lane],
            draws[lane],
        ),
        race.follows(before, now, base, draws) ==> race.start == before.start && race.lanes[lane]
            == before.lanes[lane].after(now, base.pct[lane], draws[lane]),
{
}

/// Law: a race is won by the lane whose finish switch reports, at any time and whatever else;
/// any other event leaves it to the clock: it runs on up to the timeout and is over after it.
pub proof fn race_runs_to_the_switch_or_the_timeout(race: Race, now: u64, ev: Option<Event>, d: u8)
    ensures
        d < LANES ==> race.standing_at(now, Some(Event::EndHit(d))) == Standing::Won(d as usize),
        d >= LANES ==> race.standing_at(now, Some(Event::EndHit(d))) == Standing::Won(
            (LANES - 1) as usize,
        ),
        !(ev matches Some(Event::EndHit(_))) && now - race.start <= us(RACE_TIMEOUT_MS as int)
            ==> race.standing_at(now, ev) == Standing::Running,
        !(ev matches Some(Event::EndHit(_))) && now - race.start > us(RACE_TIMEOUT_MS as int)
            ==> race.standing_at(now, ev) == Standing::TimedOut,
{
}

} // verus!
