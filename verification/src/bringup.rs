//! Bring-up modes, for building the machine one piece at a time: the motor jog, the
//! single-lane run and the clip check. The LED walk is in `leds`.

use crate::audio::{Sound, VOLUME_DEFAULT, VOLUME_MAX};
use crate::clock::{micros, us};
use crate::config::{
    compare_is_monotone, compare_of, HOMING_PCT, JOG_DUTY_PCT, LANES, RACE_TIMEOUT_MS,
    RESET_TIMEOUT_MS,
};
use crate::inputs::{end_closed, home_closed, Event, Levels, Slot};
use crate::motors::Motors;
use crate::turn::{clamp_lane, lane_of, Wait, RECV_MS};
use vstd::prelude::*;

verus! {

/// How often the jog and the clip check look at the buttons.
pub const BUTTON_POLL_MS: u64 = 20;

/// How often a single-lane run looks at its switches.
pub const LANE_POLL_MS: u64 = 50;

/// The duties that drive one lane and leave the others be.
pub open spec fn alone(lane: usize, pct: u8) -> Seq<u8> {
    Seq::new(
        LANES as nat,
        |l: int|
            if l == lane {
                pct
            } else {
                0
            },
    )
}

fn drive_alone(motors: &mut Motors, lane: usize, pct: u8)
    requires
        lane < LANES,
    ensures
        final(motors).running(alone(lane, pct)),
        final(motors).same_rest(*old(motors)),
        final(motors).wf(),
{
    let mut duties: [u8; LANES] = [0u8; LANES];
    duties[lane] = pct;
    assert(duties@ =~= alone(lane, pct));
    motors.race_forward(&duties);
}

// ---- Motor jog ----

/// The motor jog: hold to run, no switches needed. There is no end stop in this mode.
#[derive(Clone, Copy, PartialEq, Eq, Structural, Debug)]
pub struct Jog {
    /// The lane that UP drives.
    pub active: usize,
    /// The drivers' fault line was asserted at the last look.
    pub faulted: bool,
}

/// What there is to report of the fault line: its state, when it has changed.
pub fn fault_edge(last: bool, faulted: bool) -> (report: Option<bool>)
    ensures
        report == if faulted != last {
            Some(faulted)
        } else {
            None
        },
{
    if faulted != last {
        Some(faulted)
    } else {
        None
    }
}

/// The lane in use after looking at the first `n` duck buttons: the last of those held down,
/// or else the one in use before.
pub open spec fn last_held(active: usize, held: Seq<bool>, n: nat) -> usize
    decreases n,
{
    if n == 0 {
        active
    } else if held[n - 1] {
        (n - 1) as usize
    } else {
        last_held(active, held, (n - 1) as nat)
    }
}

impl Jog {
    /// One look at the buttons and the fault line: from `self` to `next`, with the lines at
    /// `motors` and `report` to tell.
    pub open spec fn jogs(
        self,
        held: Seq<bool>,
        fwd: bool,
        rev: bool,
        faulted: bool,
        next: Jog,
        motors: Motors,
        report: Option<bool>,
    ) -> bool {
        &&& next == (Jog { active: last_held(self.active, held, LANES as nat), faulted })
        &&& report == if faulted != self.faulted {
            Some(faulted)
        } else {
            None
        }
        &&& if fwd {
            motors.running(alone(next.active, JOG_DUTY_PCT))
        } else if rev {
            motors.reversing(JOG_DUTY_PCT)
        } else {
            motors.coasting()
        }
    }

    /// Starts on the first lane, with the drivers awake and the fault line as it reads.
    pub fn start(motors: &mut Motors, faulted: bool) -> (jog: Jog)
        ensures
            jog == (Jog { active: 0, faulted }),
            *final(motors) == (Motors { awake: true, ..*old(motors) }),
    {
        motors.enable(true);
        Jog { active: 0, faulted }
    }

    /// One look at the buttons: a duck button picks the lane, UP drives it forward, DOWN
    /// reverses every lane, and with neither they coast. UP goes before DOWN. A change of the
    /// fault line is reported, once; it does not stop the jog.
    pub fn motor_jog(
        &mut self,
        held: &[bool; LANES],
        fwd: bool,
        rev: bool,
        faulted: bool,
        motors: &mut Motors,
    ) -> (report: Option<bool>)
        requires
            old(self).active < LANES,
        ensures
            old(self).jogs(held@, fwd, rev, faulted, *final(self), *final(motors), report),
            final(self).active < LANES,
            final(motors).same_rest(*old(motors)),
            final(motors).wf(),
    {
        let mut i: usize = 0;
        while i < LANES
            invariant
                i <= LANES,
                self.active < LANES,
                self.faulted == old(self).faulted,
                self.active == last_held(old(self).active, held@, i as nat),
            decreases LANES - i,
        {
            if held[i] && self.active != i {
                self.active = i;
            }
            i = i + 1;
        }
        let report: Option<bool> = fault_edge(self.faulted, faulted);
        self.faulted = faulted;
        if fwd {
            drive_alone(motors, self.active, JOG_DUTY_PCT);
        } else if rev {
            motors.reverse_all(JOG_DUTY_PCT);
        } else {
            motors.coast_all();
        }
        report
    }
}

/// Law: a duck button that is held alone is the lane in use, and letting all go changes
/// nothing.
pub proof fn jog_goes_where_it_is_told(active: usize, held: Seq<bool>, lane: usize)
    requires
        held.len() == LANES,
        lane < LANES,
        forall|l: int| 0 <= l < LANES ==> (#[trigger] held[l] ==> l == lane),
    ensures
        last_held(active, held, LANES as nat) == if held[lane as int] {
            lane
        } else {
            active
        },
{
    reveal_with_fuel(last_held, 5);
}

// ---- Single-lane run ----

/// Where a single-lane run is.
#[derive(Clone, Copy, PartialEq, Eq, Structural, Debug)]
pub enum Run {
    /// None is under way.
    Idle,
    /// Forward, to the finish switch.
    Out { since: u64 },
    /// Back, to the home switch.
    Back { since: u64 },
}

/// The single-lane mode: a duck button picks the lane, GO runs it to its finish switch and
/// home again. Both legs go by the levels of the switches, so a leg that starts on the switch
/// it drives to is over at once.
#[derive(Clone, Copy, PartialEq, Eq, Structural, Debug)]
pub struct LaneTest {
    pub active: usize,
    pub run: Run,
}

impl LaneTest {
    /// The lane exists, and a leg began no later than `at`.
    pub open spec fn wf(self, at: u64) -> bool {
        &&& self.active < LANES
        &&& match self.run {
            Run::Idle => true,
            Run::Out { since } => since <= at,
            Run::Back { since } => since <= at,
        }
    }

    /// The forward leg is over: the lane is on its finish switch, or its time is up.
    pub open spec fn is_out(self, since: u64, now: u64, levels: Levels) -> bool {
        levels.at(Slot::End(self.active)) || now - since > us(RACE_TIMEOUT_MS as int)
    }

    /// The return leg is over: the lane is on its home switch, or its time is up.
    pub open spec fn is_back(self, since: u64, now: u64, levels: Levels) -> bool {
        levels.at(Slot::Home(self.active)) || now - since > us(RESET_TIMEOUT_MS as int)
    }

    /// The run ends, and the lanes coast.
    pub open spec fn ends(self, motors: Motors, next: LaneTest, m: Motors, wait: Wait) -> bool {
        &&& next == (LaneTest { run: Run::Idle, ..self })
        &&& m.coasting()
        &&& m.same_rest(motors)
        &&& wait == Wait::Event(RECV_MS)
    }

    /// The return leg begins; a lane that is home already skips it.
    pub open spec fn turns_back(
        self,
        motors: Motors,
        now: u64,
        levels: Levels,
        next: LaneTest,
        m: Motors,
        wait: Wait,
    ) -> bool {
        if levels.at(Slot::Home(self.active)) {
            self.ends(motors, next, m, wait)
        } else {
            &&& next == (LaneTest { run: Run::Back { since: now }, ..self })
            &&& m.reversing(HOMING_PCT)
            &&& m.same_rest(motors)
            &&& wait == Wait::Event(LANE_POLL_MS)
        }
    }

    /// One turn of the mode.
    pub open spec fn steps(
        self,
        motors: Motors,
        now: u64,
        levels: Levels,
        ev: Option<Event>,
        next: LaneTest,
        m: Motors,
        wait: Wait,
    ) -> bool {
        match (self.run, ev) {
            (Run::Idle, Some(Event::Go)) => if levels.at(Slot::End(self.active)) {
                self.turns_back(motors, now, levels, next, m, wait)
            } else {
                &&& next == (LaneTest { run: Run::Out { since: now }, ..self })
                &&& m.running(alone(self.active, JOG_DUTY_PCT))
                &&& m.same_rest(Motors { awake: true, ..motors })
                &&& wait == Wait::Event(LANE_POLL_MS)
            },
            (Run::Idle, Some(Event::Select(d))) => {
                &&& next == (LaneTest { active: lane_of(d), ..self })
                &&& m == motors
                &&& wait == Wait::Event(RECV_MS)
            },
            (Run::Idle, _) => next == self && m == motors && wait == Wait::Event(RECV_MS),
            (Run::Out { since }, _) => if self.is_out(since, now, levels) {
                self.turns_back(motors, now, levels, next, m, wait)
            } else {
                next == self && m == motors && wait == Wait::Event(LANE_POLL_MS)
            },
            (Run::Back { since }, _) => if self.is_back(since, now, levels) {
                self.ends(motors, next, m, wait)
            } else {
                next == self && m == motors && wait == Wait::Event(LANE_POLL_MS)
            },
        }
    }

    /// Starts on the first lane, with the drivers awake.
    pub fn start(motors: &mut Motors) -> (r: (LaneTest, Wait))
        ensures
            r.0 == (LaneTest { active: 0, run: Run::Idle }),
            r.1 == Wait::Event(RECV_MS),
            *final(motors) == (Motors { awake: true, ..*old(motors) }),
    {
        motors.enable(true);
        (LaneTest { active: 0, run: Run::Idle }, Wait::Event(RECV_MS))
    }

    /// Begins the return leg, or ends the run if the lane is home.
    fn turn_back(&mut self, motors: &mut Motors, now: u64, levels: &Levels) -> (wait: Wait)
        requires
            old(self).active < LANES,
        ensures
            old(self).turns_back(*old(motors), now, *levels, *final(self), *final(motors), wait),
            final(motors).wf(),
    {
        if home_closed(levels, self.active) {
            motors.coast_all();
            self.run = Run::Idle;
            Wait::Event(RECV_MS)
        } else {
            motors.reverse_all(HOMING_PCT);
            self.run = Run::Back { since: now };
            Wait::Event(LANE_POLL_MS)
        }
    }

    /// One turn of a run under way.
    fn run_to_end_and_home(
        &mut self,
        motors: &mut Motors,
        now: u64,
        levels: &Levels,
    ) -> (wait: Wait)
        requires
            old(self).wf(now),
            old(self).run !is Idle,
            old(motors).wf(),
        ensures
            old(self).steps(*old(motors), now, *levels, None, *final(self), *final(motors), wait),
            final(motors).wf(),
    {
        match self.run {
            Run::Out { since } => if end_closed(levels, self.active) || now - since > micros(
                RACE_TIMEOUT_MS,
            ) {
                self.turn_back(motors, now, levels)
            } else {
                Wait::Event(LANE_POLL_MS)
            },
            Run::Back { since } => if home_closed(levels, self.active) || now - since > micros(
                RESET_TIMEOUT_MS,
            ) {
                motors.coast_all();
                self.run = Run::Idle;
                Wait::Event(RECV_MS)
            } else {
                Wait::Event(LANE_POLL_MS)
            },
            Run::Idle => Wait::Event(RECV_MS),
        }
    }

    /// One turn: between runs a duck button picks the lane and GO starts a run; a run under
    /// way goes on whatever is pressed.
    pub fn lane_sequence(
        &mut self,
        motors: &mut Motors,
        now: u64,
        levels: &Levels,
        ev: Option<Event>,
    ) -> (wait: Wait)
        requires
            old(self).wf(now),
            old(motors).wf(),
        ensures
            old(self).steps(*old(motors), now, *levels, ev, *final(self), *final(motors), wait),
            final(self).wf(now),
            final(motors).wf(),
            wait.is_short(),
    {
        match self.run {
            Run::Idle => match ev {
                Some(Event::Select(d)) => {
                    self.active = clamp_lane(d);
                    Wait::Event(RECV_MS)
                },
                Some(Event::Go) => if end_closed(levels, self.active) {
                    self.turn_back(motors, now, levels)
                } else {
                    motors.enable(true);
                    drive_alone(motors, self.active, JOG_DUTY_PCT);
                    self.run = Run::Out { since: now };
                    Wait::Event(LANE_POLL_MS)
                },
                _ => Wait::Event(RECV_MS),
            },
            _ => self.run_to_end_and_home(motors, now, levels),
        }
    }
}

/// Law: a leg that starts on the switch it drives to is skipped: GO on a lane that is on both
/// its switches moves nothing, and a lane on its finish switch goes straight home.
pub proof fn legs_already_done_are_skipped(
    t: LaneTest,
    motors: Motors,
    now: u64,
    levels: Levels,
    next: LaneTest,
    m: Motors,
    wait: Wait,
)
    requires
        t.run is Idle,
        levels.at(Slot::End(t.active)),
        t.steps(motors, now, levels, Some(Event::Go), next, m, wait),
    ensures
        levels.at(Slot::Home(t.active)) ==> next.run is Idle && m.coasting(),
        !levels.at(Slot::Home(t.active)) ==> next.run == (Run::Back { since: now })
            && m.reversing(HOMING_PCT),
{
}

/// Law: a run under way cannot be disturbed by a button, and each of its legs ends in time.
pub proof fn runs_go_their_way(
    t: LaneTest,
    motors: Motors,
    now: u64,
    levels: Levels,
    ev: Option<Event>,
    next: LaneTest,
    m: Motors,
    wait: Wait,
)
    requires
        t.run !is Idle,
        t.steps(motors, now, levels, ev, next, m, wait),
    ensures
        t.steps(motors, now, levels, None, next, m, wait),
        next.active == t.active,
        match t.run {
            Run::Out { since } => now - since > us(RACE_TIMEOUT_MS as int) ==> next.run !is Out,
            Run::Back { since } => now - since > us(RESET_TIMEOUT_MS as int) ==> next.run is Idle
                && m.coasting(),
            Run::Idle => true,
        },
{
}

// ---- Clip check ----

/// Clips in the set.
pub const CLIPS: usize = 7;

/// How much one press of UP or DOWN moves the volume.
pub const VOLUME_STEP: u8 = 2;

/// The panel's buttons; `true` is held down.
#[derive(Clone, Copy, Debug)]
pub struct Panel {
    pub selects: [bool; LANES],
    pub go: bool,
    pub up: bool,
    pub down: bool,
}

/// The clip check: duck buttons play the bets, GO the next clip of the set, UP and DOWN set
/// the volume.
#[derive(Clone, Copy, Debug)]
pub struct AudioCheck {
    /// The clip GO plays next.
    pub idx: usize,
    pub volume: u8,
    /// The panel at the last look.
    pub last: Panel,
}

/// What a look at the panel asks for: the bets in lane order, then GO's clip, then the
/// volume after UP, then the volume after DOWN.
#[derive(Clone, Copy, Debug)]
pub struct Clips {
    pub bets: [bool; LANES],
    pub clip: Option<Sound>,
    pub louder: Option<u8>,
    pub softer: Option<u8>,
}

/// The set, in the order of its files.
pub open spec fn clip_of(idx: usize) -> Sound {
    if idx < LANES {
        Sound::Bet(idx as u8)
    } else if idx == 4 {
        Sound::Race
    } else if idx == 5 {
        Sound::Win
    } else {
        Sound::Lose
    }
}

/// The clip at `idx` in the set.
pub fn cycle(idx: usize) -> (s: Sound)
    requires
        idx < CLIPS,
    ensures
        s == clip_of(idx),
{
    if idx < LANES {
        Sound::Bet(idx as u8)
    } else if idx == 4 {
        Sound::Race
    } else if idx == 5 {
        Sound::Win
    } else {
        Sound::Lose
    }
}

/// A volume after UP.
pub open spec fn louder_than(volume: u8) -> u8 {
    if volume + VOLUME_STEP > VOLUME_MAX {
        VOLUME_MAX
    } else {
        (volume + VOLUME_STEP) as u8
    }
}

/// A volume after DOWN.
pub open spec fn softer_than(volume: u8) -> u8 {
    if volume < VOLUME_STEP {
        0
    } else {
        (volume - VOLUME_STEP) as u8
    }
}

impl AudioCheck {
    /// The next clip is in the set, and the volume on the scale.
    pub open spec fn wf(self) -> bool {
        self.idx < CLIPS && self.volume <= VOLUME_MAX
    }

    /// One look at `panel`: from `self` to `next`, asking for `asked`. A button acts when it is
    /// down and was up at the look before.
    pub open spec fn looks(self, panel: Panel, next: AudioCheck, asked: Clips) -> bool {
        let go = panel.go && !self.last.go;
        let up = panel.up && !self.last.up;
        let down = panel.down && !self.last.down;
        let raised = if up {
            louder_than(self.volume)
        } else {
            self.volume
        };
        &&& next.last == panel
        &&& forall|l: int|
            0 <= l < LANES ==> #[trigger] asked.bets[l] == (panel.selects[l]
                && !self.last.selects[l])
        &&& asked.clip == if go {
            Some(clip_of(self.idx))
        } else {
            None
        }
        &&& next.idx == if go {
            (self.idx + 1) % (CLIPS as int)
        } else {
            self.idx as int
        }
        &&& asked.louder == if up {
            Some(raised)
        } else {
            None
        }
        &&& asked.softer == if down {
            Some(softer_than(raised))
        } else {
            None
        }
        &&& next.volume == if down {
            softer_than(raised)
        } else {
            raised
        }
    }

    /// Starts at the first clip and the default volume.
    pub fn start() -> (check: AudioCheck)
        ensures
            check.wf(),
            check.idx == 0,
            check.volume == VOLUME_DEFAULT,
            forall|l: int| 0 <= l < LANES ==> !#[trigger] check.last.selects[l],
            !check.last.go && !check.last.up && !check.last.down,
    {
        AudioCheck {
            idx: 0,
            volume: VOLUME_DEFAULT,
            last: Panel { selects: [false; LANES], go: false, up: false, down: false },
        }
    }

    /// One look at the panel. A button acts once per press, when it goes down.
    pub fn audio_check(&mut self, panel: &Panel) -> (asked: Clips)
        requires
            old(self).wf(),
        ensures
            final(self).wf(),
            old(self).looks(*panel, *final(self), asked),
    {
        let mut bets: [bool; LANES] = [false; LANES];
        let mut i: usize = 0;
        while i < LANES
            invariant
                i <= LANES,
                forall|l: int|
                    0 <= l < i ==> #[trigger] bets[l] == (panel.selects[l]
                        && !self.last.selects[l]),
            decreases LANES - i,
        {
            bets[i] = panel.selects[i] && !self.last.selects[i];
            i = i + 1;
        }
        let mut clip: Option<Sound> = None;
        if panel.go && !self.last.go {
            clip = Some(cycle(self.idx));
            self.idx = (self.idx + 1) % CLIPS;
        }
        let mut louder: Option<u8> = None;
        if panel.up && !self.last.up {
            let up: u8 = self.volume + VOLUME_STEP;
            self.volume = if up > VOLUME_MAX {
                VOLUME_MAX
            } else {
                up
            };
            louder = Some(self.volume);
        }
        let mut softer: Option<u8> = None;
        if panel.down && !self.last.down {
            self.volume = self.volume.saturating_sub(VOLUME_STEP);
            softer = Some(self.volume);
        }
        self.last = *panel;
        Clips { bets, clip, louder, softer }
    }
}

/// Law: the set is in the order of its files, so the clip at `idx` is on track `idx + 1`.
pub proof fn set_is_in_file_order(idx: usize)
    requires
        idx < CLIPS,
    ensures
        clip_of(idx).on_track() == Some((idx + 1) as u16),
{
}

/// Law: GO steps through the whole set: from any clip, some press before it comes round again
/// plays any other, and after as many presses as there are clips it is back where it was.
pub proof fn go_plays_every_clip(idx: usize, track: u16)
    requires
        idx < CLIPS,
        1 <= track <= CLIPS,
    ensures
        exists|k: int|
            0 <= k < CLIPS && #[trigger] clip_of(((idx + k) % (CLIPS as int)) as usize).on_track()
                == Some(track),
        (idx + CLIPS) % (CLIPS as int) == idx,
{
    let k: int = if track - 1 >= idx {
        track - 1 - idx
    } else {
        track - 1 - idx + CLIPS
    };
    assert((idx + k) % (CLIPS as int) == track - 1);
    assert(clip_of(((idx + k) % (CLIPS as int)) as usize).on_track() == Some(track));
}

/// Law: the volume stays on the scale, and away from its ends UP and DOWN undo each other.
pub proof fn volume_stays_on_the_scale(volume: u8)
    requires
        volume <= VOLUME_MAX,
    ensures
        louder_than(volume) <= VOLUME_MAX,
        softer_than(volume) <= VOLUME_MAX,
        volume + VOLUME_STEP <= VOLUME_MAX ==> softer_than(louder_than(volume)) == volume,
        volume >= VOLUME_STEP ==> louder_than(softer_than(volume)) == volume,
{
}

// ---- The modes, case by case ----

/// Law: of several duck buttons held, the highest counts, whatever was in use before; with
/// none held, nothing changes.
pub proof fn highest_held_button_counts(active: usize, held: Seq<bool>)
    requires
        held.len() == LANES,
    ensures
        held[3] ==> last_held(active, held, LANES as nat) == 3,
        !held[3] && held[2] ==> last_held(active, held, LANES as nat) == 2,
        !held[3] && !held[2] && held[1] ==> last_held(active, held, LANES as nat) == 1,
        !held[3] && !held[2] && !held[1] && held[0] ==> last_held(active, held, LANES as nat) == 0,
        !held[3] && !held[2] && !held[1] && !held[0] ==> last_held(active, held, LANES as nat)
            == active,
{
    reveal_with_fuel(last_held, 5);
}

/// Law: a lane driven alone has its duty, and every other lane has none.
pub proof fn alone_is_one_lane(lane: usize, pct: u8, l: int)
    requires
        0 <= l < LANES,
    ensures
        alone(lane, pct).len() == LANES,
        l == lane ==> alone(lane, pct)[l] == pct,
        l != lane ==> alone(lane, pct)[l] == 0,
{
}

/// Law: between runs, a duck button picks its lane and changes nothing else, GO starts a run,
/// and no other event does anything.
pub proof fn idle_lane_waits_for_go(
    t: LaneTest,
    motors: Motors,
    now: u64,
    levels: Levels,
    ev: Option<Event>,
    next: LaneTest,
    m: Motors,
    wait: Wait,
    lane: int,
)
    requires
        t.run is Idle,
        t.active < LANES,
        0 <= lane < LANES,
        t.steps(motors, now, levels, ev, next, m, wait),
    ensures
        match ev {
            Some(Event::Select(d)) => next == (LaneTest { active: lane_of(d), run: Run::Idle }) && m
                == motors && wait == Wait::Event(RECV_MS),
            Some(Event::Go) => {
                &&& next.active == t.active
                &&& !levels.end[t.active as int] ==> {
                    &&& next.run == (Run::Out { since: now })
                    &&& m.awake && m.rev.compare_a == 0
                    &&& m.fwd(lane) == if lane == t.active {
                        compare_of(JOG_DUTY_PCT)
                    } else {
                        0
                    }
                    &&& wait == Wait::Event(LANE_POLL_MS)
                }
                &&& levels.end[t.active as int] && !levels.home[t.active as int] ==> {
                    &&& next.run == (Run::Back { since: now })
                    &&& m.fwd(lane) == 0 && m.rev.compare_a == compare_of(HOMING_PCT)
                    &&& wait == Wait::Event(LANE_POLL_MS)
                }
                &&& levels.end[t.active as int] && levels.home[t.active as int] ==> {
                    &&& next.run is Idle
                    &&& m.fwd(lane) == 0 && m.rev.compare_a == 0
                    &&& wait == Wait::Event(RECV_MS)
                }
            },
            _ => next == t && m == motors && wait == Wait::Event(RECV_MS),
        },
{
    assert(compare_of(0) == 0) by {
        compare_is_monotone(0, 0);
    }
}

/// Law: the way out goes on until the active lane is on its own finish switch or its time is
/// up. Then the way back begins, unless the lane is home already, which ends the run.
pub proof fn way_out_ends_at_the_finish(
    t: LaneTest,
    since: u64,
    motors: Motors,
    now: u64,
    levels: Levels,
    ev: Option<Event>,
    next: LaneTest,
    m: Motors,
    wait: Wait,
    lane: int,
)
    requires
        t.run == (Run::Out { since }),
        t.active < LANES,
        0 <= lane < LANES,
        t.steps(motors, now, levels, ev, next, m, wait),
    ensures
        next.active == t.active,
        m.awake == motors.awake,
        ({
            let over = levels.end[t.active as int] || now - since > us(RACE_TIMEOUT_MS as int);
            &&& !over ==> next == t && m == motors && wait == Wait::Event(LANE_POLL_MS)
            &&& over && !levels.home[t.active as int] ==> {
                &&& next.run == (Run::Back { since: now })
                &&& m.fwd(lane) == 0 && m.rev.compare_a == compare_of(HOMING_PCT)
                &&& wait == Wait::Event(LANE_POLL_MS)
            }
            &&& over && levels.home[t.active as int] ==> {
                &&& next.run is Idle
                &&& m.fwd(lane) == 0 && m.rev.compare_a == 0
                &&& wait == Wait::Event(RECV_MS)
            }
        }),
{
}

/// Law: the way back goes on until the active lane is on its own home switch or its time is
/// up; then the run is over and the lanes coast.
pub proof fn way_back_ends_at_home(
    t: LaneTest,
    since: u64,
    motors: Motors,
    now: u64,
    levels: Levels,
    ev: Option<Event>,
    next: LaneTest,
    m: Motors,
    wait: Wait,
    lane: int,
)
    requires
        t.run == (Run::Back { since }),
        t.active < LANES,
        0 <= lane < LANES,
        t.steps(motors, now, levels, ev, next, m, wait),
    ensures
        next.active == t.active,
        m.awake == motors.awake,
        ({
            let over = levels.home[t.active as int] || now - since > us(RESET_TIMEOUT_MS as int);
            &&& !over ==> next == t && m == motors && wait == Wait::Event(LANE_POLL_MS)
            &&& over ==> {
                &&& next.run is Idle
                &&& m.fwd(lane) == 0 && m.rev.compare_a == 0
                &&& wait == Wait::Event(RECV_MS)
            }
        }),
{
}

/// Law: a run under way is well formed on a lane that exists, and when it began no later than
/// now.
pub proof fn lane_runs_began_before(t: LaneTest, at: u64)
    ensures
        t.wf(at) <==> t.active < LANES && match t.run {
            Run::Idle => true,
            Run::Out { since } => since <= at,
            Run::Back { since } => since <= at,
        },
{
}

/// Law: UP and DOWN move the volume by one step and stop at the ends of the scale.
pub proof fn volume_moves_one_step(volume: u8)
    requires
        volume <= VOLUME_MAX,
    ensures
        volume + VOLUME_STEP <= VOLUME_MAX ==> louder_than(volume) == volume + VOLUME_STEP,
        volume + VOLUME_STEP > VOLUME_MAX ==> louder_than(volume) == VOLUME_MAX,
        volume >= VOLUME_STEP ==> softer_than(volume) == volume - VOLUME_STEP,
        volume < VOLUME_STEP ==> softer_than(volume) == 0,
{
}

/// Law: the clip check is well formed wherever it is in the set and on the scale.
pub proof fn clip_check_is_on_the_scale(check: AudioCheck)
    ensures
        check.wf() <==> check.idx < CLIPS && check.volume <= VOLUME_MAX,
{
}

/// Law: the jog drives exactly what is held: UP the lane of the highest duck button held, or
/// of the last one, and no other; DOWN without UP every lane back; and with neither nothing.
/// The fault line has no say in it, and is reported exactly when it has changed.
pub proof fn jog_drives_what_is_held(
    jog: Jog,
    held: Seq<bool>,
    fwd: bool,
    rev: bool,
    faulted: bool,
    next: Jog,
    motors: Motors,
    report: Option<bool>,
    lane: int,
)
    requires
        jog.jogs(held, fwd, rev, faulted, next, motors, report),
        held.len() == LANES,
        0 <= lane < LANES,
    ensures
        held[lane] && (forall|l: int| lane < l < LANES ==> !#[trigger] held[l]) ==> next.active
            == lane,
        (forall|l: int| 0 <= l < LANES ==> !#[trigger] held[l]) ==> next.active == jog.active,
        fwd ==> motors.rev.compare_a == 0 && motors.fwd(lane) == if lane == next.active {
            compare_of(JOG_DUTY_PCT)
        } else {
            0
        },
        !fwd && rev ==> motors.fwd(lane) == 0 && motors.rev.compare_a == compare_of(JOG_DUTY_PCT),
        !fwd && !rev ==> motors.fwd(lane) == 0 && motors.rev.compare_a == 0,
        next.faulted == faulted,
        report is Some <==> faulted != jog.faulted,
        report matches Some(f) ==> f == faulted,
{
    highest_held_button_counts(jog.active, held);
    compare_is_monotone(0, 0);
}

/// Law: a button of the clip check acts once per press: a second look at an unchanged panel
/// asks for nothing and changes nothing.
pub proof fn held_buttons_act_once(
    a: AudioCheck,
    b: AudioCheck,
    c: AudioCheck,
    panel: Panel,
    first: Clips,
    second: Clips,
    lane: int,
)
    requires
        a.looks(panel, b, first),
        b.looks(panel, c, second),
        b.wf(),
        0 <= lane < LANES,
    ensures
        !second.bets[lane],
        second.clip is None && second.louder is None && second.softer is None,
        c.idx == b.idx && c.volume == b.volume,
{
}

/// Law: after a look at which all buttons were up, a duck button plays its own bet and no
/// other, GO plays the next clip and moves on by one, round the set, and UP and DOWN set the
/// volume they name, UP first.
pub proof fn presses_play_what_they_name(
    check: AudioCheck,
    panel: Panel,
    next: AudioCheck,
    asked: Clips,
    lane: int,
)
    requires
        check.wf(),
        check.looks(panel, next, asked),
        0 <= lane < LANES,
        !check.last.selects[lane] && !check.last.go && !check.last.up && !check.last.down,
    ensures
        asked.bets[lane] == panel.selects[lane],
        panel.go ==> asked.clip == Some(clip_of(check.idx)) && (next.idx == check.idx + 1
            || next.idx == 0 && check.idx + 1 == CLIPS),
        !panel.go ==> asked.clip is None && next.idx == check.idx,
        panel.up ==> asked.louder == Some(louder_than(check.volume)),
        !panel.up ==> asked.louder is None,
        panel.down ==> asked.softer == Some(next.volume) && next.volume == if panel.up {
            softer_than(louder_than(check.volume))
        } else {
            softer_than(check.volume)
        },
        !panel.down ==> asked.softer is None,
        panel.up && !panel.down ==> next.volume == louder_than(check.volume),
        !panel.up && !panel.down ==> next.volume == check.volume,
{
}

} // verus!
