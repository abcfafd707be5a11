//! The game: nudge, home, attract, select, race, winner, and home again.
//!
//! A `Game` takes one turn at a time. Each turn reads the clock, the limit switches, fresh
//! random numbers and what the last wait gave, moves the state machine on, sets the motors,
//! and says what to show, play and wait for. No payout: prizes are handed out by hand.

use crate::audio::Sound;
use crate::calibrate::{is_record, Baselines, Leg, Tune, TuneTurn, TEST_POLL_MS};
use crate::clock::{micros, us, LAST_INSTANT};
use crate::config::{
    BOOT_NUDGE_MS, BOOT_NUDGE_PCT, DEBOUNCE_MS, FRAME_MS, HOMING_PCT, KICK_MS, KICK_PCT, LANES,
    RACE_START_DELAY_MS, RESET_TIMEOUT_MS, WINNER_SHOW_MS,
};
use crate::inputs::{end_closed, home_closed, Event, Levels};
use crate::leds::Mode;
use crate::motors::Motors;
use crate::race::{Race, Standing};
use crate::turn::{clamp_lane, lane_of, Output, Senses, Wait, RECV_MS};
use vstd::prelude::*;

verus! {

/// How often homing looks at the home switches.
pub const HOME_POLL_MS: u64 = 50;

/// How often the hold before a race, and the winner's show, look at the clock.
pub const IDLE_POLL_MS: u64 = 200;

/// How long the lanes are braked at the finish before they coast.
pub const BRAKE_MS: u64 = 200;

/// How long the level cache is given to see that the nudge has opened the home switches.
pub const SETTLE_MS: u64 = 3 * DEBOUNCE_MS;

/// A homing pass: the lanes that have been seen home since it began.
#[derive(Clone, Copy, Debug)]
pub struct Homing {
    pub homed: [bool; LANES],
    pub since: u64,
}

/// Where the machine is.
#[derive(Clone, Copy, Debug)]
pub enum Phase {
    /// Powered up; `tune` if GO was held.
    Boot { tune: bool },
    /// Calibrating.
    Tune(Tune),
    /// Every lane is being nudged off its home switch.
    Nudge,
    /// The nudge is over; the switches settle.
    Settle,
    /// All lanes are being reversed into their home bumpers.
    Home(Homing),
    /// Waiting for a player.
    Attract,
    /// A duck is picked; waiting for GO.
    Selecting { pick: usize },
    /// Lights and music are on; the field is held.
    Hold { pick: usize, since: u64 },
    /// The launch kick.
    Kick { pick: usize },
    /// The race.
    Race { pick: usize, race: Race },
    /// The race is over; the lanes are braked.
    Brake { pick: usize, winner: Option<usize> },
    /// The result is on show.
    Winner { since: u64 },
}

/// Every lane is on its home switch.
pub open spec fn all_home(levels: Levels) -> bool {
    forall|l: int| 0 <= l < LANES ==> #[trigger] levels.home[l]
}

/// The duties of the boot nudge: a lane that is already on its finish switch is left alone.
pub open spec fn nudge_duties_of(levels: Levels) -> Seq<u8> {
    Seq::new(
        LANES as nat,
        |l: int|
            if levels.end[l] {
                0u8
            } else {
                BOOT_NUDGE_PCT
            },
    )
}

/// The duties of the launch kick.
pub open spec fn kick_duties() -> Seq<u8> {
    Seq::new(LANES as nat, |l: int| KICK_PCT)
}

impl Homing {
    /// The lanes homed after looking at the switches once more.
    pub open spec fn sees(self, before: Homing, levels: Levels) -> bool {
        &&& self.since == before.since
        &&& forall|l: int|
            0 <= l < LANES ==> #[trigger] self.homed[l] == (before.homed[l] || levels.home[l])
    }

    /// Every lane has been seen home, now or before.
    pub open spec fn complete_with(self, levels: Levels) -> bool {
        forall|l: int| 0 <= l < LANES ==> #[trigger] self.homed[l] || levels.home[l]
    }

    /// A pass that begins with the lanes that are home already.
    pub fn begin(now: u64, levels: &Levels) -> (homing: Homing)
        ensures
            homing == (Homing { homed: levels.home, since: now }),
    {
        Homing { homed: levels.home, since: now }
    }

    /// Looks at the home switches; a lane that has been seen home stays so.
    pub fn look(&mut self, levels: &Levels)
        ensures
            final(self).sees(*old(self), *levels),
    {
        let mut l: usize = 0;
        while l < LANES
            invariant
                l <= LANES,
                self.since == old(self).since,
                forall|k: int|
                    0 <= k < l ==> #[trigger] self.homed[k] == (old(self).homed[k]
                        || levels.home[k]),
                forall|k: int| l <= k < LANES ==> #[trigger] self.homed[k] == old(self).homed[k],
            decreases LANES - l,
        {
            if !self.homed[l] && home_closed(levels, l) {
                self.homed[l] = true;
            }
            l = l + 1;
        }
    }

    /// Has every lane been seen home?
    pub fn complete(&self) -> (done: bool)
        ensures
            done <==> forall|l: int| 0 <= l < LANES ==> #[trigger] self.homed[l],
    {
        let mut done: bool = true;
        let mut l: usize = 0;
        while l < LANES
            invariant
                l <= LANES,
                done <==> forall|k: int| 0 <= k < l ==> #[trigger] self.homed[k],
            decreases LANES - l,
        {
            done = done && self.homed[l];
            l = l + 1;
        }
        done
    }
}

/// The duties of the boot nudge.
pub fn nudge_duties(levels: &Levels) -> (duties: [u8; LANES])
    ensures
        duties@ == nudge_duties_of(*levels),
{
    let mut duties: [u8; LANES] = [BOOT_NUDGE_PCT;LANES];
    let mut l: usize = 0;
    while l < LANES
        invariant
            l <= LANES,
            forall|k: int| 0 <= k < l ==> #[trigger] duties@[k] == nudge_duties_of(*levels)[k],
            forall|k: int| l <= k < LANES ==> #[trigger] duties@[k] == BOOT_NUDGE_PCT,
        decreases LANES - l,
    {
        if end_closed(levels, l) {
            duties[l] = 0;
        }
        l = l + 1;
    }
    assert(duties@ =~= nudge_duties_of(*levels));
    duties
}

/// The machine: its phase, its motors, its baselines, and the time of its last turn.
#[derive(Clone, Copy, Debug)]
pub struct Game {
    pub phase: Phase,
    pub motors: Motors,
    pub base: Baselines,
    pub at: u64,
}

impl Game {
    /// The phase holds lanes that exist and times that have passed.
    pub open spec fn phase_wf(self) -> bool {
        match self.phase {
            Phase::Tune(t) => t.wf(self.at),
            Phase::Home(h) => h.since <= self.at,
            Phase::Selecting { pick } => pick < LANES,
            Phase::Hold { pick, since } => pick < LANES && since <= self.at,
            Phase::Kick { pick } => pick < LANES,
            Phase::Race { pick, race } => pick < LANES && race.wf(self.at),
            Phase::Brake { pick, winner } => pick < LANES && (winner matches Some(w) ==> w < LANES),
            Phase::Winner { since } => since <= self.at,
            _ => true,
        }
    }

    /// What the motors do in each phase. They are at rest whenever the machine waits for a
    /// player or shows a result; they go back only in homing and in TUNE mode.
    pub open spec fn motors_match(self) -> bool {
        match self.phase {
            Phase::Boot { .. } => self.motors.coasting(),
            Phase::Tune(t) => t.drives(self.motors, self.base),
            Phase::Nudge => self.motors.rev.compare_a == 0,
            Phase::Settle => self.motors.coasting(),
            Phase::Home(_) => self.motors.reversing(HOMING_PCT),
            Phase::Attract => self.motors.coasting(),
            Phase::Selecting { .. } => self.motors.coasting(),
            Phase::Hold { .. } => self.motors.coasting(),
            Phase::Kick { .. } => self.motors.running(kick_duties()),
            Phase::Race { race, .. } => self.motors.running(race.duties(self.at)),
            Phase::Brake { .. } => self.motors.braking(),
            Phase::Winner { .. } => self.motors.coasting(),
        }
    }

    /// What holds of the machine between any two turns.
    pub open spec fn wf(self) -> bool {
        &&& self.phase_wf()
        &&& self.motors_match()
        &&& self.motors.wf()
        &&& self.phase !is Boot && self.phase !is Tune ==> self.motors.awake
    }

    /// `next` has these baselines still, and its motors are as before but for what the phase
    /// makes them do.
    pub open spec fn keeps(self, next: Game, awake: bool) -> bool {
        &&& next.base == self.base
        &&& next.motors.same_rest(Motors { awake, ..self.motors })
    }

    /// The turn goes into homing. If every lane is home already there is nothing to do, and
    /// the machine waits for a player.
    pub open spec fn enters_home(self, s: Senses, next: Game, out: Output) -> bool {
        &&& self.keeps(next, true)
        &&& if all_home(s.levels) {
            &&& next.phase == Phase::Attract
            &&& next.motors.coasting()
            &&& out == Output {
                mode: Some(Mode::Attract),
                sound: Some(Sound::Home),
                ..Output::only(Wait::Event(RECV_MS))
            }
        } else {
            &&& next.phase == Phase::Home(Homing { homed: s.levels.home, since: s.now })
            &&& next.motors.reversing(HOMING_PCT)
            &&& out == Output {
                mode: Some(Mode::Home),
                sound: Some(Sound::Home),
                ..Output::only(Wait::Event(HOME_POLL_MS))
            }
        }
    }

    /// The turn goes into the boot nudge.
    pub open spec fn enters_nudge(self, s: Senses, next: Game, out: Output) -> bool {
        if BOOT_NUDGE_MS == 0 {
            self.enters_home(s, next, out)
        } else {
            &&& self.keeps(next, true)
            &&& next.phase == Phase::Nudge
            &&& next.motors.running(nudge_duties_of(s.levels))
            &&& out == Output::only(Wait::Sleep(BOOT_NUDGE_MS))
        }
    }

    /// Enters homing.
    fn enter_home(&mut self, s: &Senses) -> (out: Output)
        ensures
            old(self).enters_home(*s, *final(self), out),
            final(self).motors.wf(),
            final(self).at == old(self).at,
    {
        self.motors.enable(true);
        let homing: Homing = Homing::begin(s.now, &s.levels);
        let done: bool = homing.complete();
        assert(done <==> all_home(s.levels)) by {
            assert(forall|l: int| #[trigger] s.levels.home[l] == homing.homed[l]);
            assert(forall|l: int| #[trigger] homing.homed[l] == s.levels.home[l]);
        }
        if done {
            self.motors.coast_all();
            self.phase = Phase::Attract;
            Output {
                drain: false,
                mode: Some(Mode::Attract),
                sound: Some(Sound::Home),
                save: None,
                wait: Wait::Event(RECV_MS),
            }
        } else {
            self.motors.reverse_all(HOMING_PCT);
            self.phase = Phase::Home(homing);
            Output {
                drain: false,
                mode: Some(Mode::Home),
                sound: Some(Sound::Home),
                save: None,
                wait: Wait::Event(HOME_POLL_MS),
            }
        }
    }

    /// Enters the boot nudge.
    fn enter_nudge(&mut self, s: &Senses) -> (out: Output)
        ensures
            old(self).enters_nudge(*s, *final(self), out),
            final(self).motors.wf(),
            final(self).at == old(self).at,
    {
        if BOOT_NUDGE_MS == 0 {
            return self.enter_home(s);
        }
        self.motors.enable(true);
        let duties: [u8; LANES] = nudge_duties(&s.levels);
        self.motors.race_forward(&duties);
        self.phase = Phase::Nudge;
        Output::quiet(Wait::Sleep(BOOT_NUDGE_MS))
    }

    /// A turn of TUNE mode. Between test runs the buttons work as `Tune::tune_mode` says, and
    /// a save leads on to the game; a run goes on as `Tune::test_lane` says.
    pub open spec fn tunes(
        self,
        t: Tune,
        s: Senses,
        ev: Option<Event>,
        next: Game,
        out: Output,
    ) -> bool {
        if t.leg is Idle && ev == Some(Event::GoLong) {
            &&& out.save matches Some(buf) && is_record(buf@, self.base.pct@)
            &&& self.enters_nudge(s, next, Output { save: None, ..out })
        } else {
            &&& next.phase matches Phase::Tune(u) && if t.leg is Idle {
                &&& u == t.after_button(s.now, ev)
                &&& next.base.pct@ == t.adjusts(self.base, ev)
                &&& out == t.asks(self.base, ev)
                &&& if ev == Some(Event::Go) {
                    &&& next.motors.same_rest(Motors { awake: true, ..self.motors })
                    &&& next.motors.carries(
                        |l: int|
                            if l == t.active {
                                crate::config::compare_of(self.base.pct[l])
                            } else {
                                self.motors.fwd(l)
                            },
                        0,
                    )
                } else {
                    next.motors == self.motors
                }
            } else {
                &&& self.keeps(next, self.motors.awake)
                &&& if !t.leg_over(s.now, s.levels, ev) {
                    &&& u == t
                    &&& next.motors == self.motors
                    &&& out == Output::only(Wait::Event(TEST_POLL_MS))
                } else if t.leg is Out {
                    &&& u == Tune { leg: Leg::Back { since: s.now }, ..t }
                    &&& next.motors.reversing(HOMING_PCT)
                    &&& out == Output::only(Wait::Event(TEST_POLL_MS))
                } else {
                    &&& u == Tune { leg: Leg::Idle, ..t }
                    &&& next.motors.coasting()
                    &&& out == Output::only(Wait::Event(RECV_MS))
                }
            }
        }
    }

    /// A turn of homing: it is over when every lane has been seen home, or at the timeout.
    /// The switch levels decide, not events.
    pub open spec fn homes(self, h: Homing, s: Senses, next: Game, out: Output) -> bool {
        &&& self.keeps(next, self.motors.awake)
        &&& if h.complete_with(s.levels) || s.now - h.since > us(RESET_TIMEOUT_MS as int) {
            &&& next.phase == Phase::Attract
            &&& next.motors.coasting()
            &&& out == Output {
                mode: Some(Mode::Attract),
                ..Output::only(Wait::Event(RECV_MS))
            }
        } else {
            &&& next.phase matches Phase::Home(n) && n.sees(h, s.levels)
            &&& next.motors == self.motors
            &&& out == Output::only(Wait::Event(HOME_POLL_MS))
        }
    }

    /// A duck is picked: its row lights up and its clip plays.
    pub open spec fn picks(self, d: u8, next: Game, out: Output) -> bool {
        &&& next.phase == Phase::Selecting { pick: lane_of(d) }
        &&& out == Output {
            mode: Some(Mode::Select(lane_of(d) as u8)),
            sound: Some(Sound::Bet(lane_of(d) as u8)),
            ..Output::only(Wait::Event(RECV_MS))
        }
    }

    /// A turn of waiting for a player: only a duck button matters before a duck is picked;
    /// then another duck button changes the pick, and GO starts the race: lights and music at
    /// once, the field held.
    pub open spec fn selects(
        self,
        picked: Option<usize>,
        s: Senses,
        ev: Option<Event>,
        next: Game,
        out: Output,
    ) -> bool {
        match ev {
            Some(Event::Select(d)) => {
                &&& self.picks(d, next, out)
                &&& next.base == self.base
                &&& next.motors == self.motors
            },
            Some(Event::Go) if picked is Some => {
                &&& self.keeps(next, true)
                &&& next.phase == Phase::Hold { pick: picked->0, since: s.now }
                &&& next.motors.coasting()
                &&& out == Output {
                    mode: Some(Mode::Race),
                    sound: Some(Sound::Race),
                    ..Output::only(Wait::Sleep(IDLE_POLL_MS))
                }
            },
            _ => {
                &&& next.phase == self.phase
                &&& next.base == self.base
                &&& next.motors == self.motors
                &&& out == Output::only(Wait::Event(RECV_MS))
            },
        }
    }

    /// A turn of the hold. When it is over every event that has come in is discarded, and all
    /// lanes are kicked off together.
    pub open spec fn holds(
        self,
        pick: usize,
        since: u64,
        s: Senses,
        next: Game,
        out: Output,
    ) -> bool {
        &&& self.keeps(next, self.motors.awake)
        &&& if s.now - since < us(RACE_START_DELAY_MS as int) {
            &&& next.phase == self.phase
            &&& next.motors == self.motors
            &&& out == Output::only(Wait::Sleep(IDLE_POLL_MS))
        } else {
            &&& next.phase == Phase::Kick { pick }
            &&& next.motors.running(kick_duties())
            &&& out == Output { drain: true, ..Output::only(Wait::Sleep(KICK_MS)) }
        }
    }

    /// The kick is over: the race clock starts and every lane is on its opening segment.
    pub open spec fn launches(self, pick: usize, s: Senses, next: Game, out: Output) -> bool {
        &&& self.keeps(next, self.motors.awake)
        &&& next.phase matches Phase::Race { pick: p, race } && p == pick && race.is_open(
            s.now,
            self.base,
            s.draws@,
        ) && next.motors.running(race.duties(s.now))
        &&& out == Output::only(Wait::Event(FRAME_MS))
    }

    /// A frame of the race: it ends in a brake, with the winner if there is one, or the lanes
    /// re-roll and run on.
    pub open spec fn races(
        self,
        pick: usize,
        race: Race,
        s: Senses,
        ev: Option<Event>,
        next: Game,
        out: Output,
    ) -> bool {
        &&& self.keeps(next, self.motors.awake)
        &&& match race.standing_at(s.now, ev) {
            Standing::Running => {
                &&& next.phase matches Phase::Race { pick: p, race: r } && p == pick && r.follows(
                    race,
                    s.now,
                    self.base,
                    s.draws@,
                ) && next.motors.running(r.duties(s.now))
                &&& out == Output::only(Wait::Event(FRAME_MS))
            },
            Standing::Won(w) => {
                &&& next.phase == Phase::Brake { pick, winner: Some(w) }
                &&& next.motors.braking()
                &&& out == Output::only(Wait::Sleep(BRAKE_MS))
            },
            Standing::TimedOut => {
                &&& next.phase == Phase::Brake { pick, winner: None }
                &&& next.motors.braking()
                &&& out == Output::only(Wait::Sleep(BRAKE_MS))
            },
        }
    }

    /// The brake is over and the winner goes on show: its row, and the sting that tells
    /// whether the player's duck won. A race without a finisher has nothing to show, and the
    /// ducks go home.
    pub open spec fn shows_result(
        self,
        pick: usize,
        winner: Option<usize>,
        s: Senses,
        next: Game,
        out: Output,
    ) -> bool {
        match winner {
            Some(w) => {
                &&& self.keeps(next, self.motors.awake)
                &&& next.phase == Phase::Winner { since: s.now }
                &&& next.motors.coasting()
                &&& out == Output {
                    mode: Some(Mode::Winner(w as u8)),
                    sound: Some(
                        if w == pick {
                            Sound::Win
                        } else {
                            Sound::Lose
                        },
                    ),
                    ..Output::only(Wait::Sleep(IDLE_POLL_MS))
                }
            },
            None => self.enters_home(s, next, out),
        }
    }

    /// A turn of the machine: from `self`, on reading `s` and `ev`, to `next`, asking `out`.
    pub open spec fn turns(self, s: Senses, ev: Option<Event>, next: Game, out: Output) -> bool {
        &&& next.at == s.now
        &&& match self.phase {
            Phase::Boot { tune } => if tune {
                &&& next.phase == Phase::Tune(Tune { active: 0, leg: Leg::Idle })
                &&& next.base == self.base
                &&& next.motors == self.motors
                &&& out == Tune::shows(0, self.base.pct[0])
            } else {
                self.enters_nudge(s, next, out)
            },
            Phase::Tune(t) => self.tunes(t, s, ev, next, out),
            Phase::Nudge => {
                &&& self.keeps(next, self.motors.awake)
                &&& next.phase == Phase::Settle
                &&& next.motors.coasting()
                &&& out == Output::only(Wait::Sleep(SETTLE_MS))
            },
            Phase::Settle => self.enters_home(s, next, out),
            Phase::Home(h) => self.homes(h, s, next, out),
            Phase::Attract => self.selects(None, s, ev, next, out),
            Phase::Selecting { pick } => self.selects(Some(pick), s, ev, next, out),
            Phase::Hold { pick, since } => self.holds(pick, since, s, next, out),
            Phase::Kick { pick } => self.launches(pick, s, next, out),
            Phase::Race { pick, race } => self.races(pick, race, s, ev, next, out),
            Phase::Brake { pick, winner } => self.shows_result(pick, winner, s, next, out),
            Phase::Winner { since } => if s.now - since < us(WINNER_SHOW_MS as int) {
                &&& next.phase == self.phase
                &&& next.base == self.base
                &&& next.motors == self.motors
                &&& out == Output::only(Wait::Sleep(IDLE_POLL_MS))
            } else {
                self.enters_home(s, next, out)
            },
        }
    }

    /// A machine that has just powered up. GO held at power-up leads to TUNE mode first.
    pub fn new(base: Baselines, boot_tune: bool) -> (game: Game)
        ensures
            game.phase == (Phase::Boot { tune: boot_tune }),
            game.motors.coasting(),
            !game.motors.awake,
            game.base == base,
            game.at == 0,
            game.wf(),
    {
        Game { phase: Phase::Boot { tune: boot_tune }, motors: Motors::new(), base, at: 0 }
    }

    /// Homing, one turn.
    fn home(&mut self, h: Homing, s: &Senses) -> (out: Output)
        requires
            h.since <= s.now,
        ensures
            old(self).homes(h, *s, *final(self), out),
            final(self).motors.wf() || final(self).motors == old(self).motors,
            final(self).at == old(self).at,
    {
        let mut seen: Homing = h;
        seen.look(&s.levels);
        let done: bool = seen.complete();
        proof {
            assert forall|l: int| 0 <= l < LANES implies (#[trigger] h.homed[l] || s.levels.home[l])
                == seen.homed[l] by {}
            if done {
                assert(h.complete_with(s.levels));
            } else {
                let l = choose|l: int| 0 <= l < LANES && !#[trigger] seen.homed[l];
                assert(!(h.homed[l] || s.levels.home[l]));
            }
        }
        if done || s.now - h.since > micros(RESET_TIMEOUT_MS) {
            self.motors.coast_all();
            self.phase = Phase::Attract;
            Output::show(Mode::Attract, Wait::Event(RECV_MS))
        } else {
            self.phase = Phase::Home(seen);
            Output::quiet(Wait::Event(HOME_POLL_MS))
        }
    }

    /// Waiting for a player, one turn; `picked` is the pick so far.
    fn select(&mut self, picked: Option<usize>, s: &Senses, ev: Option<Event>) -> (out: Output)
        ensures
            old(self).selects(picked, *s, ev, *final(self), out),
            final(self).motors.wf() || final(self).motors == old(self).motors,
            final(self).at == old(self).at,
    {
        match ev {
            Some(Event::Select(d)) => {
                let pick: usize = clamp_lane(d);
                self.phase = Phase::Selecting { pick };
                Output {
                    drain: false,
                    mode: Some(Mode::Select(pick as u8)),
                    sound: Some(Sound::Bet(pick as u8)),
                    save: None,
                    wait: Wait::Event(RECV_MS),
                }
            },
            Some(Event::Go) => match picked {
                Some(pick) => {
                    self.motors.enable(true);
                    self.motors.coast_all();
                    self.phase = Phase::Hold { pick, since: s.now };
                    Output {
                        drain: false,
                        mode: Some(Mode::Race),
                        sound: Some(Sound::Race),
                        save: None,
                        wait: Wait::Sleep(IDLE_POLL_MS),
                    }
                },
                None => Output::quiet(Wait::Event(RECV_MS)),
            },
            _ => Output::quiet(Wait::Event(RECV_MS)),
        }
    }

    /// The hold before the launch, one turn.
    fn hold(&mut self, pick: usize, since: u64, s: &Senses) -> (out: Output)
        requires
            since <= s.now,
        ensures
            old(self).holds(pick, since, *s, *final(self), out),
            final(self).motors.wf() || final(self).motors == old(self).motors,
            final(self).at == old(self).at,
    {
        if s.now - since < micros(RACE_START_DELAY_MS) {
            return Output::quiet(Wait::Sleep(IDLE_POLL_MS));
        }
        let kick: [u8; LANES] = [KICK_PCT;LANES];
        assert(kick@ =~= kick_duties());
        self.motors.race_forward(&kick);
        self.phase = Phase::Kick { pick };
        Output { drain: true, mode: None, sound: None, save: None, wait: Wait::Sleep(KICK_MS) }
    }

    /// The launch: the opening segments.
    fn launch(&mut self, pick: usize, s: &Senses) -> (out: Output)
        requires
            s.now <= LAST_INSTANT,
        ensures
            old(self).launches(pick, *s, *final(self), out),
            final(self).phase matches Phase::Race { race, .. } && race.wf(s.now),
            final(self).motors.wf(),
            final(self).at == old(self).at,
    {
        let race: Race = Race::open(s.now, &self.base, &s.draws);
        let duties: [u8; LANES] = race.commands(s.now);
        self.motors.race_forward(&duties);
        self.phase = Phase::Race { pick, race };
        Output::quiet(Wait::Event(FRAME_MS))
    }

    /// One frame of the race.
    fn race(&mut self, pick: usize, race: Race, s: &Senses, ev: Option<Event>) -> (out: Output)
        requires
            race.start <= s.now <= LAST_INSTANT,
        ensures
            old(self).races(pick, race, *s, ev, *final(self), out),
            forall|at: u64|
                #[trigger] race.wf(at) && at <= s.now ==> (final(self).phase matches Phase::Race {
                    race: r,
                    ..
                } ==> r.wf(s.now)),
            final(self).motors.wf(),
            final(self).at == old(self).at,
    {
        match race.standing(s.now, ev) {
            Standing::Running => {
                let mut next: Race = race;
                next.reroll(s.now, &self.base, &s.draws);
                let duties: [u8; LANES] = next.commands(s.now);
                self.motors.race_forward(&duties);
                self.phase = Phase::Race { pick, race: next };
                Output::quiet(Wait::Event(FRAME_MS))
            },
            Standing::Won(w) => {
                self.motors.brake_all();
                self.phase = Phase::Brake { pick, winner: Some(w) };
                Output::quiet(Wait::Sleep(BRAKE_MS))
            },
            Standing::TimedOut => {
                self.motors.brake_all();
                self.phase = Phase::Brake { pick, winner: None };
                Output::quiet(Wait::Sleep(BRAKE_MS))
            },
        }
    }

    /// The winner goes on show; without one, the ducks go home.
    fn show_winner(&mut self, pick: usize, winner: Option<usize>, s: &Senses) -> (out: Output)
        requires
            winner matches Some(w) ==> w < LANES,
        ensures
            old(self).shows_result(pick, winner, *s, *final(self), out),
            final(self).motors.wf(),
            final(self).at == old(self).at,
    {
        match winner {
            Some(w) => {
                self.motors.coast_all();
                self.phase = Phase::Winner { since: s.now };
                let won: bool = w == pick;
                Output {
                    drain: false,
                    mode: Some(Mode::Winner(w as u8)),
                    sound: Some(
                        if won {
                            Sound::Win
                        } else {
                            Sound::Lose
                        },
                    ),
                    save: None,
                    wait: Wait::Sleep(IDLE_POLL_MS),
                }
            },
            None => self.enter_home(s),
        }
    }

    /// TUNE mode, one turn.
    fn tune(&mut self, t: Tune, s: &Senses, ev: Option<Event>) -> (out: Output)
        requires
            t.wf(s.now),
        ensures
            old(self).tunes(t, *s, ev, *final(self), out),
            final(self).phase matches Phase::Tune(u) ==> u.wf(s.now),
            old(self).base.sane() ==> final(self).base.sane(),
            final(self).motors.wf() || final(self).motors == old(self).motors,
            final(self).at == old(self).at,
    {
        let mut t: Tune = t;
        match t.leg {
            Leg::Idle => match t.tune_mode(&mut self.base, &mut self.motors, s.now, ev) {
                TuneTurn::Stay(out) => {
                    self.phase = Phase::Tune(t);
                    out
                },
                TuneTurn::Saved(buf) => {
                    let out: Output = self.enter_nudge(s);
                    Output { save: Some(buf), ..out }
                },
            },
            _ => {
                let out: Output = t.test_lane(&mut self.motors, s.now, &s.levels, ev);
                self.phase = Phase::Tune(t);
                out
            },
        }
    }

    /// Takes one turn.
    pub fn run(&mut self, s: &Senses, ev: Option<Event>) -> (out: Output)
        requires
            old(self).wf(),
            old(self).at <= s.now <= LAST_INSTANT,
        ensures
            old(self).turns(*s, ev, *final(self), out),
            final(self).wf(),
            old(self).base.sane() ==> final(self).base.sane(),
            out.wait.is_short(),
    {
        let out: Output = match self.phase {
            Phase::Boot { tune } => if tune {
                let (t, out): (Tune, Output) = Tune::enter(&self.base);
                self.phase = Phase::Tune(t);
                out
            } else {
                self.enter_nudge(s)
            },
            Phase::Tune(t) => self.tune(t, s, ev),
            Phase::Nudge => {
                self.motors.coast_all();
                self.phase = Phase::Settle;
                Output::quiet(Wait::Sleep(SETTLE_MS))
            },
            Phase::Settle => self.enter_home(s),
            Phase::Home(h) => self.home(h, s),
            Phase::Attract => self.select(None, s, ev),
            Phase::Selecting { pick } => self.select(Some(pick), s, ev),
            Phase::Hold { pick, since } => self.hold(pick, since, s),
            Phase::Kick { pick } => self.launch(pick, s),
            Phase::Race { pick, race } => self.race(pick, race, s, ev),
            Phase::Brake { pick, winner } => self.show_winner(pick, winner, s),
            Phase::Winner { since } => if s.now - since < micros(WINNER_SHOW_MS) {
                Output::quiet(Wait::Sleep(IDLE_POLL_MS))
            } else {
                self.enter_home(s)
            },
        };
        self.at = s.now;
        out
    }
}

} // verus!
