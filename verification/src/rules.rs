//! The rules of the game: what holds of every turn of the machine.
//!
//! Each law is stated over `Game::turns`, which every turn that `Game::run` takes satisfies,
//! so it holds whatever the clock, the switches, the players and the dice do.

use crate::audio::Sound;
use crate::calibrate::{is_record, nudged_down, nudged_up, Leg, Tune, TEST_POLL_MS};
use crate::clock::{us, LAST_INSTANT};
use crate::config::{
    compare_is_monotone, compare_of, BOOT_NUDGE_MS, BOOT_NUDGE_PCT, FLOOR_PCT, FRAME_MS, HOMING_PCT,
    KICK_MS, KICK_PCT, LANES, PWM_TOP, RACE_START_DELAY_MS, RACE_TIMEOUT_MS, RESET_TIMEOUT_MS,
    WINNER_SHOW_MS,
};
use crate::game::{
    all_home, kick_duties, nudge_duties_of, Game, Homing, Phase, BRAKE_MS, HOME_POLL_MS,
    IDLE_POLL_MS, SETTLE_MS,
};
use crate::inputs::{Event, Levels};
use crate::leds::Mode;
use crate::race::{
    duty_is_zero_or_above_the_floor, lane_stays_well_formed, speed_of,
    speed_stays_near_the_baseline, Lane,
};
use crate::turn::{lane_of, Output, Senses, Wait, RECV_MS};
use vstd::prelude::*;

verus! {

/// `next` may come after `now`: nudge and homing after power-up or TUNE mode, then attract,
/// selection, hold, kick, race, brake and the winner's show, and homing again; after a race
/// without a finisher, homing at once. The pick is the same from GO to the result.
pub open spec fn may_follow(now: Phase, next: Phase) -> bool {
    match now {
        Phase::Boot { tune } => if tune {
            next is Tune
        } else {
            next is Nudge || next is Home || next is Attract
        },
        Phase::Tune(_) => next is Tune || next is Nudge || next is Home || next is Attract,
        Phase::Nudge => next is Settle,
        Phase::Settle => next is Home || next is Attract,
        Phase::Home(_) => next is Home || next is Attract,
        Phase::Attract => next is Attract || next is Selecting,
        Phase::Selecting { pick } => {
            ||| next is Selecting
            ||| next matches Phase::Hold { pick: p, .. } && p == pick
        },
        Phase::Hold { pick, .. } => next == now || next == (Phase::Kick { pick }),
        Phase::Kick { pick } => next matches Phase::Race { pick: p, .. } && p == pick,
        Phase::Race { pick, .. } => {
            ||| next matches Phase::Race { pick: p, .. } && p == pick
            ||| next matches Phase::Brake { pick: p, .. } && p == pick
        },
        Phase::Brake { winner: Some(_), .. } => next is Winner,
        Phase::Brake { winner: None, .. } => next is Home || next is Attract,
        Phase::Winner { .. } => next == now || next is Home || next is Attract,
    }
}

/// Law: what holds of the machine between turns is kept by every turn, and sane baselines
/// stay sane.
pub proof fn machine_stays_well_formed(
    g: Game,
    s: Senses,
    ev: Option<Event>,
    next: Game,
    out: Output,
)
    requires
        g.wf(),
        g.at <= s.now <= LAST_INSTANT,
        g.turns(s, ev, next, out),
    ensures
        next.wf(),
        g.base.sane() ==> next.base.sane(),
{
    if let Phase::Race { race, .. } = next.phase {
        if let Phase::Race { race: before, .. } = g.phase {
            assert forall|l: int| 0 <= l < LANES implies (#[trigger] race.lanes[l]).wf(s.now) by {
                assert(before.lanes[l].wf(g.at));
                lane_stays_well_formed(before.lanes[l], g.at, s.now, g.base.pct[l], s.draws[l]);
            }
        } else {
            assert forall|l: int| 0 <= l < LANES implies (#[trigger] race.lanes[l]).wf(s.now) by {
                speed_stays_near_the_baseline(s.draws[l].speed, g.base.pct[l]);
            }
        }
    }
}

/// Law: every wait ends before the watchdog would bite.
pub proof fn watchdog_is_fed_in_time(g: Game, s: Senses, ev: Option<Event>, next: Game, out: Output)
    requires
        g.turns(s, ev, next, out),
    ensures
        out.wait.is_short(),
{
}

/// Law: the phases come in their order, and the player's pick is kept from GO to the result.
pub proof fn phases_come_in_order(g: Game, s: Senses, ev: Option<Event>, next: Game, out: Output)
    requires
        g.turns(s, ev, next, out),
    ensures
        may_follow(g.phase, next.phase),
{
}

/// Law: the first finish switch to report wins, and nothing else does. A race goes into its
/// brake with a winner exactly when a finish switch reported, and the winner is its lane.
pub proof fn first_across_the_line_wins(
    g: Game,
    s: Senses,
    ev: Option<Event>,
    next: Game,
    out: Output,
)
    requires
        g.turns(s, ev, next, out),
        g.phase is Race,
    ensures
        (next.phase matches Phase::Brake { winner: Some(_), .. }) <==> (ev matches Some(
            Event::EndHit(_),
        )),
        match (next.phase, ev) {
            (Phase::Brake { winner: Some(w), .. }, Some(Event::EndHit(d))) => w == lane_of(d),
            _ => true,
        },
{
}

/// Law: a race is over after its timeout at the latest, and only a timeout ends it without a
/// winner.
pub proof fn races_end_in_time(g: Game, s: Senses, ev: Option<Event>, next: Game, out: Output)
    requires
        g.turns(s, ev, next, out),
    ensures
        match g.phase {
            Phase::Race { race, .. } => {
                &&& s.now - race.start > us(RACE_TIMEOUT_MS as int) ==> next.phase is Brake
                &&& (next.phase matches Phase::Brake { winner: None, .. }) ==> s.now - race.start
                    > us(RACE_TIMEOUT_MS as int)
            },
            _ => true,
        },
{
}

/// Law: winning and losing are the player's: the win sting plays exactly when the duck that
/// was picked won, the lose sting exactly when another did, and neither without a finisher.
pub proof fn result_is_the_players(g: Game, s: Senses, ev: Option<Event>, next: Game, out: Output)
    requires
        g.turns(s, ev, next, out),
    ensures
        out.sound == Some(Sound::Win) <==> (g.phase matches Phase::Brake {
            pick,
            winner: Some(w),
        } && w == pick),
        out.sound == Some(Sound::Lose) <==> (g.phase matches Phase::Brake {
            pick,
            winner: Some(w),
        } && w != pick),
        match g.phase {
            Phase::Brake { winner: Some(w), .. } => out.mode == Some(Mode::Winner(w as u8)),
            _ => !(out.mode matches Some(Mode::Winner(_))),
        },
{
}

/// Law: input is gated. Once the machine is past GO, and until it waits for a player again,
/// the buttons do nothing; only a finish switch matters, and only in the race. While it waits
/// for a player, no limit switch does anything.
pub proof fn input_is_gated(g: Game, s: Senses, ev: Option<Event>, next: Game, out: Output)
    requires
        !(ev matches Some(Event::EndHit(_))) || g.phase !is Race,
        match g.phase {
            Phase::Tune(_) => false,
            Phase::Attract => !(ev matches Some(Event::Select(_))),
            Phase::Selecting { .. } => !(ev matches Some(Event::Select(_))) && ev != Some(
                Event::Go,
            ),
            _ => true,
        },
    ensures
        g.turns(s, ev, next, out) <==> g.turns(s, None, next, out),
{
}

/// Law: the flash is written on an explicit save only: when GO is held in TUNE mode, between
/// test runs. What is written is the record of the baselines as they are, and they stay so.
pub proof fn flash_is_written_on_save_only(
    g: Game,
    s: Senses,
    ev: Option<Event>,
    next: Game,
    out: Output,
)
    requires
        g.turns(s, ev, next, out),
    ensures
        out.save is Some <==> (g.phase matches Phase::Tune(t) && t.leg is Idle && ev == Some(
            Event::GoLong,
        )),
        out.save matches Some(buf) ==> is_record(buf@, g.base.pct@) && next.base == g.base
            && next.phase !is Tune,
{
}

/// Law: the baselines change in TUNE mode only.
pub proof fn baselines_change_in_tune_only(
    g: Game,
    s: Senses,
    ev: Option<Event>,
    next: Game,
    out: Output,
)
    requires
        g.turns(s, ev, next, out),
        g.phase !is Tune,
    ensures
        next.base == g.base,
{
}

/// Law: the level bar is live. Picking a lane or moving a baseline puts the active lane and
/// its new level on the board at once, and TUNE mode shows nothing else.
pub proof fn level_bar_is_live(g: Game, s: Senses, ev: Option<Event>, next: Game, out: Output)
    requires
        g.turns(s, ev, next, out),
        g.phase is Tune,
        g.wf(),
    ensures
        match next.phase {
            Phase::Tune(t) => {
                &&& out.mode matches Some(m) ==> m == (Mode::Tune {
                    lane: t.active as u8,
                    pct: next.base.pct[t.active as int],
                })
                &&& t.active != g.phase->Tune_0.active || next.base.pct@ != g.base.pct@
                    ==> out.mode is Some
            },
            _ => !(out.mode matches Some(Mode::Tune { .. })),
        },
{
    if let Phase::Tune(t) = next.phase {
        assert(next.base.pct[t.active as int] == next.base.pct@[t.active as int]);
    }
}

/// Law: no stale finish can win a race: events are discarded exactly at the launch, after the
/// hold, and nothing else discards them.
pub proof fn queue_is_drained_at_the_launch(
    g: Game,
    s: Senses,
    ev: Option<Event>,
    next: Game,
    out: Output,
)
    requires
        g.turns(s, ev, next, out),
    ensures
        out.drain <==> next.phase is Kick,
        next.phase is Kick ==> g.phase is Hold,
{
}

/// Law: lights and music lead the ducks. GO turns the lights and the music on at once and
/// starts the hold; the field is not launched before the hold is over, and is launched as
/// soon as it is seen to be.
pub proof fn lights_and_music_lead_the_ducks(
    g: Game,
    s: Senses,
    ev: Option<Event>,
    next: Game,
    out: Output,
)
    requires
        g.turns(s, ev, next, out),
    ensures
        g.phase !is Hold && next.phase is Hold ==> next.phase->Hold_since == s.now && out.mode
            == Some(Mode::Race) && out.sound == Some(Sound::Race),
        match g.phase {
            Phase::Hold { since, .. } => next.phase is Kick <==> s.now - since >= us(
                RACE_START_DELAY_MS as int,
            ),
            _ => true,
        },
{
}

/// Law: the race clock starts with the opening segments, after the hold and the kick, so
/// neither eats into the timeout.
pub proof fn race_clock_starts_at_the_opening(
    g: Game,
    s: Senses,
    ev: Option<Event>,
    next: Game,
    out: Output,
)
    requires
        g.turns(s, ev, next, out),
    ensures
        match (g.phase, next.phase) {
            (Phase::Kick { .. }, Phase::Race { race, .. }) => race.start == s.now,
            (Phase::Race { race: before, .. }, Phase::Race { race, .. }) => race.start
                == before.start,
            (_, Phase::Race { .. }) => false,
            _ => true,
        },
{
}

/// Law: homing goes by the levels of the switches. With every lane home already nothing
/// moves; otherwise a lane counts from the moment it is seen home, and for good; and the pass
/// ends exactly when all lanes count or its time is up.
pub proof fn homing_goes_by_levels(g: Game, s: Senses, ev: Option<Event>, next: Game, out: Output)
    requires
        g.turns(s, ev, next, out),
    ensures
        g.phase !is Home && next.phase is Home ==> !all_home(s.levels) && next.phase == Phase::Home(
            Homing { homed: s.levels.home, since: s.now },
        ),
        g.phase is Settle && all_home(s.levels) ==> next.phase is Attract
            && next.motors.coasting(),
        match g.phase {
            Phase::Home(h) => {
                &&& next.phase is Attract <==> h.complete_with(s.levels) || s.now - h.since > us(
                    RESET_TIMEOUT_MS as int,
                )
                &&& next.phase matches Phase::Home(n) ==> n.since == h.since && forall|l: int|
                    0 <= l < LANES ==> (#[trigger] n.homed[l] <==> h.homed[l] || s.levels.home[l])
            },
            _ => true,
        },
{
}

/// Law: the winner's show lasts its full time, and homing follows.
pub proof fn winner_is_shown_in_full(g: Game, s: Senses, ev: Option<Event>, next: Game, out: Output)
    requires
        g.turns(s, ev, next, out),
    ensures
        match g.phase {
            Phase::Winner { since } => next.phase == g.phase <==> s.now - since < us(
                WINNER_SHOW_MS as int,
            ),
            _ => next.phase matches Phase::Winner { since } ==> since == s.now,
        },
{
}

/// Law: the boot nudge moves every lane off the home end, but none that is already on its
/// finish switch; and it comes at most once, after power-up or TUNE mode.
pub proof fn nudge_spares_the_finish(
    g: Game,
    s: Senses,
    ev: Option<Event>,
    next: Game,
    out: Output,
    lane: int,
)
    requires
        g.turns(s, ev, next, out),
        next.phase is Nudge,
        0 <= lane < LANES,
    ensures
        g.phase is Boot || g.phase is Tune,
        s.levels.end[lane] ==> next.motors.drive(lane) is Coast,
        !s.levels.end[lane] ==> next.motors.drive(lane) is Forward && next.motors.fwd(lane)
            == compare_of(BOOT_NUDGE_PCT),
{
}

/// Law: nothing moves while the machine waits for a player, holds the field or shows a
/// result; the ducks are only ever driven back in homing and in TUNE mode; and they brake
/// only at the end of a race.
pub proof fn ducks_rest_between_races(g: Game, lane: int)
    requires
        g.wf(),
        0 <= lane < LANES,
    ensures
        g.phase is Boot || g.phase is Settle || g.phase is Attract || g.phase is Selecting
            || g.phase is Hold || g.phase is Winner ==> g.motors.drive(lane) is Coast,
        g.phase matches Phase::Tune(t) ==> (t.leg is Idle ==> g.motors.drive(lane) is Coast),
        g.motors.drive(lane) is Reverse ==> g.phase is Home || (g.phase matches Phase::Tune(t)
            && t.leg is Back),
        g.motors.drive(lane) is Brake <==> g.phase is Brake,
{
}

/// Law: in a race, a duck is driven forward exactly when it is not in a stall.
pub proof fn ducks_run_forward(g: Game, lane: int)
    requires
        g.wf(),
        0 <= lane < LANES,
    ensures
        match g.phase {
            Phase::Kick { .. } => g.motors.drive(lane) is Forward,
            Phase::Race { race, .. } => if race.lanes[lane].stalled() {
                g.motors.drive(lane) is Coast
            } else {
                g.motors.drive(lane) is Forward
            },
            _ => true,
        },
{
    if let Phase::Race { race, .. } = g.phase {
        assert(race.lanes[lane].wf(g.at));
        duty_is_zero_or_above_the_floor(race.lanes[lane], g.at, g.at);
    }
}

/// The two are the same phase, arrays compared by what they hold.
pub open spec fn same_phase(a: Phase, b: Phase) -> bool {
    match (a, b) {
        (Phase::Home(h), Phase::Home(k)) => h.since == k.since && h.homed@ == k.homed@,
        (Phase::Race { pick, race }, Phase::Race { pick: p, race: r }) => pick == p && race.start
            == r.start && race.lanes@ == r.lanes@,
        _ => a == b,
    }
}

/// Law: a turn is determined by what it reads. From one state, the same senses and event
/// lead to the same next state and to the same requests.
pub proof fn turns_are_determined(
    g: Game,
    s: Senses,
    ev: Option<Event>,
    a: Game,
    a_out: Output,
    b: Game,
    b_out: Output,
)
    requires
        g.turns(s, ev, a, a_out),
        g.turns(s, ev, b, b_out),
    ensures
        same_phase(a.phase, b.phase),
        a.motors == b.motors,
        a.base.pct@ == b.base.pct@,
        a.at == b.at,
        a_out.drain == b_out.drain,
        a_out.mode == b_out.mode,
        a_out.sound == b_out.sound,
        a_out.wait == b_out.wait,
        match (a_out.save, b_out.save) {
            (Some(x), Some(y)) => x@ == y@,
            (None, None) => true,
            _ => false,
        },
{
    match (a.phase, b.phase) {
        (Phase::Home(h), Phase::Home(k)) => {
            assert(h.homed@ =~= k.homed@);
        },
        (Phase::Race { race, .. }, Phase::Race { race: r, .. }) => {
            assert(race.lanes@ =~= r.lanes@);
        },
        _ => {},
    }
    match (a_out.save, b_out.save) {
        (Some(x), Some(y)) => {
            crate::calibrate::record_is_unique(x@, y@, g.base.pct@);
        },
        _ => {},
    }
}

// ---- Turn by turn ----

/// Law: homing is skipped only when every lane is home. Whenever the machine is to go home,
/// after the boot nudge, after a race without a finisher, or after the winner's show, it
/// reverses every lane by the shared line if any home switch is open, and only if none is does
/// it wait for a player at once, with nothing moving.
pub proof fn homing_is_skipped_only_at_home(
    g: Game,
    s: Senses,
    ev: Option<Event>,
    next: Game,
    out: Output,
    lane: int,
)
    requires
        g.turns(s, ev, next, out),
        0 <= lane < LANES,
        match g.phase {
            Phase::Settle => true,
            Phase::Brake { winner, .. } => winner is None,
            Phase::Winner { since } => s.now - since >= us(WINNER_SHOW_MS as int),
            _ => false,
        },
    ensures
        next.base == g.base,
        next.at == s.now,
        next.motors.awake,
        ({
            let home = s.levels.home[0] && s.levels.home[1] && s.levels.home[2] && s.levels.home[3];
            &&& home ==> {
                &&& next.phase is Attract
                &&& next.motors.fwd(lane) == 0 && next.motors.rev.compare_a == 0
                &&& out == (Output {
                    drain: false,
                    mode: Some(Mode::Attract),
                    sound: Some(Sound::Home),
                    save: None,
                    wait: Wait::Event(RECV_MS),
                })
            }
            &&& !home ==> {
                &&& next.phase matches Phase::Home(h) && h.since == s.now && h.homed[lane]
                    == s.levels.home[lane]
                &&& next.motors.fwd(lane) == 0 && next.motors.rev.compare_a == compare_of(
                    HOMING_PCT,
                )
                &&& out == (Output {
                    drain: false,
                    mode: Some(Mode::Home),
                    sound: Some(Sound::Home),
                    save: None,
                    wait: Wait::Event(HOME_POLL_MS),
                })
            }
        }),
{
    assert(all_home(s.levels) <==> s.levels.home[0] && s.levels.home[1] && s.levels.home[2]
        && s.levels.home[3]);
}

/// Law: no turn of any phase leaves for the attract show with a lane off its home switch, but
/// the turn that ends a homing pass.
pub proof fn attract_means_home(
    g: Game,
    s: Senses,
    ev: Option<Event>,
    next: Game,
    out: Output,
    lane: int,
)
    requires
        g.turns(s, ev, next, out),
        0 <= lane < LANES,
        next.phase is Attract,
        g.phase !is Home,
        g.phase !is Attract,
    ensures
        s.levels.home[lane],
{
}

/// Law: a homing pass goes on, with nothing changed on the motors, until every lane has been
/// seen home, now or before in the pass, or its time is up. A lane that was seen home stays
/// so; then the lanes coast and the machine waits for a player.
pub proof fn homing_goes_on_until_all_are_home(
    g: Game,
    s: Senses,
    ev: Option<Event>,
    next: Game,
    out: Output,
    lane: int,
)
    requires
        g.turns(s, ev, next, out),
        0 <= lane < LANES,
        g.phase is Home,
    ensures
        next.base == g.base,
        next.at == s.now,
        ({
            let h = g.phase->Home_0;
            let all = (h.homed[0] || s.levels.home[0]) && (h.homed[1] || s.levels.home[1]) && (
            h.homed[2] || s.levels.home[2]) && (h.homed[3] || s.levels.home[3]);
            let over = all || s.now - h.since > us(RESET_TIMEOUT_MS as int);
            &&& over ==> {
                &&& next.phase is Attract
                &&& next.motors.fwd(lane) == 0 && next.motors.rev.compare_a == 0
                &&& next.motors.awake == g.motors.awake
                &&& out == (Output {
                    drain: false,
                    mode: Some(Mode::Attract),
                    sound: None,
                    save: None,
                    wait: Wait::Event(RECV_MS),
                })
            }
            &&& !over ==> {
                &&& next.phase matches Phase::Home(n) && n.since == h.since && n.homed[lane] == (
                h.homed[lane] || s.levels.home[lane])
                &&& next.motors == g.motors
                &&& out == (Output {
                    drain: false,
                    mode: None,
                    sound: None,
                    save: None,
                    wait: Wait::Event(HOME_POLL_MS),
                })
            }
        }),
{
    let h = g.phase->Home_0;
    assert(h.complete_with(s.levels) <==> (h.homed[0] || s.levels.home[0]) && (h.homed[1]
        || s.levels.home[1]) && (h.homed[2] || s.levels.home[2]) && (h.homed[3]
        || s.levels.home[3]));
}

/// Law: the pick is the last duck button pressed, whatever the pick so far: it is shown and
/// its clip plays. The motors and the baselines are left alone.
pub proof fn last_button_is_the_pick(
    g: Game,
    s: Senses,
    ev: Option<Event>,
    next: Game,
    out: Output,
)
    requires
        g.turns(s, ev, next, out),
        g.phase is Attract || g.phase is Selecting,
        ev matches Some(Event::Select(_)),
    ensures
        match ev {
            Some(Event::Select(d)) => {
                &&& next.phase == (Phase::Selecting { pick: lane_of(d) })
                &&& out == (Output {
                    drain: false,
                    mode: Some(Mode::Select(lane_of(d) as u8)),
                    sound: Some(Sound::Bet(lane_of(d) as u8)),
                    save: None,
                    wait: Wait::Event(RECV_MS),
                })
            },
            _ => true,
        },
        next.motors == g.motors,
        next.base == g.base,
        next.at == s.now,
{
}

/// Law: a pick depends on the button alone: from any two states that wait for a player, the
/// same duck button leads to the same pick, the same lights and the same clip.
pub proof fn pick_forgets_the_past(
    a: Game,
    b: Game,
    s: Senses,
    d: u8,
    a_next: Game,
    b_next: Game,
    a_out: Output,
    b_out: Output,
)
    requires
        a.phase is Attract || a.phase is Selecting,
        b.phase is Attract || b.phase is Selecting,
        a.turns(s, Some(Event::Select(d)), a_next, a_out),
        b.turns(s, Some(Event::Select(d)), b_next, b_out),
    ensures
        a_next.phase == b_next.phase,
        a_out == b_out,
        d < LANES ==> a_next.phase == (Phase::Selecting { pick: d as usize }),
{
}

/// Law: with a duck picked, GO starts the hold for that duck: the lights and the music go on at
/// once, and the motors are enabled and at rest. Without a pick GO does nothing.
pub proof fn go_holds_the_picked_duck(
    g: Game,
    s: Senses,
    ev: Option<Event>,
    next: Game,
    out: Output,
    lane: int,
)
    requires
        g.turns(s, ev, next, out),
        0 <= lane < LANES,
        g.phase is Attract || g.phase is Selecting,
        ev == Some(Event::Go),
    ensures
        g.phase is Attract ==> next.phase is Attract && next.motors == g.motors && out == (Output {
            drain: false,
            mode: None,
            sound: None,
            save: None,
            wait: Wait::Event(RECV_MS),
        }),
        match g.phase {
            Phase::Selecting { pick } => {
                &&& next.phase == (Phase::Hold { pick, since: s.now })
                &&& next.motors.awake
                &&& next.motors.fwd(lane) == 0 && next.motors.rev.compare_a == 0
                &&& out == (Output {
                    drain: false,
                    mode: Some(Mode::Race),
                    sound: Some(Sound::Race),
                    save: None,
                    wait: Wait::Sleep(IDLE_POLL_MS),
                })
            },
            _ => true,
        },
        next.base == g.base,
        next.at == s.now,
{
}

/// Law: while the machine waits for a player, nothing but a duck button and GO does anything.
pub proof fn other_events_leave_the_wait_alone(
    g: Game,
    s: Senses,
    ev: Option<Event>,
    next: Game,
    out: Output,
)
    requires
        g.turns(s, ev, next, out),
        g.phase is Attract || g.phase is Selecting,
        ev is Some ==> ev->0 !is Select && ev->0 !is Go,
    ensures
        next.phase == g.phase,
        next.motors == g.motors,
        next.base == g.base,
        next.at == s.now,
        out == (Output {
            drain: false,
            mode: None,
            sound: None,
            save: None,
            wait: Wait::Event(RECV_MS),
        }),
{
}

/// Law: the hold changes nothing until its time is up; then the queue is drained and every lane
/// is kicked off at the same duty, for the kick's time.
pub proof fn field_is_held_and_kicked_off_together(
    g: Game,
    s: Senses,
    ev: Option<Event>,
    next: Game,
    out: Output,
    lane: int,
)
    requires
        g.turns(s, ev, next, out),
        0 <= lane < LANES,
        g.phase is Hold,
    ensures
        next.base == g.base,
        next.at == s.now,
        next.motors.awake == g.motors.awake,
        match g.phase {
            Phase::Hold { pick, since } => if s.now - since < us(RACE_START_DELAY_MS as int) {
                &&& next.phase == g.phase
                &&& next.motors == g.motors
                &&& out == (Output {
                    drain: false,
                    mode: None,
                    sound: None,
                    save: None,
                    wait: Wait::Sleep(IDLE_POLL_MS),
                })
            } else {
                &&& next.phase == (Phase::Kick { pick })
                &&& next.motors.fwd(lane) == compare_of(KICK_PCT) && next.motors.rev.compare_a == 0
                &&& out == (Output {
                    drain: true,
                    mode: None,
                    sound: None,
                    save: None,
                    wait: Wait::Sleep(KICK_MS),
                })
            },
            _ => true,
        },
{
}

/// Law: after the kick every lane opens with a speed rolled from its own baseline and draw, and
/// is driven at it; the race clock starts.
pub proof fn lanes_open_on_their_own_draw(
    g: Game,
    s: Senses,
    ev: Option<Event>,
    next: Game,
    out: Output,
    lane: int,
)
    requires
        g.turns(s, ev, next, out),
        0 <= lane < LANES,
        g.phase is Kick,
    ensures
        next.base == g.base,
        next.at == s.now,
        next.motors.awake == g.motors.awake,
        next.phase matches Phase::Race { pick, race } && pick == g.phase->Kick_pick && race.start
            == s.now && race.lanes[lane] == Lane::opens(s.now, g.base.pct[lane], s.draws[lane]),
        next.motors.fwd(lane) == compare_of(speed_of(s.draws[lane].speed, g.base.pct[lane])),
        next.motors.rev.compare_a == 0,
        out == (Output {
            drain: false,
            mode: None,
            sound: None,
            save: None,
            wait: Wait::Event(FRAME_MS),
        }),
{
    let race = next.phase->Race_race;
    assert(race.lanes[lane] == Lane::opens(s.now, g.base.pct[lane], s.draws[lane]));
}

/// Law: a race frame without a finish and within the timeout re-rolls each lane by its own
/// baseline and draw and drives it at its duty. A finish switch ends the race for its lane, and
/// the timeout ends it for none; either way every line goes high, which brakes all lanes.
pub proof fn race_frames_go_lane_by_lane(
    g: Game,
    s: Senses,
    ev: Option<Event>,
    next: Game,
    out: Output,
    lane: int,
)
    requires
        g.turns(s, ev, next, out),
        0 <= lane < LANES,
        g.phase is Race,
    ensures
        next.base == g.base,
        next.at == s.now,
        next.motors.awake == g.motors.awake,
        ({
            let (pick, race) = (g.phase->Race_pick, g.phase->Race_race);
            let finish = ev is Some && ev->0 is EndHit;
            let late = s.now - race.start > us(RACE_TIMEOUT_MS as int);
            &&& !finish && !late ==> {
                &&& next.phase matches Phase::Race { pick: p, race: r } && p == pick && r.start
                    == race.start && r.lanes[lane] == race.lanes[lane].after(
                    s.now,
                    g.base.pct[lane],
                    s.draws[lane],
                ) && next.motors.fwd(lane) == compare_of(r.lanes[lane].duty(s.now))
                &&& next.motors.rev.compare_a == 0
                &&& out == (Output {
                    drain: false,
                    mode: None,
                    sound: None,
                    save: None,
                    wait: Wait::Event(FRAME_MS),
                })
            }
            &&& finish ==> next.phase == (Phase::Brake {
                pick,
                winner: Some(lane_of(ev->0->EndHit_0)),
            })
            &&& !finish && late ==> next.phase == (Phase::Brake { pick, winner: None })
            &&& finish || late ==> {
                &&& next.motors.fwd(lane) == PWM_TOP && next.motors.rev.compare_a == PWM_TOP
                &&& out == (Output {
                    drain: false,
                    mode: None,
                    sound: None,
                    save: None,
                    wait: Wait::Sleep(BRAKE_MS),
                })
            }
        }),
{
    if let Phase::Race { race: r, .. } = next.phase {
        let race = g.phase->Race_race;
        assert(r.lanes[lane] == race.lanes[lane].after(s.now, g.base.pct[lane], s.draws[lane]));
    }
}

/// Law: after the brake a winner goes on show: the lanes coast, its row blinks, and the sting is
/// the player's.
pub proof fn winner_goes_on_show(
    g: Game,
    s: Senses,
    ev: Option<Event>,
    next: Game,
    out: Output,
    lane: int,
)
    requires
        g.turns(s, ev, next, out),
        0 <= lane < LANES,
        g.phase matches Phase::Brake { winner: Some(_), .. },
    ensures
        next.base == g.base,
        next.at == s.now,
        next.phase == (Phase::Winner { since: s.now }),
        next.motors.fwd(lane) == 0 && next.motors.rev.compare_a == 0,
        next.motors.awake == g.motors.awake,
        match g.phase {
            Phase::Brake { pick, winner: Some(w) } => {
                &&& out.mode == Some(Mode::Winner(w as u8))
                &&& w == pick ==> out.sound == Some(Sound::Win)
                &&& w != pick ==> out.sound == Some(Sound::Lose)
            },
            _ => true,
        },
        out.wait == Wait::Sleep(IDLE_POLL_MS),
        !out.drain && out.save is None,
{
}

/// Law: until its time is up, the winner's show changes nothing.
pub proof fn winner_stays_on_show(
    g: Game,
    s: Senses,
    ev: Option<Event>,
    next: Game,
    out: Output,
)
    requires
        g.turns(s, ev, next, out),
        g.phase matches Phase::Winner { since } && s.now - since < us(WINNER_SHOW_MS as int),
    ensures
        next.phase == g.phase,
        next.motors == g.motors,
        next.base == g.base,
        next.at == s.now,
        out == (Output {
            drain: false,
            mode: None,
            sound: None,
            save: None,
            wait: Wait::Sleep(IDLE_POLL_MS),
        }),
{
}

/// Law: at power-up, and when TUNE mode is left by a save, every lane that is not on its finish
/// switch is nudged forward and no other, with the drivers enabled; GO held at power-up leads
/// to TUNE mode on the first lane instead, with nothing moved.
pub proof fn boot_nudges_or_tunes(
    g: Game,
    s: Senses,
    ev: Option<Event>,
    next: Game,
    out: Output,
    lane: int,
)
    requires
        g.turns(s, ev, next, out),
        0 <= lane < LANES,
        g.phase is Boot || (g.phase matches Phase::Tune(t) && t.leg is Idle && ev == Some(Event::GoLong)),
    ensures
        next.base == g.base,
        next.at == s.now,
        ({
            let tune = g.phase matches Phase::Boot { tune } && tune;
            &&& tune ==> {
                &&& next.phase == Phase::Tune(Tune { active: 0, leg: Leg::Idle })
                &&& next.motors == g.motors
                &&& out == (Output {
                    drain: false,
                    mode: Some(Mode::Tune { lane: 0, pct: g.base.pct[0] }),
                    sound: None,
                    save: None,
                    wait: Wait::Event(RECV_MS),
                })
            }
            &&& !tune && BOOT_NUDGE_MS > 0 ==> {
                &&& next.phase is Nudge
                &&& next.motors.awake && next.motors.rev.compare_a == 0
                &&& next.motors.fwd(lane) == if s.levels.end[lane] {
                    0
                } else {
                    compare_of(BOOT_NUDGE_PCT)
                }
                &&& out.mode is None && out.sound is None && !out.drain
                &&& out.wait == Wait::Sleep(BOOT_NUDGE_MS)
            }
        }),
{
    compare_is_monotone(0, 0);
}

/// Law: after the nudge the lanes coast while the switches settle, and nothing is shown or
/// played.
pub proof fn nudge_is_followed_by_a_rest(
    g: Game,
    s: Senses,
    ev: Option<Event>,
    next: Game,
    out: Output,
    lane: int,
)
    requires
        g.turns(s, ev, next, out),
        0 <= lane < LANES,
        g.phase is Nudge,
    ensures
        next.phase is Settle,
        next.motors.fwd(lane) == 0 && next.motors.rev.compare_a == 0,
        next.motors.awake == g.motors.awake,
        next.base == g.base,
        next.at == s.now,
        out == (Output {
            drain: false,
            mode: None,
            sound: None,
            save: None,
            wait: Wait::Sleep(SETTLE_MS),
        }),
{
}

/// Law: a test run in TUNE mode goes on, with nothing changed, until the active lane's own
/// switch or the leg's own timeout ends the leg: the way out turns into the way back, with all
/// lanes reversed, and the way back ends the run, with all lanes coasting. The other lanes'
/// switches and the buttons have no say, and the baselines stay as they are.
pub proof fn test_runs_end_on_their_own_switch(
    g: Game,
    s: Senses,
    ev: Option<Event>,
    next: Game,
    out: Output,
    lane: int,
)
    requires
        g.turns(s, ev, next, out),
        0 <= lane < LANES,
        g.phase matches Phase::Tune(t) && t.leg !is Idle && t.active < LANES,
    ensures
        next.base == g.base,
        next.at == s.now,
        next.motors.awake == g.motors.awake,
        out.save is None && out.mode is None && out.sound is None && !out.drain,
        ({
            let t = g.phase->Tune_0;
            let out_over = ev == Some(Event::EndHit(t.active as u8)) || s.now - t.leg->Out_since
                > us(RACE_TIMEOUT_MS as int);
            let back_over = s.levels.home[t.active as int] || s.now - t.leg->Back_since > us(
                RESET_TIMEOUT_MS as int,
            );
            &&& (t.leg is Out && !out_over) || (t.leg is Back && !back_over) ==> {
                &&& next.phase == g.phase
                &&& next.motors == g.motors
                &&& out.wait == Wait::Event(TEST_POLL_MS)
            }
            &&& t.leg is Out && out_over ==> {
                &&& next.phase == Phase::Tune(
                    Tune { active: t.active, leg: Leg::Back { since: s.now } },
                )
                &&& next.motors.fwd(lane) == 0 && next.motors.rev.compare_a == compare_of(
                    HOMING_PCT,
                )
                &&& out.wait == Wait::Event(TEST_POLL_MS)
            }
            &&& t.leg is Back && back_over ==> {
                &&& next.phase == Phase::Tune(Tune { active: t.active, leg: Leg::Idle })
                &&& next.motors.fwd(lane) == 0 && next.motors.rev.compare_a == 0
                &&& out.wait == Wait::Event(RECV_MS)
            }
        }),
{
}

/// Law: between test runs, a duck button makes its lane the active one, UP and DOWN move the
/// active lane's baseline by one step and no other, and GO drives the active lane forward at its
/// baseline; every other event but a save changes nothing.
pub proof fn tune_buttons_do_one_thing_each(
    g: Game,
    s: Senses,
    ev: Option<Event>,
    next: Game,
    out: Output,
    lane: int,
)
    requires
        g.turns(s, ev, next, out),
        0 <= lane < LANES,
        g.phase matches Phase::Tune(t) && t.leg is Idle && t.active < LANES,
        ev != Some(Event::GoLong),
    ensures
        next.at == s.now,
        ({
            let t = g.phase->Tune_0;
            let moved = lane == t.active && (ev == Some(Event::Up) || ev == Some(Event::Down));
            &&& next.phase == Phase::Tune(
                Tune {
                    active: match ev {
                        Some(Event::Select(d)) => lane_of(d),
                        _ => t.active,
                    },
                    leg: if ev == Some(Event::Go) {
                        Leg::Out { since: s.now }
                    } else {
                        Leg::Idle
                    },
                },
            )
            &&& !moved ==> next.base.pct[lane] == g.base.pct[lane]
            &&& lane == t.active && ev == Some(Event::Up) ==> next.base.pct[lane] == nudged_up(
                g.base.pct[lane],
            )
            &&& lane == t.active && ev == Some(Event::Down) ==> next.base.pct[lane] == nudged_down(
                g.base.pct[lane],
            )
            &&& ev != Some(Event::Go) ==> next.motors == g.motors
            &&& ev == Some(Event::Go) ==> {
                &&& next.motors.awake && next.motors.rev.compare_a == 0
                &&& next.motors.fwd(lane) == if lane == t.active {
                    compare_of(g.base.pct[lane])
                } else {
                    g.motors.fwd(lane)
                }
            }
        }),
{
    assert(next.base.pct[lane] == next.base.pct@[lane]);
}

/// Law: the boot nudge and the launch kick are duties of the four lanes: the nudge's but for
/// lanes on their finish switch, and the kick's for all.
pub proof fn nudge_and_kick_duties(levels: Levels, lane: int)
    requires
        0 <= lane < LANES,
    ensures
        nudge_duties_of(levels).len() == LANES && kick_duties().len() == LANES,
        levels.end[lane] ==> nudge_duties_of(levels)[lane] == 0,
        !levels.end[lane] ==> nudge_duties_of(levels)[lane] == BOOT_NUDGE_PCT,
        kick_duties()[lane] == KICK_PCT,
        BOOT_NUDGE_PCT > 0,
        KICK_PCT >= FLOOR_PCT,
{
}

/// Law: one more look at the switches adds the lanes that are home and forgets none, and a
/// pass is complete when no lane is missing.
pub proof fn looks_add_up(h: Homing, n: Homing, levels: Levels, lane: int)
    requires
        n.sees(h, levels),
        0 <= lane < LANES,
    ensures
        n.since == h.since,
        n.homed[lane] <==> h.homed[lane] || levels.home[lane],
        h.complete_with(levels) <==> n.homed[0] && n.homed[1] && n.homed[2] && n.homed[3],
{
    assert(n.homed[0] == (h.homed[0] || levels.home[0]));
    assert(n.homed[1] == (h.homed[1] || levels.home[1]));
    assert(n.homed[2] == (h.homed[2] || levels.home[2]));
    assert(n.homed[3] == (h.homed[3] || levels.home[3]));
}

/// Law: a machine is well formed when its phase names lanes that exist and times that have
/// passed, and its motors do what the phase says; so a waiting machine is, as long as nothing
/// moves and its drivers are enabled.
pub proof fn waiting_machine_is_well_formed(g: Game)
    requires
        g.phase is Attract || g.phase is Settle || (g.phase matches Phase::Selecting { pick } && pick
            < LANES) || (g.phase matches Phase::Hold { pick, since } && pick < LANES && since
            <= g.at) || (g.phase matches Phase::Winner { since } && since <= g.at),
        g.motors.awake,
        g.motors.coasting(),
    ensures
        g.wf(),
{
}

} // verus!
