//! Buttons and limit switches: debounced events, the switch level cache, the event queue.
//!
//! All inputs are active low: a pressed button or a closed switch pulls its pin down.

use crate::clock::{micros, us};
use crate::config::LANES;
use embassy_sync::blocking_mutex::raw::NoopRawMutex;
use embassy_sync::channel::Channel;
use vstd::prelude::*;

verus! {

/// What the buttons and switches report.
#[derive(Clone, Copy, PartialEq, Eq, Structural, Debug)]
pub enum Event {
    /// A duck-select button.
    Select(u8),
    /// A short GO press.
    Go,
    /// A long GO press.
    GoLong,
    /// TUNE: the active lane up.
    Up,
    /// TUNE: the active lane down.
    Down,
    /// A lane's home switch closed.
    StartHit(u8),
    /// A lane's finish switch closed.
    EndHit(u8),
}

// ---- The queue between the input tasks and the game ----

/// How many events the queue holds.
pub const QUEUE_LEN: usize = 16;

/// The queue of events: a bounded channel, first in, first out.
#[verifier::external_body]
pub struct EventQueue {
    channel: Channel<NoopRawMutex, Event, QUEUE_LEN>,
}

/// The events waiting in the queue, oldest first.
pub uninterp spec fn queued(queue: EventQueue) -> Seq<Event>;

/// `embassy_sync::channel::Channel::new`: a new channel holds nothing.
#[verifier::external_body]
fn channel_new() -> (queue: EventQueue)
    ensures
        queued(queue) == Seq::<Event>::empty(),
{
    EventQueue { channel: Channel::new() }
}

/// `embassy_sync::channel::Channel::try_send`: an event goes to the back of the queue, unless
/// the queue already holds as many as it can; then it is handed back and the queue is as it
/// was.
#[verifier::external_body]
fn channel_try_send(queue: &mut EventQueue, ev: Event) -> (sent: bool)
    ensures
        sent <==> queued(*old(queue)).len() < QUEUE_LEN,
        sent ==> queued(*final(queue)) == queued(*old(queue)).push(ev),
        !sent ==> queued(*final(queue)) == queued(*old(queue)),
{
    queue.channel.try_send(ev).is_ok()
}

/// `embassy_sync::channel::Channel::try_receive`: the oldest event leaves the queue; from an
/// empty queue nothing comes, and it stays empty.
#[verifier::external_body]
fn channel_try_receive(queue: &mut EventQueue) -> (ev: Option<Event>)
    ensures
        ev is None <==> queued(*old(queue)).len() == 0,
        ev is None ==> queued(*final(queue)) == queued(*old(queue)),
        ev is Some ==> ev->0 == queued(*old(queue))[0] && queued(*final(queue)) == queued(
            *old(queue),
        ).drop_first(),
{
    queue.channel.try_receive().ok()
}

/// The queue after an event is sent: it goes to the back, if there is room.
pub open spec fn after_sending(q: Seq<Event>, ev: Event) -> Seq<Event> {
    if q.len() < QUEUE_LEN {
        q.push(ev)
    } else {
        q
    }
}

/// What is received next: the event at the front, if there is one.
pub open spec fn front(q: Seq<Event>) -> Option<Event> {
    if q.len() == 0 {
        None
    } else {
        Some(q[0])
    }
}

/// The queue after one event is received.
pub open spec fn after_receiving(q: Seq<Event>) -> Seq<Event> {
    if q.len() == 0 {
        q
    } else {
        q.drop_first()
    }
}

/// The queue after `n` events are received.
pub open spec fn after_receiving_many(q: Seq<Event>, n: nat) -> Seq<Event>
    decreases n,
{
    if n == 0 {
        q
    } else {
        after_receiving_many(after_receiving(q), (n - 1) as nat)
    }
}

impl EventQueue {
    /// An empty queue.
    pub fn new() -> (queue: EventQueue)
        ensures
            queued(queue) == Seq::<Event>::empty(),
    {
        channel_new()
    }

    /// Puts an event at the back of the queue. Returns false, and changes nothing, if the
    /// queue is full: the sender waits and tries again.
    pub fn send(&mut self, ev: Event) -> (sent: bool)
        ensures
            sent <==> queued(*old(self)).len() < QUEUE_LEN,
            queued(*final(self)) == after_sending(queued(*old(self)), ev),
    {
        channel_try_send(self, ev)
    }

    /// Takes the oldest event, if there is one.
    pub fn receive(&mut self) -> (ev: Option<Event>)
        ensures
            ev == front(queued(*old(self))),
            queued(*final(self)) == after_receiving(queued(*old(self))),
    {
        channel_try_receive(self)
    }
}

/// Discards every queued event. Called before a phase that must not act on a stale edge,
/// notably the launch of a race, where a leftover `EndHit` would score an instant false win.
pub fn drain(queue: &mut EventQueue)
    ensures
        queued(*final(queue)) == Seq::<Event>::empty(),
{
    let mut more: bool = true;
    while more
        invariant
            !more ==> queued(*queue).len() == 0,
        decreases queued(*queue).len(), more as int,
    {
        more = queue.receive().is_some();
    }
}

/// Law: first in, first out. An event that was sent is received after exactly those that
/// were waiting before it, and they come in their order; the queue never holds more than it
/// has room for.
pub proof fn events_come_in_order(q: Seq<Event>, ev: Event, i: nat)
    requires
        q.len() < QUEUE_LEN,
        i <= q.len(),
    ensures
        front(after_receiving_many(after_sending(q, ev), i)) == Some(
            if i < q.len() {
                q[i as int]
            } else {
                ev
            },
        ),
        after_sending(q, ev).len() <= QUEUE_LEN,
    decreases i,
{
    if i > 0 {
        assert(after_receiving(after_sending(q, ev)) =~= after_sending(q.drop_first(), ev));
        events_come_in_order(q.drop_first(), ev, (i - 1) as nat);
    }
}

// ---- Limit-switch level cache ----

/// The current debounced state of every limit switch; `true` is closed.
///
/// Events come from edges, so "the switch is already closed" is invisible in them: a gantry
/// that rests on its home switch at power-up never makes one. This answers "is this lane
/// home?" instead of "did this lane just arrive?".
#[derive(Clone, Copy, Debug)]
pub struct Levels {
    pub home: [bool; LANES],
    pub end: [bool; LANES],
}

/// A place in the level cache.
#[derive(Clone, Copy, PartialEq, Eq, Structural, Debug)]
pub enum Slot {
    Home(usize),
    End(usize),
}

/// The slot that an event feeds: that of its switch. Buttons have none, nor have lanes that
/// do not exist.
pub open spec fn slot_of(ev: Event) -> Option<Slot> {
    match ev {
        Event::StartHit(l) if l < LANES => Some(Slot::Home(l as usize)),
        Event::EndHit(l) if l < LANES => Some(Slot::End(l as usize)),
        _ => None,
    }
}

/// Which level slot, if any, an event feeds.
pub fn level_slot(ev: Event) -> (slot: Option<Slot>)
    ensures
        slot == slot_of(ev),
{
    match ev {
        Event::StartHit(l) => if (l as usize) < LANES {
            Some(Slot::Home(l as usize))
        } else {
            None
        },
        Event::EndHit(l) => if (l as usize) < LANES {
            Some(Slot::End(l as usize))
        } else {
            None
        },
        _ => None,
    }
}

impl Levels {
    /// The level in a slot.
    pub open spec fn at(self, slot: Slot) -> bool {
        match slot {
            Slot::Home(l) => self.home[l as int],
            Slot::End(l) => self.end[l as int],
        }
    }

    /// The slot exists.
    pub open spec fn has(slot: Slot) -> bool {
        match slot {
            Slot::Home(l) => l < LANES,
            Slot::End(l) => l < LANES,
        }
    }

    /// `self` is `before` with the slot, if any, set to `closed`.
    pub open spec fn stores(self, before: Levels, slot: Option<Slot>, closed: bool) -> bool {
        forall|s: Slot|
            Levels::has(s) ==> #[trigger] self.at(s) == if slot == Some(s) {
                closed
            } else {
                before.at(s)
            }
    }

    /// Every switch open.
    pub fn new() -> (levels: Levels)
        ensures
            forall|s: Slot| Levels::has(s) ==> !#[trigger] levels.at(s),
    {
        Levels { home: [false; LANES], end: [false; LANES] }
    }

    fn store(&mut self, slot: Option<Slot>, closed: bool)
        requires
            slot is Some ==> Levels::has(slot->0),
        ensures
            final(self).stores(*old(self), slot, closed),
    {
        match slot {
            Some(Slot::Home(l)) => {
                self.home[l] = closed;
            },
            Some(Slot::End(l)) => {
                self.end[l] = closed;
            },
            None => {},
        }
    }
}

/// Is lane `l` sitting on its home switch?
pub fn home_closed(levels: &Levels, l: usize) -> (closed: bool)
    ensures
        closed <==> l < LANES && levels.at(Slot::Home(l)),
{
    l < LANES && levels.home[l]
}

/// Is lane `l` sitting on its finish switch?
pub fn end_closed(levels: &Levels, l: usize) -> (closed: bool)
    ensures
        closed <==> l < LANES && levels.at(Slot::End(l)),
{
    l < LANES && levels.end[l]
}

/// Seeds the level cache from a pin before anything else runs, so that the first homing pass
/// sees a switch that was already closed at power-up.
pub fn spawn_input(levels: &mut Levels, ev: Event, low: bool)
    ensures
        final(levels).stores(*old(levels), slot_of(ev), low),
{
    levels.store(level_slot(ev), low);
}

// ---- One debounced input ----

/// A debounced button or switch: the event it stands for, and where the pin last settled.
///
/// It waits on levels, always for the opposite of where the pin is, so it can never be blind
/// to a state that was already true when it started.
#[derive(Clone, Copy, PartialEq, Eq, Structural, Debug)]
pub struct Input {
    pub ev: Event,
    pub closed: bool,
}

impl Input {
    /// The input after its pin has settled at `low`.
    pub open spec fn at_rest(self, low: bool) -> Input {
        Input { closed: low, ..self }
    }

    /// What the input emits when the pin settles at `low`: its event, on closing only.
    pub open spec fn emits(self, low: bool) -> Option<Event> {
        if low && !self.closed {
            Some(self.ev)
        } else {
            None
        }
    }

    /// Takes over a pin that reads `low`, and writes its level.
    pub fn start(ev: Event, low: bool, levels: &mut Levels) -> (input: Input)
        ensures
            input == (Input { ev, closed: low }),
            final(levels).stores(*old(levels), slot_of(ev), low),
    {
        levels.store(level_slot(ev), low);
        Input { ev, closed: low }
    }

    /// Whether to wait for the pin to go low; otherwise wait for it to go high.
    pub fn waits_for_low(&self) -> (low: bool)
        ensures
            low == !self.closed,
    {
        !self.closed
    }

    /// The pin has been left alone for the debounce time and reads `low`. A bounce that
    /// landed back where it started changes nothing; else the level follows the pin, and a
    /// closing gives the event.
    pub fn settle(&mut self, low: bool, levels: &mut Levels) -> (emitted: Option<Event>)
        ensures
            *final(self) == old(self).at_rest(low),
            emitted == old(self).emits(low),
            low == old(self).closed ==> *final(levels) == *old(levels),
            low != old(self).closed ==> final(levels).stores(*old(levels), slot_of(old(self).ev), low),
            slot_of(old(self).ev) matches Some(s) ==> old(levels).at(s) == old(self).closed
                ==> final(levels).at(s) == low,
    {
        if low == self.closed {
            return None;
        }
        self.closed = low;
        levels.store(level_slot(self.ev), low);
        if self.closed {
            Some(self.ev)
        } else {
            None
        }
    }
}

/// The input after its pin has settled at each of these readings in turn.
pub open spec fn settled(input: Input, readings: Seq<bool>) -> Input
    decreases readings.len(),
{
    if readings.len() == 0 {
        input
    } else {
        settled(input.at_rest(readings[0]), readings.drop_first())
    }
}

/// What the input emits over these readings.
pub open spec fn emissions(input: Input, readings: Seq<bool>) -> Seq<Event>
    decreases readings.len(),
{
    if readings.len() == 0 {
        Seq::empty()
    } else {
        let rest = emissions(input.at_rest(readings[0]), readings.drop_first());
        match input.emits(readings[0]) {
            Some(ev) => seq![ev] + rest,
            None => rest,
        }
    }
}

/// How often a pin that was at `closed` is pressed over these readings: how often it goes
/// from open to closed.
pub open spec fn presses(closed: bool, readings: Seq<bool>) -> nat
    decreases readings.len(),
{
    if readings.len() == 0 {
        0
    } else {
        (if readings[0] && !closed {
            1nat
        } else {
            0nat
        }) + presses(readings[0], readings.drop_first())
    }
}

/// Law: one event per press, each the input's own, whatever the pin does.
pub proof fn one_event_per_press(input: Input, readings: Seq<bool>)
    ensures
        emissions(input, readings).len() == presses(input.closed, readings),
        forall|i: int|
            0 <= i < emissions(input, readings).len() ==> #[trigger] emissions(input, readings)[i]
                == input.ev,
    decreases readings.len(),
{
    if readings.len() > 0 {
        one_event_per_press(input.at_rest(readings[0]), readings.drop_first());
    }
}

/// Law: the level never latches. After any readings the input holds the last of them, so a
/// switch that was closed at boot reads open as soon as the gantry has left it.
pub proof fn level_follows_the_pin(input: Input, readings: Seq<bool>)
    ensures
        settled(input, readings).ev == input.ev,
        settled(input, readings).closed == if readings.len() == 0 {
            input.closed
        } else {
            readings.last()
        },
    decreases readings.len(),
{
    if readings.len() > 0 {
        level_follows_the_pin(input.at_rest(readings[0]), readings.drop_first());
    }
}

// ---- GO ----

/// A GO press held this long or longer is a long press.
pub const LONG_PRESS_MS: u64 = 800;

/// The GO button, which tells a short press from a long one.
#[derive(Clone, Copy, PartialEq, Eq, Structural, Debug)]
pub enum GoButton {
    Up,
    Down { since: u64 },
}

impl GoButton {
    /// The button after a falling edge at `fell` and the debounce time, if its pin then reads
    /// `low`.
    pub open spec fn after_edge(low: bool, fell: u64) -> GoButton {
        if low {
            GoButton::Down { since: fell }
        } else {
            GoButton::Up
        }
    }

    /// What a release at `now` gives.
    pub open spec fn gives(self, now: u64) -> Option<Event> {
        match self {
            GoButton::Up => None,
            GoButton::Down { since } => Some(
                if now - since >= us(LONG_PRESS_MS as int) {
                    Event::GoLong
                } else {
                    Event::Go
                },
            ),
        }
    }

    /// The pin fell at `fell`, and has been left alone for the debounce time since. If it
    /// still reads low it is a press, and it began when the pin fell; otherwise it was a
    /// bounce.
    pub fn debounced(low: bool, fell: u64) -> (go: GoButton)
        ensures
            go == GoButton::after_edge(low, fell),
    {
        if low {
            GoButton::Down { since: fell }
        } else {
            GoButton::Up
        }
    }

    /// The pin has gone high again. A press gives its event by how long it was held.
    pub fn released(self, now: u64) -> (ev: Option<Event>)
        requires
            self matches GoButton::Down { since } ==> since <= now,
        ensures
            ev == self.gives(now),
    {
        match self {
            GoButton::Up => None,
            GoButton::Down { since } => if now - since >= micros(LONG_PRESS_MS) {
                Some(Event::GoLong)
            } else {
                Some(Event::Go)
            },
        }
    }
}

/// Law: a GO press is told by its whole length, from the falling edge to the release, the
/// debounce time included: long from the threshold on, short below it. A bounce is no press.
pub proof fn go_is_told_by_its_length(fell: u64, rose: u64)
    requires
        fell <= rose,
    ensures
        rose - fell >= us(LONG_PRESS_MS as int) ==> GoButton::after_edge(true, fell).gives(rose)
            == Some(Event::GoLong),
        rose - fell < us(LONG_PRESS_MS as int) ==> GoButton::after_edge(true, fell).gives(rose)
            == Some(Event::Go),
        GoButton::after_edge(false, fell).gives(rose) is None,
{
}

/// Law: a full queue takes nothing, and what is received is taken from the front and nothing
/// else is lost.
pub proof fn queue_loses_nothing(q: Seq<Event>, ev: Event)
    ensures
        q.len() >= QUEUE_LEN ==> after_sending(q, ev) == q,
        q.len() < QUEUE_LEN ==> after_sending(q, ev).drop_last() == q && after_sending(q, ev).last()
            == ev,
        q.len() == 0 ==> front(q) is None && after_receiving(q) == q,
        q.len() > 0 ==> front(q) is Some && seq![front(q)->0] + after_receiving(q) == q,
{
    if q.len() < QUEUE_LEN {
        assert(q.push(ev).drop_last() =~= q);
    }
    if q.len() > 0 {
        assert(seq![q[0]] + q.drop_first() =~= q);
    }
}

/// Law: a home switch feeds its lane's home level, a finish switch its lane's finish level,
/// and nothing else feeds any.
pub proof fn switches_feed_their_levels(ev: Event, l: u8)
    ensures
        l < LANES ==> slot_of(Event::StartHit(l)) == Some(Slot::Home(l as usize)),
        l < LANES ==> slot_of(Event::EndHit(l)) == Some(Slot::End(l as usize)),
        l >= LANES ==> slot_of(Event::StartHit(l)) is None && slot_of(Event::EndHit(l)) is None,
        ev !is StartHit && ev !is EndHit ==> slot_of(ev) is None,
        slot_of(ev) matches Some(s) ==> Levels::has(s),
{
}

/// Law: writing a level changes that switch alone: every other switch reads as it did.
pub proof fn writing_a_level_changes_one_switch(
    before: Levels,
    after: Levels,
    slot: Option<Slot>,
    closed: bool,
    lane: int,
)
    requires
        after.stores(before, slot, closed),
        0 <= lane < LANES,
    ensures
        after.home[lane] == if slot == Some(Slot::Home(lane as usize)) {
            closed
        } else {
            before.home[lane]
        },
        after.end[lane] == if slot == Some(Slot::End(lane as usize)) {
            closed
        } else {
            before.end[lane]
        },
{
    assert(after.at(Slot::Home(lane as usize)) == after.home[lane]);
    assert(after.at(Slot::End(lane as usize)) == after.end[lane]);
}

/// Law: the slots are the eight switches, and a slot's level is its switch's.
pub proof fn slots_are_the_switches(levels: Levels, l: usize)
    ensures
        Levels::has(Slot::Home(l)) <==> l < LANES,
        Levels::has(Slot::End(l)) <==> l < LANES,
        levels.at(Slot::Home(l)) == levels.home[l as int],
        levels.at(Slot::End(l)) == levels.end[l as int],
{
}

/// Law: an input speaks exactly when it closes: from open to closed it gives its own event,
/// and opening, staying open and staying closed give none.
pub proof fn inputs_speak_on_closing(input: Input, low: bool)
    ensures
        input.emits(low) is Some <==> low && !input.closed,
        input.emits(low) matches Some(ev) ==> ev == input.ev,
{
}

/// Law: the presses of a run of readings are its steps from open to closed: one reading more
/// is a press exactly when it closes an open pin.
pub proof fn presses_count_closings(closed: bool, readings: Seq<bool>, low: bool)
    ensures
        presses(closed, readings.push(low)) == presses(closed, readings) + (if low && !(if readings.len()
            == 0 {
            closed
        } else {
            readings.last()
        }) {
            1nat
        } else {
            0nat
        }),
    decreases readings.len(),
{
    reveal_with_fuel(presses, 2);
    let all = readings.push(low);
    if readings.len() > 0 {
        assert(all[0] == readings[0]);
        presses_count_closings(readings[0], readings.drop_first(), low);
        assert(all.drop_first() =~= readings.drop_first().push(low));
        if readings.len() > 1 {
            assert(readings.drop_first().last() == readings.last());
        }
    } else {
        assert(all.drop_first() =~= Seq::<bool>::empty());
    }
}

} // verus!
