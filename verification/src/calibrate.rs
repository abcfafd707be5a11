//! Per-lane motor baselines: their flash record, and TUNE mode, which adjusts them.

use crate::clock::{micros, us};
use crate::config::{
    compare_of, BASE_DEFAULT_PCT, FLOOR_PCT, HOMING_PCT, LANES, RACE_TIMEOUT_MS, RESET_TIMEOUT_MS,
};
use crate::inputs::{home_closed, Event, Levels, Slot};
use crate::leds::Mode;
use crate::motors::Motors;
use crate::turn::{clamp_lane, lane_of, Output, Wait, RECV_MS};
use vstd::prelude::*;

verus! {

/// Bytes of flash on the board.
pub const FLASH_SIZE: u32 = 0x20_0000;

/// The erase unit of the flash.
pub const SECTOR_SIZE: u32 = 4096;

/// Where the record lives: at the start of the last sector.
pub const CFG_OFFSET: u32 = 0x1f_f000;

/// Marks a record, and its version.
pub const MAGIC: u32 = 0xD0CC_0001;

/// Bytes of a record: the mark, four duties, the checksum.
pub const RECORD_LEN: usize = 12;

/// The duty, in percent, that each lane's speed is rolled around.
#[derive(Clone, Copy, Debug)]
pub struct Baselines {
    pub pct: [u8; LANES],
}

impl Baselines {
    /// Every duty is one a moving motor may have.
    pub open spec fn sane(self) -> bool {
        all_sane(self.pct@)
    }
}

/// The default duty in every lane.
pub open spec fn default_pct() -> Seq<u8> {
    Seq::new(LANES as nat, |l: int| BASE_DEFAULT_PCT)
}

impl Default for Baselines {
    fn default() -> (b: Baselines)
        ensures
            b.pct@ == default_pct(),
            b.sane(),
    {
        let b: Baselines = Baselines { pct: [BASE_DEFAULT_PCT;LANES] };
        assert(b.pct@ =~= default_pct());
        b
    }
}

// ---- The flash record ----

/// The number that four bytes stand for, lowest byte first.
pub open spec fn le_u32(b0: u8, b1: u8, b2: u8, b3: u8) -> u32 {
    (b0 + 0x100 * b1 + 0x1_0000 * b2 + 0x100_0000 * b3) as u32
}

/// The number at `at` in a record.
pub open spec fn word_at(buf: Seq<u8>, at: int) -> u32 {
    le_u32(buf[at], buf[at + 1], buf[at + 2], buf[at + 3])
}

/// The checksum of four duties: the mark, with the duties' own number folded in.
pub open spec fn checksum_of(pct: Seq<u8>) -> u32 {
    MAGIC ^ le_u32(pct[0], pct[1], pct[2], pct[3])
}

/// The duties in a record.
pub open spec fn duties_in(buf: Seq<u8>) -> Seq<u8> {
    buf.subrange(4, 8)
}

/// The record of four duties: the mark, the duties in lane order, their checksum.
pub open spec fn is_record(buf: Seq<u8>, pct: Seq<u8>) -> bool {
    &&& buf.len() == RECORD_LEN
    &&& word_at(buf, 0) == MAGIC
    &&& duties_in(buf) == pct
    &&& word_at(buf, 8) == checksum_of(pct)
}

/// Every duty is one a moving motor may have.
pub open spec fn all_sane(pct: Seq<u8>) -> bool {
    forall|l: int| 0 <= l < pct.len() ==> FLOOR_PCT <= #[trigger] pct[l] <= 100
}

/// The bytes are the record of sane baselines.
pub open spec fn is_valid(buf: Seq<u8>) -> bool {
    is_record(buf, duties_in(buf)) && all_sane(duties_in(buf))
}

proof fn lemma_xor_is_le(b0: u8, b1: u8, b2: u8, b3: u8)
    ensures
        MAGIC ^ (b0 as u32) ^ ((b1 as u32) << 8) ^ ((b2 as u32) << 16) ^ ((b3 as u32) << 24)
            == MAGIC ^ le_u32(b0, b1, b2, b3),
{
    let m = MAGIC;
    let w = le_u32(b0, b1, b2, b3);
    assert(m ^ (b0 as u32) ^ ((b1 as u32) << 8) ^ ((b2 as u32) << 16) ^ ((b3 as u32) << 24) == m
        ^ w) by (bit_vector)
        requires
            w == b0 + 0x100 * b1 + 0x1_0000 * b2 + 0x100_0000 * b3,
    ;
}

/// The checksum that guards a record.
pub fn checksum(pct: &[u8; LANES]) -> (sum: u32)
    ensures
        sum == checksum_of(pct@),
{
    proof {
        lemma_xor_is_le(pct[0], pct[1], pct[2], pct[3]);
    }
    MAGIC ^ (pct[0] as u32) ^ ((pct[1] as u32) << 8) ^ ((pct[2] as u32) << 16) ^ ((pct[3] as u32)
        << 24)
}

/// Reads the number at `at` in a record.
fn read_word(buf: &[u8; RECORD_LEN], at: usize) -> (w: u32)
    requires
        at + 4 <= RECORD_LEN,
    ensures
        w == word_at(buf@, at as int),
{
    buf[at] as u32 + 0x100 * (buf[at + 1] as u32) + 0x1_0000 * (buf[at + 2] as u32) + 0x100_0000 * (
    buf[at + 3] as u32)
}

/// Writes a number at `at` in a record.
fn write_word(buf: &mut [u8; RECORD_LEN], at: usize, w: u32)
    requires
        at + 4 <= RECORD_LEN,
    ensures
        word_at(final(buf)@, at as int) == w,
        forall|i: int|
            0 <= i < RECORD_LEN && !(at <= i < at + 4) ==> #[trigger] final(buf)[i] == old(buf)[i],
{
    buf[at] = (w % 0x100) as u8;
    buf[at + 1] = (w / 0x100 % 0x100) as u8;
    buf[at + 2] = (w / 0x1_0000 % 0x100) as u8;
    buf[at + 3] = (w / 0x100_0000) as u8;
}

/// The duties that a read of the flash gives: those of a valid record, or else the defaults.
pub open spec fn loaded(read: Option<[u8; RECORD_LEN]>) -> Seq<u8> {
    match read {
        Some(buf) => if is_valid(buf@) {
            duties_in(buf@)
        } else {
            default_pct()
        },
        None => default_pct(),
    }
}

/// The baselines that were read from flash, or the defaults if the read failed or what it
/// gave is no record of sane baselines.
pub fn load(read: Option<[u8; RECORD_LEN]>) -> (b: Baselines)
    ensures
        b.sane(),
        b.pct@ == loaded(read),
{
    if let Some(buf) = read {
        let magic: u32 = read_word(&buf, 0);
        let pct: [u8; LANES] = [buf[4], buf[5], buf[6], buf[7]];
        assert(pct@ =~= duties_in(buf@));
        let crc: u32 = read_word(&buf, 8);
        let mut sane: bool = true;
        let mut l: usize = 0;
        while l < LANES
            invariant
                l <= LANES,
                sane <==> (forall|k: int| 0 <= k < l ==> FLOOR_PCT <= #[trigger] pct@[k] <= 100),
            decreases LANES - l,
        {
            sane = sane && pct[l] >= FLOOR_PCT && pct[l] <= 100;
            l = l + 1;
        }
        if magic == MAGIC && crc == checksum(&pct) && sane {
            return Baselines { pct };
        }
    }
    Baselines::default()
}

/// The record to write for some baselines.
pub fn save(b: &Baselines) -> (buf: [u8; RECORD_LEN])
    ensures
        is_record(buf@, b.pct@),
{
    let mut buf: [u8; RECORD_LEN] = [0u8; RECORD_LEN];
    write_word(&mut buf, 0, MAGIC);
    buf[4] = b.pct[0];
    buf[5] = b.pct[1];
    buf[6] = b.pct[2];
    buf[7] = b.pct[3];
    let sum: u32 = checksum(&b.pct);
    let ghost before = buf;
    write_word(&mut buf, 8, sum);
    assert(forall|i: int| 0 <= i < 8 ==> #[trigger] buf[i] == before[i]);
    assert(duties_in(buf@) =~= b.pct@);
    buf
}

proof fn lemma_le_is_injective(w: u32, a0: u8, a1: u8, a2: u8, a3: u8, b0: u8, b1: u8, b2: u8, b3: u8)
    requires
        w == le_u32(a0, a1, a2, a3),
        w == le_u32(b0, b1, b2, b3),
    ensures
        a0 == b0 && a1 == b1 && a2 == b2 && a3 == b3,
{
}

/// Law: what was saved is what is loaded. The record of sane baselines is valid and gives
/// back the same duties.
pub proof fn saved_baselines_load_back(buf: Seq<u8>, pct: Seq<u8>)
    requires
        pct.len() == LANES,
        all_sane(pct),
        is_record(buf, pct),
    ensures
        is_valid(buf),
        duties_in(buf) == pct,
{
}

/// Law: a valid record is the one record of its duties, byte for byte; so a record with any
/// byte changed is either rejected or the true record of other duties.
pub proof fn record_is_unique(a: Seq<u8>, b: Seq<u8>, pct: Seq<u8>)
    requires
        pct.len() == LANES,
        is_record(a, pct),
        is_record(b, pct),
    ensures
        a == b,
{
    lemma_le_is_injective(MAGIC, a[0], a[1], a[2], a[3], b[0], b[1], b[2], b[3]);
    lemma_le_is_injective(checksum_of(pct), a[8], a[9], a[10], a[11], b[8], b[9], b[10], b[11]);
    assert forall|i: int| 0 <= i < RECORD_LEN implies a[i] == b[i] by {
        if 4 <= i < 8 {
            assert(a[i] == duties_in(a)[i - 4]);
            assert(b[i] == duties_in(b)[i - 4]);
        }
    }
    assert(a =~= b);
}

/// Law: changing any single byte of a valid record makes it invalid.
pub proof fn one_bad_byte_is_caught(buf: Seq<u8>, i: int, byte: u8)
    requires
        is_valid(buf),
        0 <= i < RECORD_LEN,
        byte != buf[i],
    ensures
        !is_valid(buf.update(i, byte)),
{
    let bad = buf.update(i, byte);
    if is_valid(bad) {
        let p = duties_in(buf);
        let q = duties_in(bad);
        if i < 4 || 8 <= i {
            assert(q =~= p);
            record_is_unique(buf, bad, p);
        } else {
            assert(word_at(bad, 8) == word_at(buf, 8));
            let m = MAGIC;
            let x = le_u32(p[0], p[1], p[2], p[3]);
            let y = le_u32(q[0], q[1], q[2], q[3]);
            assert(x == y) by (bit_vector)
                requires
                    m ^ x == m ^ y,
            ;
            lemma_le_is_injective(x, p[0], p[1], p[2], p[3], q[0], q[1], q[2], q[3]);
            assert(p[i - 4] == buf[i]);
            assert(q[i - 4] == byte);
        }
    }
}

/// Law: erased flash, which reads as all ones, is not a record, nor is flash of all zeros.
pub proof fn blank_flash_is_no_record(buf: Seq<u8>, fill: u8)
    requires
        buf.len() == RECORD_LEN,
        forall|i: int| 0 <= i < buf.len() ==> #[trigger] buf[i] == fill,
    ensures
        !is_valid(buf),
{
}

/// Law: the record lies within the last sector of the flash.
pub proof fn record_is_in_the_last_sector()
    ensures
        CFG_OFFSET + SECTOR_SIZE == FLASH_SIZE,
        CFG_OFFSET % SECTOR_SIZE == 0,
        RECORD_LEN <= SECTOR_SIZE,
{
}

// ---- TUNE mode ----

/// How much one press of UP or DOWN moves a baseline.
pub const NUDGE_STEP: u8 = 2;

/// How often a test run looks at its switches.
pub const TEST_POLL_MS: u64 = 200;

/// A baseline after UP: a step more, at most full duty.
pub open spec fn nudged_up(pct: u8) -> u8 {
    if pct + NUDGE_STEP > 100 {
        100
    } else {
        (pct + NUDGE_STEP) as u8
    }
}

/// A baseline after DOWN: a step less, at least the floor.
pub open spec fn nudged_down(pct: u8) -> u8 {
    if pct - NUDGE_STEP < FLOOR_PCT {
        FLOOR_PCT
    } else {
        (pct - NUDGE_STEP) as u8
    }
}

/// Moves a baseline up.
pub fn nudge_up(pct: u8) -> (up: u8)
    ensures
        up == nudged_up(pct),
{
    if pct > 100 - NUDGE_STEP {
        100
    } else {
        pct + NUDGE_STEP
    }
}

/// Moves a baseline down.
pub fn nudge_down(pct: u8) -> (down: u8)
    ensures
        down == nudged_down(pct),
{
    let down: u8 = pct.saturating_sub(NUDGE_STEP);
    if down < FLOOR_PCT {
        FLOOR_PCT
    } else {
        down
    }
}

/// Law: nudging a sane baseline keeps it sane, and away from the ends of the scale UP and
/// DOWN undo each other.
pub proof fn nudges_keep_a_baseline_sane(pct: u8)
    requires
        FLOOR_PCT <= pct <= 100,
    ensures
        FLOOR_PCT <= nudged_up(pct) <= 100,
        FLOOR_PCT <= nudged_down(pct) <= 100,
        pct + NUDGE_STEP <= 100 ==> nudged_down(nudged_up(pct)) == pct,
        pct - NUDGE_STEP >= FLOOR_PCT ==> nudged_up(nudged_down(pct)) == pct,
{
}

/// Where a test run is.
#[derive(Clone, Copy, PartialEq, Eq, Structural, Debug)]
pub enum Leg {
    /// None is under way.
    Idle,
    /// Forward, to the finish switch.
    Out { since: u64 },
    /// Back, to the home switch.
    Back { since: u64 },
}

/// TUNE mode: the lane being adjusted, and its test run.
#[derive(Clone, Copy, PartialEq, Eq, Structural, Debug)]
pub struct Tune {
    pub active: usize,
    pub leg: Leg,
}

/// What a turn of TUNE mode comes to.
#[derive(Clone, Copy, Debug)]
pub enum TuneTurn {
    /// Go on.
    Stay(Output),
    /// Write this record and leave for the game.
    Saved([u8; RECORD_LEN]),
}

impl Tune {
    /// The lane exists, and a run began no later than `at`.
    pub open spec fn wf(self, at: u64) -> bool {
        &&& self.active < LANES
        &&& match self.leg {
            Leg::Idle => true,
            Leg::Out { since } => since <= at,
            Leg::Back { since } => since <= at,
        }
    }

    /// What the motors do in TUNE mode: nothing between runs, the active lane forward at its
    /// baseline on the way out, all lanes reversed on the way back.
    pub open spec fn drives(self, motors: Motors, base: Baselines) -> bool {
        match self.leg {
            Leg::Idle => motors.coasting(),
            Leg::Out { .. } => motors.carries(
                |l: int|
                    if l == self.active {
                        compare_of(base.pct[l])
                    } else {
                        0
                    },
                0,
            ),
            Leg::Back { .. } => motors.reversing(HOMING_PCT),
        }
    }

    /// The test run has reached the switch it is driving to, or has run out of time. The
    /// finish is taken from the event, home from the level of the switch.
    pub open spec fn leg_over(self, now: u64, levels: Levels, ev: Option<Event>) -> bool {
        match self.leg {
            Leg::Idle => false,
            Leg::Out { since } => {
                ||| ev matches Some(Event::EndHit(l)) && l == self.active
                ||| now - since > us(RACE_TIMEOUT_MS as int)
            },
            Leg::Back { since } => {
                ||| levels.at(Slot::Home(self.active))
                ||| now - since > us(RESET_TIMEOUT_MS as int)
            },
        }
    }

    /// The mode after a button: another lane may be active, or a run under way.
    pub open spec fn after_button(self, now: u64, ev: Option<Event>) -> Tune {
        Tune {
            active: match ev {
                Some(Event::Select(d)) => lane_of(d),
                _ => self.active,
            },
            leg: match ev {
                Some(Event::Go) => Leg::Out { since: now },
                _ => Leg::Idle,
            },
        }
    }

    /// The baselines after a button: UP and DOWN move the active lane's.
    pub open spec fn adjusts(self, base: Baselines, ev: Option<Event>) -> Seq<u8> {
        let active = self.active as int;
        match ev {
            Some(Event::Up) => base.pct@.update(active, nudged_up(base.pct[active])),
            Some(Event::Down) => base.pct@.update(active, nudged_down(base.pct[active])),
            _ => base.pct@,
        }
    }

    /// Shows a lane's row as a bar at this level.
    pub open spec fn shows(lane: usize, pct: u8) -> Output {
        Output {
            mode: Some(Mode::Tune { lane: lane as u8, pct }),
            ..Output::only(Wait::Event(RECV_MS))
        }
    }

    /// What TUNE mode asks for after a button, as long as it goes on, with the baselines as
    /// they were. The bar follows the lane and its level.
    pub open spec fn asks(self, base: Baselines, ev: Option<Event>) -> Output {
        let level = base.pct[self.active as int];
        match ev {
            Some(Event::Select(d)) => Tune::shows(lane_of(d), base.pct[lane_of(d) as int]),
            Some(Event::Up) => Tune::shows(self.active, nudged_up(level)),
            Some(Event::Down) => Tune::shows(self.active, nudged_down(level)),
            Some(Event::Go) => Output::only(Wait::Event(TEST_POLL_MS)),
            _ => Output::only(Wait::Event(RECV_MS)),
        }
    }

    /// Enters TUNE mode on the first lane.
    pub fn enter(base: &Baselines) -> (r: (Tune, Output))
        ensures
            r.0 == (Tune { active: 0, leg: Leg::Idle }),
            r.1 == Tune::shows(0, base.pct[0]),
    {
        let tune: Tune = Tune { active: 0, leg: Leg::Idle };
        (tune, tune.show_level(base))
    }

    /// Shows the active lane's level.
    fn show_level(&self, base: &Baselines) -> (out: Output)
        requires
            self.active < LANES,
        ensures
            out == Tune::shows(self.active, base.pct[self.active as int]),
    {
        let mode: Mode = Mode::Tune { lane: self.active as u8, pct: base.pct[self.active] };
        Output::show(mode, Wait::Event(RECV_MS))
    }

    /// One turn between test runs: the buttons pick a lane, adjust its baseline, start a run,
    /// or save and leave. Everything else is ignored.
    pub fn tune_mode(
        &mut self,
        base: &mut Baselines,
        motors: &mut Motors,
        now: u64,
        ev: Option<Event>,
    ) -> (turn: TuneTurn)
        requires
            old(self).wf(now),
            old(self).leg is Idle,
        ensures
            final(self).wf(now),
            old(base).sane() ==> final(base).sane(),
            *final(self) == old(self).after_button(now, ev),
            final(base).pct@ == old(self).adjusts(*old(base), ev),
            ev != Some(Event::Up) && ev != Some(Event::Down) ==> *final(base) == *old(base),
            ev == Some(Event::Go) ==> final(motors).same_rest(
                Motors { awake: true, ..*old(motors) },
            ) && final(motors).carries(
                |l: int|
                    if l == old(self).active {
                        compare_of(old(base).pct[l])
                    } else {
                        old(motors).fwd(l)
                    },
                0,
            ),
            ev != Some(Event::Go) ==> *final(motors) == *old(motors),
            turn is Saved <==> ev == Some(Event::GoLong),
            turn matches TuneTurn::Saved(buf) ==> is_record(buf@, old(base).pct@),
            turn matches TuneTurn::Stay(out) ==> out == old(self).asks(*old(base), ev),
    {
        match ev {
            Some(Event::Select(d)) => {
                self.active = clamp_lane(d);
                TuneTurn::Stay(self.show_level(base))
            },
            Some(Event::Up) => {
                base.pct[self.active] = nudge_up(base.pct[self.active]);
                TuneTurn::Stay(self.show_level(base))
            },
            Some(Event::Down) => {
                base.pct[self.active] = nudge_down(base.pct[self.active]);
                TuneTurn::Stay(self.show_level(base))
            },
            Some(Event::Go) => {
                motors.enable(true);
                motors.set_lane_forward(self.active, base.pct[self.active]);
                self.leg = Leg::Out { since: now };
                TuneTurn::Stay(Output::quiet(Wait::Event(TEST_POLL_MS)))
            },
            Some(Event::GoLong) => TuneTurn::Saved(save(base)),
            _ => TuneTurn::Stay(Output::quiet(Wait::Event(RECV_MS))),
        }
    }

    /// One turn of a test run: out to the finish switch, then back home.
    pub fn test_lane(
        &mut self,
        motors: &mut Motors,
        now: u64,
        levels: &Levels,
        ev: Option<Event>,
    ) -> (out: Output)
        requires
            old(self).wf(now),
            old(self).leg !is Idle,
        ensures
            final(self).wf(now),
            final(self).active == old(self).active,
            !old(self).leg_over(now, *levels, ev) ==> {
                &&& *final(self) == *old(self)
                &&& *final(motors) == *old(motors)
                &&& out == Output::only(Wait::Event(TEST_POLL_MS))
            },
            old(self).leg_over(now, *levels, ev) && old(self).leg is Out ==> {
                &&& final(self).leg == (Leg::Back { since: now })
                &&& final(motors).reversing(HOMING_PCT)
                &&& out == Output::only(Wait::Event(TEST_POLL_MS))
            },
            old(self).leg_over(now, *levels, ev) && old(self).leg is Back ==> {
                &&& final(self).leg is Idle
                &&& final(motors).coasting()
                &&& out == Output::only(Wait::Event(RECV_MS))
            },
            final(motors).same_rest(*old(motors)),
    {
        match self.leg {
            Leg::Idle => {},
            Leg::Out { since } => {
                let hit: bool = match ev {
                    Some(Event::EndHit(l)) => l as usize == self.active,
                    _ => false,
                };
                if hit || now - since > micros(RACE_TIMEOUT_MS) {
                    motors.reverse_all(HOMING_PCT);
                    self.leg = Leg::Back { since: now };
                }
            },
            Leg::Back { since } => {
                if home_closed(levels, self.active) || now - since > micros(RESET_TIMEOUT_MS) {
                    motors.coast_all();
                    self.leg = Leg::Idle;
                    return Output::quiet(Wait::Event(RECV_MS));
                }
            },
        }
        Output::quiet(Wait::Event(TEST_POLL_MS))
    }
}

// ---- The record byte by byte, and TUNE mode turn by turn ----

/// Law: a record is, byte for byte, the mark with its lowest byte first, the four duties, and
/// the mark again with each duty folded into its byte.
pub proof fn record_byte_by_byte(buf: Seq<u8>, pct: Seq<u8>)
    requires
        buf.len() == RECORD_LEN,
        pct.len() == LANES,
    ensures
        is_record(buf, pct) <==> {
            &&& buf[0] == 0x01 && buf[1] == 0x00 && buf[2] == 0xCC && buf[3] == 0xD0
            &&& buf[4] == pct[0] && buf[5] == pct[1] && buf[6] == pct[2] && buf[7] == pct[3]
            &&& buf[8] == 0x01u8 ^ pct[0] && buf[9] == 0x00u8 ^ pct[1]
            &&& buf[10] == 0xCCu8 ^ pct[2] && buf[11] == 0xD0u8 ^ pct[3]
        },
{
    let (p0, p1, p2, p3) = (pct[0], pct[1], pct[2], pct[3]);
    let (s0, s1, s2, s3) = (0x01u8 ^ p0, 0x00u8 ^ p1, 0xCCu8 ^ p2, 0xD0u8 ^ p3);
    let m = MAGIC;
    let x = le_u32(p0, p1, p2, p3);
    let y = le_u32(s0, s1, s2, s3);
    assert(m ^ x == y) by (bit_vector)
        requires
            m == 0xD0CC_0001u32,
            x == p0 + 0x100 * p1 + 0x1_0000 * p2 + 0x100_0000 * p3,
            y == s0 + 0x100 * s1 + 0x1_0000 * s2 + 0x100_0000 * s3,
            s0 == 0x01u8 ^ p0,
            s1 == 0x00u8 ^ p1,
            s2 == 0xCCu8 ^ p2,
            s3 == 0xD0u8 ^ p3,
    ;
    assert(le_u32(0x01, 0x00, 0xCC, 0xD0) == MAGIC);
    assert(duties_in(buf).len() == 4);
    assert forall|i: int| 0 <= i < 4 implies #[trigger] duties_in(buf)[i] == buf[4 + i] by {}
    if is_record(buf, pct) {
        lemma_le_is_injective(MAGIC, buf[0], buf[1], buf[2], buf[3], 0x01, 0x00, 0xCC, 0xD0);
        lemma_le_is_injective(y, buf[8], buf[9], buf[10], buf[11], s0, s1, s2, s3);
        assert(duties_in(buf)[0] == pct[0] && duties_in(buf)[1] == pct[1]);
        assert(duties_in(buf)[2] == pct[2] && duties_in(buf)[3] == pct[3]);
    } else if buf[4] == pct[0] && buf[5] == pct[1] && buf[6] == pct[2] && buf[7] == pct[3] {
        assert(duties_in(buf) =~= pct);
    }
}

/// Law: a record is taken for valid exactly when it is the record of its own duties and each
/// of them is between the floor and full duty.
pub proof fn only_sane_records_are_valid(buf: Seq<u8>)
    requires
        buf.len() == RECORD_LEN,
    ensures
        duties_in(buf) == seq![buf[4], buf[5], buf[6], buf[7]],
        is_valid(buf) <==> is_record(buf, duties_in(buf)) && FLOOR_PCT <= buf[4] <= 100
            && FLOOR_PCT <= buf[5] <= 100 && FLOOR_PCT <= buf[6] <= 100 && FLOOR_PCT <= buf[7]
            <= 100,
{
    let d = duties_in(buf);
    assert(d =~= seq![buf[4], buf[5], buf[6], buf[7]]);
    assert(d[0] == buf[4] && d[1] == buf[5] && d[2] == buf[6] && d[3] == buf[7]);
}

/// Law: baselines are sane exactly when each is between the floor and full duty; and the
/// defaults, which are the same in every lane, are.
pub proof fn sane_is_from_floor_to_full(b: Baselines, lane: int)
    requires
        0 <= lane < LANES,
    ensures
        b.sane() <==> FLOOR_PCT <= b.pct[0] <= 100 && FLOOR_PCT <= b.pct[1] <= 100 && FLOOR_PCT
            <= b.pct[2] <= 100 && FLOOR_PCT <= b.pct[3] <= 100,
        default_pct().len() == LANES,
        default_pct()[lane] == BASE_DEFAULT_PCT,
        all_sane(default_pct()),
{
    let p = b.pct@;
    assert(p[0] == b.pct[0] && p[1] == b.pct[1] && p[2] == b.pct[2] && p[3] == b.pct[3]);
}

/// Law: UP and DOWN move a baseline by one step and stop at full duty and at the floor.
pub proof fn nudges_are_one_step(pct: u8)
    ensures
        pct + NUDGE_STEP <= 100 ==> nudged_up(pct) == pct + NUDGE_STEP,
        pct + NUDGE_STEP > 100 ==> nudged_up(pct) == 100,
        pct - NUDGE_STEP >= FLOOR_PCT ==> nudged_down(pct) == pct - NUDGE_STEP,
        pct - NUDGE_STEP < FLOOR_PCT ==> nudged_down(pct) == FLOOR_PCT,
{
}

/// Law: a leg of a test run ends on the active lane's own switch or at its own timeout, and on
/// nothing else: the way out on the event of its finish switch, the way back on the level of
/// its home switch, whatever the other lanes' switches read. Between runs no leg ends.
pub proof fn legs_end_on_their_own_switch(t: Tune, now: u64, levels: Levels, ev: Option<Event>)
    requires
        t.active < LANES,
    ensures
        match t.leg {
            Leg::Idle => !t.leg_over(now, levels, ev),
            Leg::Out { since } => t.leg_over(now, levels, ev) <==> ev == Some(
                Event::EndHit(t.active as u8),
            ) || now - since > us(RACE_TIMEOUT_MS as int),
            Leg::Back { since } => t.leg_over(now, levels, ev) <==> levels.home[t.active as int]
                || now - since > us(RESET_TIMEOUT_MS as int),
        },
{
}

/// Law: the other lanes' switches have no say in a test run: two readings that agree on the
/// active lane's home switch, and on the event, end the same legs.
pub proof fn other_lanes_do_not_end_a_leg(
    t: Tune,
    now: u64,
    a: Levels,
    b: Levels,
    ev: Option<Event>,
)
    requires
        t.active < LANES,
        a.home[t.active as int] == b.home[t.active as int],
    ensures
        t.leg_over(now, a, ev) == t.leg_over(now, b, ev),
{
}

/// Law: in TUNE a duck button makes its lane the active one and GO starts a run of it, now;
/// nothing else changes the lane or starts a run.
pub proof fn buttons_pick_and_start(t: Tune, now: u64, ev: Option<Event>, d: u8)
    ensures
        t.after_button(now, Some(Event::Select(d))) == (Tune {
            active: lane_of(d),
            leg: Leg::Idle,
        }),
        t.after_button(now, Some(Event::Go)) == (Tune {
            active: t.active,
            leg: Leg::Out { since: now },
        }),
        ev !is Some || (ev->0 !is Select && ev->0 !is Go) ==> t.after_button(now, ev) == (Tune {
            active: t.active,
            leg: Leg::Idle,
        }),
{
}

/// Law: UP and DOWN move the active lane's baseline and no other; no other event moves any.
pub proof fn only_the_active_baseline_moves(
    t: Tune,
    base: Baselines,
    ev: Option<Event>,
    lane: int,
)
    requires
        t.active < LANES,
        0 <= lane < LANES,
    ensures
        t.adjusts(base, ev).len() == LANES,
        lane != t.active ==> t.adjusts(base, ev)[lane] == base.pct[lane],
        t.adjusts(base, Some(Event::Up))[t.active as int] == nudged_up(base.pct[t.active as int]),
        t.adjusts(base, Some(Event::Down))[t.active as int] == nudged_down(
            base.pct[t.active as int],
        ),
        ev != Some(Event::Up) && ev != Some(Event::Down) ==> t.adjusts(base, ev)[lane]
            == base.pct[lane],
{
}

/// Law: after a duck button, UP or DOWN, TUNE shows the lane and the level as they then are,
/// and waits for the next button; after GO it looks at the switches more often; it never asks
/// for a sound, a drain or a save.
pub proof fn tune_shows_what_it_set(t: Tune, base: Baselines, now: u64, ev: Option<Event>)
    requires
        t.active < LANES,
    ensures
        ({
            let out = t.asks(base, ev);
            let lane = t.after_button(now, ev).active;
            let shown = ev is Some && (ev->0 is Select || ev->0 is Up || ev->0 is Down);
            &&& out.mode == if shown {
                Some(Mode::Tune { lane: lane as u8, pct: t.adjusts(base, ev)[lane as int] })
            } else {
                None
            }
            &&& out.wait == if ev == Some(Event::Go) {
                Wait::Event(TEST_POLL_MS)
            } else {
                Wait::Event(RECV_MS)
            }
            &&& out.sound is None && out.save is None && !out.drain
        }),
{
}

/// Law: in TUNE the motors rest between runs; on the way out only the active lane is driven,
/// forward at its baseline; on the way back the shared line reverses every lane.
pub proof fn tune_drives_the_active_lane(
    t: Tune,
    motors: Motors,
    base: Baselines,
    lane: int,
)
    requires
        t.drives(motors, base),
        0 <= lane < LANES,
    ensures
        t.leg is Idle ==> motors.fwd(lane) == 0 && motors.rev.compare_a == 0,
        t.leg is Out ==> motors.rev.compare_a == 0 && motors.fwd(lane) == if lane == t.active {
            compare_of(base.pct[lane])
        } else {
            0
        },
        t.leg is Back ==> motors.fwd(lane) == 0 && motors.rev.compare_a == compare_of(HOMING_PCT),
{
}

/// Law: a run is well formed on a lane that exists, when it began no later than now.
pub proof fn runs_began_before(t: Tune, at: u64)
    ensures
        t.wf(at) <==> t.active < LANES && match t.leg {
            Leg::Idle => true,
            Leg::Out { since } => since <= at,
            Leg::Back { since } => since <= at,
        },
{
}

/// Law: the request that shows a level shows that lane and that level and asks for nothing
/// else.
pub proof fn level_request_is_the_bar_alone(lane: usize, pct: u8)
    ensures
        Tune::shows(lane, pct) == (Output {
            drain: false,
            mode: Some(Mode::Tune { lane: lane as u8, pct }),
            sound: None,
            save: None,
            wait: Wait::Event(RECV_MS),
        }),
{
}

/// Law: what loads is the duties of the record in flash, if it is the record of sane ones, and
/// the defaults otherwise: after a failed read, from a blank sector, from a record with any
/// byte wrong or a duty out of range. So a save of sane baselines is what the next start
/// loads.
pub proof fn loads_are_records_or_defaults(
    read: Option<[u8; RECORD_LEN]>,
    pct: Seq<u8>,
    lane: int,
    any: int,
)
    requires
        pct.len() == LANES,
        0 <= lane < LANES,
        0 <= any < LANES,
    ensures
        loaded(None)[lane] == BASE_DEFAULT_PCT,
        match read {
            Some(buf) => {
                &&& is_record(buf@, pct) && all_sane(pct) ==> loaded(read) == pct
                &&& loaded(read)[lane] == buf[4 + lane] || loaded(read)[lane] == BASE_DEFAULT_PCT
                &&& !is_record(buf@, duties_in(buf@)) ==> loaded(read)[lane] == BASE_DEFAULT_PCT
                &&& !(FLOOR_PCT <= buf[4 + any] <= 100) ==> loaded(read)[lane] == BASE_DEFAULT_PCT
            },
            None => true,
        },
        FLOOR_PCT <= loaded(read)[lane] <= 100,
{
    if let Some(buf) = read {
        assert(duties_in(buf@)[lane] == buf[4 + lane]);
        assert(duties_in(buf@)[any] == buf[4 + any]);
    }
}

} // verus!
