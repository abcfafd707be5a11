//! Motor drive: two dual H-bridges in the shared-reverse scheme.
//!
//! Each motor's IN1 is its own forward PWM line; all four IN2 lines are one shared reverse
//! PWM line.
//!
//! | IN1 | IN2 | motor   |
//! |-----|-----|---------|
//! | PWM | 0   | forward |
//! | 0   | PWM | reverse |
//! | 0   | 0   | coast   |
//! | 1   | 1   | brake   |

use crate::config::{compare_of, pct_to_compare, LANES, PWM_TOP};
use vstd::prelude::*;

verus! {

/// The two compare values of one PWM slice.
#[derive(Clone, Copy, PartialEq, Eq, Structural, Debug)]
pub struct Slice {
    pub compare_a: u16,
    pub compare_b: u16,
}

/// What the driver lines carry: the compare values of the three PWM slices, and nSLEEP.
#[derive(Clone, Copy, PartialEq, Eq, Structural, Debug)]
pub struct Motors {
    /// Channel A is lane 0, channel B lane 1.
    pub fwd01: Slice,
    /// Channel A is lane 2, channel B lane 3.
    pub fwd23: Slice,
    /// Channel A is the shared reverse line; channel B is not connected.
    pub rev: Slice,
    /// nSLEEP: the drivers are enabled.
    pub awake: bool,
}

/// What an H-bridge does with its motor.
pub enum Drive {
    Coast,
    Forward,
    Reverse,
    Brake,
}

impl Motors {
    /// Compare value of a lane's forward line.
    pub open spec fn fwd(self, lane: int) -> u16 {
        if lane == 0 {
            self.fwd01.compare_a
        } else if lane == 1 {
            self.fwd01.compare_b
        } else if lane == 2 {
            self.fwd23.compare_a
        } else {
            self.fwd23.compare_b
        }
    }

    /// The motor's state by the truth table of its two inputs.
    pub open spec fn drive(self, lane: int) -> Drive {
        if self.fwd(lane) == 0 && self.rev.compare_a == 0 {
            Drive::Coast
        } else if self.rev.compare_a == 0 {
            Drive::Forward
        } else if self.fwd(lane) == 0 {
            Drive::Reverse
        } else {
            Drive::Brake
        }
    }

    /// The lines hold these compare values, lane by lane, with `rev` on the shared line.
    pub open spec fn carries(self, fwd: spec_fn(int) -> u16, rev: u16) -> bool {
        &&& self.fwd(0) == fwd(0)
        &&& self.fwd(1) == fwd(1)
        &&& self.fwd(2) == fwd(2)
        &&& self.fwd(3) == fwd(3)
        &&& self.rev.compare_a == rev
    }

    /// Both inputs of every motor are low.
    pub open spec fn coasting(self) -> bool {
        self.carries(|l: int| 0, 0)
    }

    /// Both inputs of every motor are high.
    pub open spec fn braking(self) -> bool {
        self.carries(|l: int| PWM_TOP, PWM_TOP)
    }

    /// Every lane runs forward at its duty.
    pub open spec fn running(self, duties: Seq<u8>) -> bool {
        self.carries(|l: int| compare_of(duties[l]), 0)
    }

    /// The shared line drives every lane back at one duty.
    pub open spec fn reversing(self, pct: u8) -> bool {
        self.carries(|l: int| 0, compare_of(pct))
    }

    /// The reverse slice's unconnected channel and nSLEEP are as in `other`.
    pub open spec fn same_rest(self, other: Motors) -> bool {
        self.rev.compare_b == other.rev.compare_b && self.awake == other.awake
    }

    /// No motor is driven against another, and braking is all or nothing.
    pub open spec fn wf(self) -> bool {
        ||| self.rev.compare_a == 0
        ||| self.carries(|l: int| 0, self.rev.compare_a)
        ||| self.braking()
    }

    /// All lines low, drivers asleep.
    pub fn new() -> (motors: Motors)
        ensures
            motors.coasting(),
            motors.rev.compare_b == 0,
            !motors.awake,
            motors.wf(),
    {
        let idle: Slice = Slice { compare_a: 0, compare_b: 0 };
        Motors { fwd01: idle, fwd23: idle, rev: idle, awake: false }
    }

    /// Wakes the drivers, or puts them to sleep.
    pub fn enable(&mut self, on: bool)
        ensures
            *final(self) == (Motors { awake: on, ..*old(self) }),
    {
        self.awake = on;
    }

    /// Sets one lane's forward line; a lane that does not exist changes nothing.
    fn set_fwd_compare(&mut self, lane: usize, compare: u16)
        ensures
            final(self).carries(
                |l: int|
                    if l == lane {
                        compare
                    } else {
                        old(self).fwd(l)
                    },
                old(self).rev.compare_a,
            ),
            final(self).same_rest(*old(self)),
    {
        if lane == 0 {
            self.fwd01.compare_a = compare;
        } else if lane == 1 {
            self.fwd01.compare_b = compare;
        } else if lane == 2 {
            self.fwd23.compare_a = compare;
        } else if lane == 3 {
            self.fwd23.compare_b = compare;
        }
    }

    /// Sets every lane's forward line to the same compare value.
    fn set_all_fwd(&mut self, compare: u16)
        ensures
            final(self).carries(|l: int| compare, old(self).rev.compare_a),
            final(self).same_rest(*old(self)),
    {
        let mut l: usize = 0;
        while l < LANES
            invariant
                l <= LANES,
                self.carries(
                    |k: int|
                        if k < l {
                            compare
                        } else {
                            old(self).fwd(k)
                        },
                    old(self).rev.compare_a,
                ),
                self.same_rest(*old(self)),
            decreases LANES - l,
        {
            self.set_fwd_compare(l, compare);
            l = l + 1;
        }
    }

    /// Drives all lanes forward at the given duties. The shared line is held low.
    pub fn race_forward(&mut self, duties_pct: &[u8; LANES])
        ensures
            final(self).running(duties_pct@),
            final(self).same_rest(*old(self)),
            final(self).wf(),
    {
        self.rev.compare_a = 0;
        let mut l: usize = 0;
        while l < LANES
            invariant
                l <= LANES,
                self.carries(
                    |k: int|
                        if k < l {
                            compare_of(duties_pct[k])
                        } else {
                            old(self).fwd(k)
                        },
                    0,
                ),
                self.same_rest(*old(self)),
            decreases LANES - l,
        {
            self.set_fwd_compare(l, pct_to_compare(duties_pct[l]));
            l = l + 1;
        }
    }

    /// Drives a single lane forward; the others are left as they are, except that the shared
    /// line is taken low.
    pub fn set_lane_forward(&mut self, lane: usize, pct: u8)
        ensures
            final(self).carries(
                |l: int|
                    if l == lane {
                        compare_of(pct)
                    } else {
                        old(self).fwd(l)
                    },
                0,
            ),
            final(self).same_rest(*old(self)),
            final(self).wf(),
    {
        self.rev.compare_a = 0;
        self.set_fwd_compare(lane, pct_to_compare(pct));
    }

    /// Reverses all lanes together at one duty.
    pub fn reverse_all(&mut self, pct: u8)
        ensures
            final(self).reversing(pct),
            final(self).same_rest(*old(self)),
            final(self).wf(),
    {
        self.set_all_fwd(0);
        self.rev.compare_a = pct_to_compare(pct);
    }

    /// Brakes all lanes: a fast stop at the finish.
    pub fn brake_all(&mut self)
        ensures
            final(self).braking(),
            final(self).same_rest(*old(self)),
            final(self).wf(),
    {
        self.set_all_fwd(PWM_TOP);
        self.rev.compare_a = PWM_TOP;
    }

    /// Lets all lanes coast.
    pub fn coast_all(&mut self)
        ensures
            final(self).coasting(),
            final(self).same_rest(*old(self)),
            final(self).wf(),
    {
        self.set_all_fwd(0);
        self.rev.compare_a = 0;
    }
}

/// Law: two lanes are never driven in opposite directions, and while any lane reverses or
/// brakes, every lane does the same.
pub proof fn lanes_never_oppose(motors: Motors, a: int, b: int)
    requires
        motors.wf(),
        0 <= a < LANES,
        0 <= b < LANES,
    ensures
        !(motors.drive(a) is Forward && motors.drive(b) is Reverse),
        motors.drive(a) is Reverse ==> motors.drive(b) is Reverse,
        motors.drive(a) is Brake ==> motors.drive(b) is Brake,
{
}

/// Law: each command drives every lane as the truth table says; a lane at no duty coasts.
pub proof fn commands_follow_the_truth_table(motors: Motors, duties: Seq<u8>, pct: u8, lane: int)
    requires
        0 <= lane < LANES,
        pct >= 1,
    ensures
        motors.coasting() ==> motors.drive(lane) is Coast,
        motors.braking() ==> motors.drive(lane) is Brake,
        motors.reversing(pct) ==> motors.drive(lane) is Reverse,
        motors.running(duties) && duties[lane] == 0 ==> motors.drive(lane) is Coast,
        motors.running(duties) && duties[lane] >= 1 ==> motors.drive(lane) is Forward,
{
}

/// Law: the lanes are wired to their channels: 0 and 1 to the first forward slice, 2 and 3 to
/// the second, and the shared line to channel A of the third.
pub proof fn commands_reach_their_lines(motors: Motors, duties: Seq<u8>, pct: u8)
    requires
        duties.len() == LANES,
    ensures
        motors.running(duties) <==> motors.fwd01.compare_a == compare_of(duties[0])
            && motors.fwd01.compare_b == compare_of(duties[1]) && motors.fwd23.compare_a
            == compare_of(duties[2]) && motors.fwd23.compare_b == compare_of(duties[3])
            && motors.rev.compare_a == 0,
        motors.reversing(pct) <==> motors.fwd01.compare_a == 0 && motors.fwd01.compare_b == 0
            && motors.fwd23.compare_a == 0 && motors.fwd23.compare_b == 0 && motors.rev.compare_a
            == compare_of(pct),
        motors.coasting() <==> motors.fwd01 == (Slice { compare_a: 0, compare_b: 0 })
            && motors.fwd23 == (Slice { compare_a: 0, compare_b: 0 }) && motors.rev.compare_a == 0,
        motors.braking() <==> motors.fwd01 == (Slice { compare_a: PWM_TOP, compare_b: PWM_TOP })
            && motors.fwd23 == (Slice { compare_a: PWM_TOP, compare_b: PWM_TOP })
            && motors.rev.compare_a == PWM_TOP,
{
}

/// Law: a lane's forward line is its own channel, and two sets of lines agree in the rest when
/// they agree in nSLEEP and in the channel that is not connected.
pub proof fn lines_are_wired(motors: Motors, other: Motors)
    ensures
        motors.fwd(0) == motors.fwd01.compare_a,
        motors.fwd(1) == motors.fwd01.compare_b,
        motors.fwd(2) == motors.fwd23.compare_a,
        motors.fwd(3) == motors.fwd23.compare_b,
        motors.same_rest(other) <==> motors.awake == other.awake && motors.rev.compare_b
            == other.rev.compare_b,
{
}

/// Law: the H-bridge goes by its two inputs alone: both low is coast, forward alone is
/// forward, reverse alone is reverse, both is brake.
pub proof fn bridge_goes_by_its_inputs(motors: Motors, lane: int)
    requires
        0 <= lane < LANES,
    ensures
        motors.drive(lane) is Coast <==> motors.fwd(lane) == 0 && motors.rev.compare_a == 0,
        motors.drive(lane) is Forward <==> motors.fwd(lane) > 0 && motors.rev.compare_a == 0,
        motors.drive(lane) is Reverse <==> motors.fwd(lane) == 0 && motors.rev.compare_a > 0,
        motors.drive(lane) is Brake <==> motors.fwd(lane) > 0 && motors.rev.compare_a > 0,
{
}

/// Law: lines that any of the commands leaves, and lines that only drive forward, are well
/// formed.
pub proof fn commands_leave_the_lines_well_formed(motors: Motors, duties: Seq<u8>, pct: u8)
    requires
        motors.running(duties) || motors.reversing(pct) || motors.coasting() || motors.braking()
            || motors.rev.compare_a == 0,
    ensures
        motors.wf(),
{
}

} // verus!
