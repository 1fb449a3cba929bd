//! Decaying scalar parameters: a current value, an optional decay
//! schedule and a step counter.  The stored value always equals the
//! schedule's closed-form value at the stored step count.

use vstd::prelude::*;

use crate::fixed::{fx_mul_v, lemma_fx_mul_unit, Fx, SCALE};

verus! {

/// How a parameter evolves when it is stepped at an episode boundary.
#[derive(Clone, Copy, Debug, PartialEq, Eq, Structural)]
pub enum Schedule {
    /// The value never changes.
    Constant,
    /// The value is multiplied by `rate` (a factor in `[0, 1]`) each step.
    Exponential { rate: Fx },
}

/// The closed-form value of a schedule after `n` steps from `init`.
pub open spec fn sched_value(init: int, s: Schedule, n: int) -> int
    decreases n,
{
    if n <= 0 {
        init
    } else {
        match s {
            Schedule::Constant => sched_value(init, s, n - 1),
            Schedule::Exponential { rate } => fx_mul_v(rate@, sched_value(init, s, n - 1)),
        }
    }
}

/// A scalar value with an optional decay schedule and a step counter.
#[derive(Clone, Copy, Debug)]
pub struct Parameter {
    init: Fx,
    value: Fx,
    sched: Schedule,
    count: usize,
}

impl Parameter {
    /// The initial value the schedule starts from.
    pub closed spec fn init_spec(&self) -> int {
        self.init@
    }

    /// The current value.
    pub closed spec fn value_spec(&self) -> int {
        self.value@
    }

    /// The schedule.
    pub closed spec fn sched_spec(&self) -> Schedule {
        self.sched
    }

    /// How many times this parameter has been stepped.
    pub closed spec fn count_spec(&self) -> int {
        self.count as int
    }

    /// An exponential rate lies in `[0, 1]`, and the current value is the
    /// schedule's closed-form value at the current step count.
    pub open spec fn wf(&self) -> bool {
        &&& 0 <= self.count_spec()
        &&& self.sched_spec() matches Schedule::Exponential { rate } ==> 0 <= rate@ <= SCALE as int
        &&& self.value_spec() == sched_value(self.init_spec(), self.sched_spec(), self.count_spec())
    }

    /// A parameter with a fixed value and no decay.
    pub fn fixed(value: Fx) -> (r: Parameter)
        ensures
            r.wf(),
            r.value_spec() == value@,
            r.init_spec() == value@,
            r.sched_spec() == Schedule::Constant,
            r.count_spec() == 0,
    {
        Parameter { init: value, value, sched: Schedule::Constant, count: 0 }
    }

    /// A parameter that starts at `init` and is multiplied by `rate` at
    /// each step.
    pub fn exponential(init: Fx, rate: Fx) -> (r: Parameter)
        requires
            0 <= rate@ <= SCALE as int,
        ensures
            r.wf(),
            r.value_spec() == init@,
            r.init_spec() == init@,
            r.sched_spec() == (Schedule::Exponential { rate }),
            r.count_spec() == 0,
    {
        Parameter { init, value: init, sched: Schedule::Exponential { rate }, count: 0 }
    }

    /// The current value.
    pub fn value(&self) -> (r: Fx)
        ensures
            r@ == self.value_spec(),
    {
        self.value
    }

    /// Steps the schedule once, at an episode boundary.
    pub fn step(self) -> (r: Parameter)
        requires
            self.wf(),
            self.count_spec() < usize::MAX,
        ensures
            r.wf(),
            r.init_spec() == self.init_spec(),
            r.sched_spec() == self.sched_spec(),
            r.count_spec() == self.count_spec() + 1,
            r.value_spec() == sched_value(self.init_spec(), self.sched_spec(), self.count_spec() + 1),
    {
        match self.sched {
            Schedule::Constant => Parameter { count: self.count + 1, ..self },
            Schedule::Exponential { rate } => {
                proof {
                    lemma_fx_mul_unit(rate@, self.value@);
                }
                Parameter { value: rate.mul(self.value), count: self.count + 1, ..self }
            },
        }
    }
}

/// How one schedule step relates two parameters: same start, same
/// schedule, the counter one higher, and the value at the closed form of
/// the new count.
pub open spec fn param_stepped(pre: Parameter, post: Parameter) -> bool {
    &&& post.init_spec() == pre.init_spec()
    &&& post.sched_spec() == pre.sched_spec()
    &&& post.count_spec() == pre.count_spec() + 1
    &&& post.value_spec() == sched_value(pre.init_spec(), pre.sched_spec(), pre.count_spec() + 1)
}

/// A parameter's value never strays from its schedule: after any number
/// of steps, the stored value is exactly the schedule's closed-form value
/// at the stored step count.
pub proof fn lemma_parameter_closed_form(p: Parameter)
    requires
        p.wf(),
    ensures
        p.value_spec() == sched_value(p.init_spec(), p.sched_spec(), p.count_spec()),
{
}

/// A nonnegative value under an exponential schedule never increases from
/// one step to the next, so the schedule is monotone.
pub proof fn lemma_exponential_monotone(init: int, rate: Fx, n: int)
    requires
        0 <= rate@ <= SCALE as int,
        0 <= init,
        0 <= n,
    ensures
        0 <= sched_value(init, Schedule::Exponential { rate }, n + 1) <= sched_value(
            init,
            Schedule::Exponential { rate },
            n,
        ),
    decreases n,
{
    let s = Schedule::Exponential { rate };
    assert(sched_value(init, s, n + 1) == fx_mul_v(rate@, sched_value(init, s, n)));
    if n == 0 {
        assert(sched_value(init, s, 0) == init);
        lemma_fx_mul_unit(rate@, init);
    } else {
        lemma_exponential_monotone(init, rate, n - 1);
        lemma_fx_mul_unit(rate@, sched_value(init, s, n));
    }
}

} // verus!
