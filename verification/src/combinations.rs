use crate::wait::{Condition, Probe, Reading, Wait};
use crate::waits::Step;
use vstd::prelude::*;

verus! {

/// Several conditions, of which any one is waited for. They are evaluated
/// in order, and the first that is met ends the tick.
#[derive(Debug, Clone, PartialEq, Eq)]
pub struct WaitMultiple(pub Vec<Wait>);

/// Whether condition `at` is reached on a tick: none before it is met.
pub open spec fn reached(conditions: Seq<Condition>, readings: Seq<Reading>, at: int) -> bool {
    forall|j: int| 0 <= j < at ==> !(#[trigger] conditions[j]).met(readings[j])
}

/// Whether any of the conditions is met on a tick where the probe of
/// condition `i` reads `readings[i]`. With no condition there is nothing to
/// wait for.
pub open spec fn any_met(conditions: Seq<Condition>, readings: Seq<Reading>) -> bool {
    conditions.len() == 0 || exists|i: int|
        0 <= i < conditions.len() && (#[trigger] conditions[i]).met(readings[i])
}

/// The conditions after that tick: those that were reached have been
/// evaluated, the others are as they were.
pub open spec fn after_any(conditions: Seq<Condition>, readings: Seq<Reading>) -> Seq<Condition> {
    Seq::new(
        conditions.len(),
        |i: int|
            if reached(conditions, readings, i) {
                conditions[i].after(readings[i])
            } else {
                conditions[i]
            },
    )
}

impl View for WaitMultiple {
    type V = Seq<Condition>;

    open spec fn view(&self) -> Seq<Condition> {
        self.0@.map_values(|wait: Wait| wait@)
    }
}

impl WaitMultiple {
    /// The conditions in `waits`, in their order.
    pub fn new(waits: Vec<Wait>) -> (multiple: WaitMultiple)
        ensures
            multiple@ == waits@.map_values(|wait: Wait| wait@),
    {
        WaitMultiple(waits)
    }

    /// The same conditions, and `other` behind them.
    pub fn or(self, other: Wait) -> (multiple: WaitMultiple)
        ensures
            multiple@ == self@.push(other@),
    {
        let mut waits = self.0;
        waits.push(other);
        proof {
            assert(waits@.map_values(|wait: Wait| wait@) =~= self@.push(other@));
        }
        WaitMultiple(waits)
    }

    /// The number of conditions.
    pub fn len(&self) -> (n: usize)
        ensures
            n == self@.len(),
    {
        self.0.len()
    }

    /// How a tick starts: with the probe of the first condition, or, where
    /// there is none, at its end.
    pub fn begin(&self) -> (step: Step)
        ensures
            step == if self@.len() == 0 {
                Step::Done(true)
            } else {
                Step::Probe(0)
            },
    {
        if self.0.len() == 0 {
            Step::Done(true)
        } else {
            Step::Probe(0)
        }
    }

    /// The probe to perform before condition `leaf` is fed.
    pub fn probe(&self, leaf: usize) -> (probe: Probe<'_>)
        requires
            leaf < self@.len(),
        ensures
            self@[leaf as int].asks(probe),
    {
        self.0[leaf].probe()
    }

    /// Evaluates condition `leaf` on what its probe read, and says which
    /// condition is to be probed next, or how the tick ended.
    pub fn feed(&mut self, leaf: usize, reading: Reading) -> (step: Step)
        requires
            leaf < old(self)@.len(),
        ensures
            final(self)@ == old(self)@.update(leaf as int, old(self)@[leaf as int].after(reading)),
            step == if old(self)@[leaf as int].met(reading) {
                Step::Done(true)
            } else if leaf + 1 < old(self)@.len() {
                Step::Probe((leaf + 1) as usize)
            } else {
                Step::Done(false)
            },
    {
        let count: usize = self.0.len();
        let met = self.0[leaf].condition_met(reading);
        proof {
            assert(self@ =~= old(self)@.update(
                leaf as int,
                old(self)@[leaf as int].after(reading),
            ));
        }
        if met {
            Step::Done(true)
        } else if leaf + 1 < count {
            Step::Probe(leaf + 1)
        } else {
            Step::Done(false)
        }
    }

    /// Evaluates the conditions on one tick, given for each what its probe
    /// reads on this tick: in order, up to the first that is met.
    pub fn condition_met(&mut self, readings: &Vec<Reading>) -> (met: bool)
        requires
            readings.len() == old(self)@.len(),
        ensures
            met == any_met(old(self)@, readings@),
            final(self)@ == after_any(old(self)@, readings@),
    {
        let ghost start = self@;
        let mut step = self.begin();
        loop
            invariant
                start == old(self)@,
                self@.len() == start.len() == readings.len(),
                match step {
                    Step::Probe(leaf) => {
                        &&& leaf < start.len()
                        &&& reached(start, readings@, leaf as int)
                        &&& forall|i: int|
                            0 <= i < start.len() ==> #[trigger] self@[i] == if i < leaf {
                                start[i].after(readings@[i])
                            } else {
                                start[i]
                            }
                    },
                    Step::Done(met) => {
                        &&& met == any_met(start, readings@)
                        &&& self@ == after_any(start, readings@)
                    },
                },
            decreases
                    match step {
                        Step::Probe(leaf) => readings.len() - leaf + 1,
                        Step::Done(_) => 0,
                    },
        {
            match step {
                Step::Done(met) => {
                    return met;
                },
                Step::Probe(leaf) => {
                    let ghost before = self@;
                    step = self.feed(leaf, readings[leaf]);
                    proof {
                        let conditions = start;
                        let now = self@;
                        match step {
                            Step::Probe(_) => {},
                            Step::Done(met) => {
                                if met {
                                    assert(conditions[leaf as int].met(readings@[leaf as int]));
                                } else {
                                    assert(leaf + 1 == conditions.len());
                                }
                                assert forall|i: int| 0 <= i < conditions.len() implies now[i]
                                    == after_any(conditions, readings@)[i] by {
                                    if i > leaf {
                                        assert(!reached(conditions, readings@, i));
                                    } else {
                                        assert(reached(conditions, readings@, i));
                                    }
                                }
                                assert(now =~= after_any(conditions, readings@));
                            },
                        }
                    }
                },
            }
        }
    }
}

} // verus!
