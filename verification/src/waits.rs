use crate::wait::{Condition, Probe, Reading, Wait};
use vstd::prelude::*;

verus! {

/// An expression over conditions, evaluated with short circuit.
///
/// Its leaves are numbered from the left, starting at 0.
#[derive(Debug, PartialEq, Eq)]
pub enum Waits {
    Single(Wait),
    Or(Box<(Waits, Waits)>),
    And(Box<(Waits, Waits)>),
}

/// What to do next within a tick.
#[derive(Debug, Clone, Copy, PartialEq, Eq)]
pub enum Step {
    /// Perform the probe of the leaf with this number and feed its reading.
    Probe(usize),
    /// The tick is over, and the expression was met or not.
    Done(bool),
}

/// The mathematical value of a [`Waits`].
pub ghost enum Tree {
    Leaf(Condition),
    Or(Box<Tree>, Box<Tree>),
    And(Box<Tree>, Box<Tree>),
}

impl Tree {
    /// The number of leaves.
    pub open spec fn leaves(self) -> nat
        decreases self,
    {
        match self {
            Tree::Leaf(_) => 1,
            Tree::Or(a, b) => a.leaves() + b.leaves(),
            Tree::And(a, b) => a.leaves() + b.leaves(),
        }
    }

    /// The leaf with the given number.
    pub open spec fn leaf(self, leaf: int) -> Condition
        decreases self,
    {
        match self {
            Tree::Leaf(c) => c,
            Tree::Or(a, b) | Tree::And(a, b) => if leaf < a.leaves() {
                a.leaf(leaf)
            } else {
                b.leaf(leaf - a.leaves())
            },
        }
    }

    /// Whether the expression is met on a tick where the probe of leaf `i`,
    /// if it is performed, reads `readings[base + i]`.
    pub open spec fn met_at(self, readings: Seq<Reading>, base: int) -> bool
        decreases self,
    {
        match self {
            Tree::Leaf(c) => c.met(readings[base]),
            Tree::Or(a, b) => a.met_at(readings, base) || b.met_at(readings, base + a.leaves()),
            Tree::And(a, b) => a.met_at(readings, base) && b.met_at(readings, base + a.leaves()),
        }
    }

    /// The expression after that tick. The right side of an `Or` whose left
    /// side is met, and of an `And` whose left side is not, is not reached
    /// and stays as it was.
    pub open spec fn after_at(self, readings: Seq<Reading>, base: int) -> Tree
        decreases self,
    {
        match self {
            Tree::Leaf(c) => Tree::Leaf(c.after(readings[base])),
            Tree::Or(a, b) => Tree::Or(
                Box::new(a.after_at(readings, base)),
                if a.met_at(readings, base) {
                    b
                } else {
                    Box::new(b.after_at(readings, base + a.leaves()))
                },
            ),
            Tree::And(a, b) => Tree::And(
                Box::new(a.after_at(readings, base)),
                if a.met_at(readings, base) {
                    Box::new(b.after_at(readings, base + a.leaves()))
                } else {
                    b
                },
            ),
        }
    }

    /// Whether the expression is met on a tick where the probe of leaf `i`,
    /// if it is performed, reads `readings[i]`.
    pub open spec fn met(self, readings: Seq<Reading>) -> bool {
        self.met_at(readings, 0)
    }

    /// The expression after that tick.
    pub open spec fn after(self, readings: Seq<Reading>) -> Tree {
        self.after_at(readings, 0)
    }

    /// Whether leaf `leaf` is evaluated on that tick: no `Or` above it has
    /// a left side that is met, and no `And` a left side that is not, with
    /// the leaf on its right side.
    pub open spec fn reaches(self, readings: Seq<Reading>, base: int, leaf: int) -> bool
        decreases self,
    {
        match self {
            Tree::Leaf(_) => true,
            Tree::Or(a, b) => if leaf < a.leaves() {
                a.reaches(readings, base, leaf)
            } else {
                !a.met_at(readings, base) && b.reaches(
                    readings,
                    base + a.leaves(),
                    leaf - a.leaves(),
                )
            },
            Tree::And(a, b) => if leaf < a.leaves() {
                a.reaches(readings, base, leaf)
            } else {
                a.met_at(readings, base) && b.reaches(
                    readings,
                    base + a.leaves(),
                    leaf - a.leaves(),
                )
            },
        }
    }

    /// The expression once one leaf has been evaluated on `reading`.
    pub open spec fn fed(self, leaf: int, reading: Reading) -> Tree
        decreases self,
    {
        match self {
            Tree::Leaf(c) => Tree::Leaf(c.after(reading)),
            Tree::Or(a, b) => if leaf < a.leaves() {
                Tree::Or(Box::new(a.fed(leaf, reading)), b)
            } else {
                Tree::Or(a, Box::new(b.fed(leaf - a.leaves(), reading)))
            },
            Tree::And(a, b) => if leaf < a.leaves() {
                Tree::And(Box::new(a.fed(leaf, reading)), b)
            } else {
                Tree::And(a, Box::new(b.fed(leaf - a.leaves(), reading)))
            },
        }
    }

    /// The leaf to probe once leaf `leaf` has been found met or not, or
    /// `None` where that settles the tick. The expression's value is then
    /// that of this last leaf.
    pub open spec fn next(self, leaf: int, met: bool) -> Option<int>
        decreases self,
    {
        match self {
            Tree::Leaf(_) => None,
            Tree::Or(a, b) => if leaf < a.leaves() {
                match a.next(leaf, met) {
                    Some(j) => Some(j),
                    None => if met {
                        None
                    } else {
                        Some(a.leaves() as int)
                    },
                }
            } else {
                match b.next(leaf - a.leaves(), met) {
                    Some(j) => Some(a.leaves() + j),
                    None => None,
                }
            },
            Tree::And(a, b) => if leaf < a.leaves() {
                match a.next(leaf, met) {
                    Some(j) => Some(j),
                    None => if met {
                        Some(a.leaves() as int)
                    } else {
                        None
                    },
                }
            } else {
                match b.next(leaf - a.leaves(), met) {
                    Some(j) => Some(a.leaves() + j),
                    None => None,
                }
            },
        }
    }

    /// How a tick ends that is taken up at leaf `leaf` and goes on from
    /// leaf to leaf as `next` says: whether the last leaf was met, and the
    /// expression after it. The probe of leaf `i` reads `readings[base + i]`.
    pub open spec fn run_at(self, leaf: int, readings: Seq<Reading>, base: int) -> (bool, Tree)
        decreases readings.len() - base - leaf,
    {
        let met = self.leaf(leaf).met(readings[base + leaf]);
        let fed = self.fed(leaf, readings[base + leaf]);
        match self.next(leaf, met) {
            Some(j) if leaf < j && base + j < readings.len() => fed.run_at(j, readings, base),
            _ => (met, fed),
        }
    }
}

/// Every expression has a leaf.
pub proof fn leaves_positive(tree: Tree)
    ensures
        tree.leaves() >= 1,
    decreases tree,
{
    match tree {
        Tree::Leaf(_) => {},
        Tree::Or(a, b) | Tree::And(a, b) => {
            leaves_positive(*a);
            leaves_positive(*b);
        },
    }
}

/// The leaf that follows a leaf within a tick has a larger number.
pub proof fn next_is_later(tree: Tree, leaf: int, met: bool)
    requires
        0 <= leaf < tree.leaves(),
    ensures
        tree.next(leaf, met) matches Some(j) ==> leaf < j < tree.leaves(),
    decreases tree,
{
    match tree {
        Tree::Leaf(_) => {},
        Tree::Or(a, b) | Tree::And(a, b) => {
            leaves_positive(*b);
            if leaf < a.leaves() {
                next_is_later(*a, leaf, met);
            } else {
                next_is_later(*b, leaf - a.leaves(), met);
            }
        },
    }
}

/// Feeding a leaf changes that leaf alone: the expression keeps its shape,
/// and every other leaf what it remembers.
pub proof fn fed_changes_one_leaf(tree: Tree, leaf: int, reading: Reading)
    requires
        0 <= leaf < tree.leaves(),
    ensures
        tree.fed(leaf, reading).leaves() == tree.leaves(),
        tree.fed(leaf, reading).leaf(leaf) == tree.leaf(leaf).after(reading),
        forall|i: int, met: bool| #[trigger]
            tree.fed(leaf, reading).next(i, met) == tree.next(i, met),
        forall|i: int|
            0 <= i < tree.leaves() && i != leaf ==> #[trigger] tree.fed(leaf, reading).leaf(i)
                == tree.leaf(i),
    decreases tree,
{
    let fed = tree.fed(leaf, reading);
    match tree {
        Tree::Leaf(_) => {
            assert forall|i: int, met: bool| #[trigger] fed.next(i, met) == tree.next(i, met) by {}
        },
        Tree::Or(a, b) | Tree::And(a, b) => {
            if leaf < a.leaves() {
                fed_changes_one_leaf(*a, leaf, reading);
            } else {
                fed_changes_one_leaf(*b, leaf - a.leaves(), reading);
            }
            assert forall|i: int, met: bool| #[trigger] fed.next(i, met) == tree.next(i, met) by {
                if i < a.leaves() {
                    assert(a.fed(leaf, reading).next(i, met) == a.next(i, met) || leaf
                        >= a.leaves());
                } else {
                    assert(b.fed(leaf - a.leaves(), reading).next(i - a.leaves(), met) == b.next(
                        i - a.leaves(),
                        met,
                    ) || leaf < a.leaves());
                }
            }
            assert forall|i: int| 0 <= i < tree.leaves() && i != leaf implies #[trigger] fed.leaf(
                i,
            ) == tree.leaf(i) by {
                if i < a.leaves() {
                    assert(a.fed(leaf, reading).leaf(i) == a.leaf(i) || leaf >= a.leaves());
                } else {
                    assert(b.fed(leaf - a.leaves(), reading).leaf(i - a.leaves()) == b.leaf(
                        i - a.leaves(),
                    ) || leaf < a.leaves());
                }
            }
        },
    }
}

/// A tick taken up inside an `Or` or an `And` ends as the tick of the side
/// that holds the leaf does, followed by the tick of the right side where
/// the left side does not settle the node.
proof fn run_in_node(tree: Tree, leaf: int, readings: Seq<Reading>, base: int)
    requires
        !(tree is Leaf),
        0 <= leaf < tree.leaves(),
        0 <= base,
        base + tree.leaves() <= readings.len(),
    ensures
        match tree {
            Tree::Leaf(_) => true,
            Tree::Or(a, b) => tree.run_at(leaf, readings, base) == if leaf < a.leaves() {
                let left = a.run_at(leaf, readings, base);
                if left.0 {
                    (true, Tree::Or(Box::new(left.1), b))
                } else {
                    let right = b.run_at(0, readings, base + a.leaves());
                    (right.0, Tree::Or(Box::new(left.1), Box::new(right.1)))
                }
            } else {
                let right = b.run_at(leaf - a.leaves(), readings, base + a.leaves());
                (right.0, Tree::Or(a, Box::new(right.1)))
            },
            Tree::And(a, b) => tree.run_at(leaf, readings, base) == if leaf < a.leaves() {
                let left = a.run_at(leaf, readings, base);
                if left.0 {
                    let right = b.run_at(0, readings, base + a.leaves());
                    (right.0, Tree::And(Box::new(left.1), Box::new(right.1)))
                } else {
                    (false, Tree::And(Box::new(left.1), b))
                }
            } else {
                let right = b.run_at(leaf - a.leaves(), readings, base + a.leaves());
                (right.0, Tree::And(a, Box::new(right.1)))
            },
        },
    decreases tree.leaves() - leaf,
{
    let reading = readings[base + leaf];
    let met = tree.leaf(leaf).met(reading);
    let fed = tree.fed(leaf, reading);
    fed_changes_one_leaf(tree, leaf, reading);
    next_is_later(tree, leaf, met);
    match tree {
        Tree::Leaf(_) => {},
        Tree::Or(a, b) | Tree::And(a, b) => {
            leaves_positive(*b);
            if leaf < a.leaves() {
                fed_changes_one_leaf(*a, leaf, reading);
                next_is_later(*a, leaf, met);
            } else {
                fed_changes_one_leaf(*b, leaf - a.leaves(), reading);
                next_is_later(*b, leaf - a.leaves(), met);
            }
            match tree.next(leaf, met) {
                Some(j) => {
                    run_in_node(fed, j, readings, base);
                },
                None => {},
            }
        },
    }
}

/// Going from leaf to leaf as `next` says, from the leftmost leaf on, is
/// short-circuit evaluation: the tick ends with the value of the
/// expression, and the leaves that short circuit skips are never fed.
pub proof fn run_is_short_circuit(tree: Tree, readings: Seq<Reading>, base: int)
    requires
        0 <= base,
        base + tree.leaves() <= readings.len(),
    ensures
        tree.run_at(0, readings, base) == (
            tree.met_at(readings, base),
            tree.after_at(readings, base),
        ),
    decreases tree,
{
    leaves_positive(tree);
    match tree {
        Tree::Leaf(_) => {},
        Tree::Or(a, b) | Tree::And(a, b) => {
            leaves_positive(*a);
            leaves_positive(*b);
            run_in_node(tree, 0, readings, base);
            run_is_short_circuit(*a, readings, base);
            run_is_short_circuit(*b, readings, base + a.leaves());
        },
    }
}

/// A tick changes no leaf but those it evaluates: a leaf that is reached
/// has seen its reading, and a leaf that short circuit skips, at whatever
/// depth, is as it was. The expression keeps its shape.
pub proof fn tick_changes_reached_leaves(tree: Tree, readings: Seq<Reading>, base: int, leaf: int)
    requires
        0 <= leaf < tree.leaves(),
    ensures
        tree.after_at(readings, base).leaves() == tree.leaves(),
        tree.after_at(readings, base).leaf(leaf) == if tree.reaches(readings, base, leaf) {
            tree.leaf(leaf).after(readings[base + leaf])
        } else {
            tree.leaf(leaf)
        },
    decreases tree,
{
    match tree {
        Tree::Leaf(_) => {},
        Tree::Or(a, b) | Tree::And(a, b) => {
            leaves_positive(*a);
            leaves_positive(*b);
            tick_changes_reached_leaves(*a, readings, base, 0);
            tick_changes_reached_leaves(*b, readings, base + a.leaves(), 0);
            if leaf < a.leaves() {
                tick_changes_reached_leaves(*a, readings, base, leaf);
            } else {
                tick_changes_reached_leaves(*b, readings, base + a.leaves(), leaf - a.leaves());
            }
        },
    }
}

/// An `Or` whose left side is met is met, and its right side is not
/// evaluated on that tick: it keeps what it remembers.
pub proof fn or_skips_right(left: Tree, right: Tree, readings: Seq<Reading>)
    requires
        left.met(readings),
    ensures
        Tree::Or(Box::new(left), Box::new(right)).met(readings),
        Tree::Or(Box::new(left), Box::new(right)).after(readings) == Tree::Or(
            Box::new(left.after(readings)),
            Box::new(right),
        ),
{
}

/// An `And` whose left side is not met is not met, and its right side is
/// not evaluated on that tick: it keeps what it remembers.
pub proof fn and_skips_right(left: Tree, right: Tree, readings: Seq<Reading>)
    requires
        !left.met(readings),
    ensures
        !Tree::And(Box::new(left), Box::new(right)).met(readings),
        Tree::And(Box::new(left), Box::new(right)).after(readings) == Tree::And(
            Box::new(left.after(readings)),
            Box::new(right),
        ),
{
}

/// Within a tick, a probe of the right side of an `Or` is asked for only
/// when the left side has ended unmet, and then it is the probe of the
/// right side's first leaf.
pub proof fn or_reaches_right_after_unmet_left(left: Tree, right: Tree, leaf: int, met: bool)
    requires
        0 <= leaf < left.leaves(),
    ensures
        ({
            let next = Tree::Or(Box::new(left), Box::new(right)).next(leaf, met);
            &&& (next matches Some(j) && j >= left.leaves()) <==> (left.next(leaf, met).is_none()
                && !met)
            &&& (next matches Some(j) ==> j >= left.leaves() ==> j == left.leaves())
        }),
{
    next_is_later(left, leaf, met);
}

/// Within a tick, a probe of the right side of an `And` is asked for only
/// when the left side has ended met, and then it is the probe of the right
/// side's first leaf.
pub proof fn and_reaches_right_after_met_left(left: Tree, right: Tree, leaf: int, met: bool)
    requires
        0 <= leaf < left.leaves(),
    ensures
        ({
            let next = Tree::And(Box::new(left), Box::new(right)).next(leaf, met);
            &&& (next matches Some(j) && j >= left.leaves()) <==> (left.next(leaf, met).is_none()
                && met)
            &&& (next matches Some(j) ==> j >= left.leaves() ==> j == left.leaves())
        }),
{
    next_is_later(left, leaf, met);
}

impl View for Waits {
    type V = Tree;

    open spec fn view(&self) -> Tree
        decreases self,
    {
        match self {
            Waits::Single(w) => Tree::Leaf(w@),
            Waits::Or(pair) => Tree::Or(Box::new(pair.0@), Box::new(pair.1@)),
            Waits::And(pair) => Tree::And(Box::new(pair.0@), Box::new(pair.1@)),
        }
    }
}

impl From<Wait> for Waits {
    fn from(wait: Wait) -> (waits: Waits) {
        Waits::Single(wait)
    }
}

impl vstd::std_specs::convert::FromSpecImpl<Wait> for Waits {
    open spec fn obeys_from_spec() -> bool {
        true
    }

    open spec fn from_spec(wait: Wait) -> Waits {
        Waits::Single(wait)
    }
}

impl Waits {
    /// Whether the leaves can be numbered in a `usize`.
    pub open spec fn wf(&self) -> bool {
        self@.leaves() <= usize::MAX
    }

    /// The expression that is one condition.
    pub fn single(wait: Wait) -> (waits: Waits)
        ensures
            waits@ == Tree::Leaf(wait@),
            waits.wf(),
    {
        Waits::Single(wait)
    }

    /// The expression that is met when `self` is met or else `other` is.
    pub fn or(self, other: Waits) -> (waits: Waits)
        requires
            self@.leaves() + other@.leaves() <= usize::MAX,
        ensures
            waits@ == Tree::Or(Box::new(self@), Box::new(other@)),
            waits.wf(),
    {
        Waits::Or(Box::new((self, other)))
    }

    /// The expression that is met when `self` is met and then `other` is.
    pub fn and(self, other: Waits) -> (waits: Waits)
        requires
            self@.leaves() + other@.leaves() <= usize::MAX,
        ensures
            waits@ == Tree::And(Box::new(self@), Box::new(other@)),
            waits.wf(),
    {
        Waits::And(Box::new((self, other)))
    }

    /// How a tick starts: with the probe of the leftmost leaf.
    pub fn begin(&self) -> (step: Step)
        ensures
            step == Step::Probe(0),
    {
        Step::Probe(0)
    }

    /// The number of leaves.
    pub fn leaves(&self) -> (n: usize)
        requires
            self.wf(),
        ensures
            n == self@.leaves(),
            n >= 1,
        decreases self,
    {
        match self {
            Waits::Single(_) => 1,
            Waits::Or(pair) => pair.0.leaves() + pair.1.leaves(),
            Waits::And(pair) => pair.0.leaves() + pair.1.leaves(),
        }
    }

    /// The probe to perform before leaf `leaf` is fed.
    pub fn probe(&self, leaf: usize) -> (probe: Probe<'_>)
        requires
            self.wf(),
            leaf < self@.leaves(),
        ensures
            self@.leaf(leaf as int).asks(probe),
        decreases self,
    {
        match self {
            Waits::Single(w) => w.probe(),
            Waits::Or(pair) | Waits::And(pair) => {
                let left = pair.0.leaves();
                if leaf < left {
                    pair.0.probe(leaf)
                } else {
                    pair.1.probe(leaf - left)
                }
            },
        }
    }

    /// Evaluates leaf `leaf` on what its probe read, and says which leaf is
    /// to be probed next, or how the tick ended.
    pub fn feed(&mut self, leaf: usize, reading: Reading) -> (step: Step)
        requires
            old(self).wf(),
            leaf < old(self)@.leaves(),
        ensures
            final(self)@ == old(self)@.fed(leaf as int, reading),
            final(self)@.leaves() == old(self)@.leaves(),
            match step {
                Step::Probe(j) => leaf < j < old(self)@.leaves() && old(self)@.next(
                    leaf as int,
                    old(self)@.leaf(leaf as int).met(reading),
                ) == Some(j as int),
                Step::Done(met) => met == old(self)@.leaf(leaf as int).met(reading) && old(
                    self,
                )@.next(leaf as int, met).is_none(),
            },
        decreases *old(self),
    {
        proof {
            let met = self@.leaf(leaf as int).met(reading);
            next_is_later(self@, leaf as int, met);
            fed_changes_one_leaf(self@, leaf as int, reading);
        }
        match self {
            Waits::Single(w) => Step::Done(w.condition_met(reading)),
            Waits::Or(pair) => {
                let left = pair.0.leaves();
                if leaf < left {
                    match pair.0.feed(leaf, reading) {
                        Step::Done(false) => Step::Probe(left),
                        step => step,
                    }
                } else {
                    match pair.1.feed(leaf - left, reading) {
                        Step::Probe(j) => Step::Probe(left + j),
                        step => step,
                    }
                }
            },
            Waits::And(pair) => {
                let left = pair.0.leaves();
                if leaf < left {
                    match pair.0.feed(leaf, reading) {
                        Step::Done(true) => Step::Probe(left),
                        step => step,
                    }
                } else {
                    match pair.1.feed(leaf - left, reading) {
                        Step::Probe(j) => Step::Probe(left + j),
                        step => step,
                    }
                }
            },
        }
    }

    /// Evaluates the expression on one tick, given for each leaf what its
    /// probe reads on this tick, with short circuit: a leaf that is not
    /// reached keeps what it remembers.
    pub fn condition_met(&mut self, readings: &Vec<Reading>) -> (met: bool)
        requires
            old(self).wf(),
            readings.len() == old(self)@.leaves(),
        ensures
            met == old(self)@.met(readings@),
            final(self)@ == old(self)@.after(readings@),
    {
        let ghost start = self@;
        let mut leaf: usize = 0;
        proof {
            leaves_positive(start);
        }
        loop
            invariant
                self.wf(),
                start == old(self)@,
                leaf < self@.leaves() == readings.len() == start.leaves(),
                self@.run_at(leaf as int, readings@, 0) == start.run_at(0, readings@, 0),
            decreases readings.len() - leaf,
        {
            match self.feed(leaf, readings[leaf]) {
                Step::Done(met) => {
                    proof {
                        run_is_short_circuit(start, readings@, 0);
                    }
                    return met;
                },
                Step::Probe(j) => {
                    leaf = j;
                },
            }
        }
    }
}

} // verus!
