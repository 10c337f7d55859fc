//! The bounded dispatcher as a state machine.
//!
//! A batch of items is launched in the order in which it was submitted, never
//! with more operations in flight than the cap allows. Each operation ends with
//! one line for its item; the lines are kept in the order in which the operations
//! ended, which need not be the order of submission. The dispatcher decides; its
//! caller starts the operations and reports how each one ended.

use crate::text::views;
use vstd::prelude::*;
use vstd::set_lib::{lemma_int_range, lemma_len_subset, lemma_subset_equality, set_int_range};

verus! {

/// The cap that every batch runs under unless it is given another.
pub const DEFAULT_LIMIT: usize = 10;

/// What the caller of a dispatcher does next.
#[derive(Clone, Copy, Debug, PartialEq, Eq, Structural)]
pub enum Step {
    /// Start the operation of the item with this index.
    Launch(usize),
    /// Nothing can start now: wait for an operation in flight to end.
    Wait,
    /// Every item has its line.
    Finished,
}

/// A dispatcher as mathematical values.
pub struct DispatchView {
    /// How many items were submitted.
    pub total: nat,
    /// The configured cap; 0 means that there is none.
    pub limit: nat,
    /// How many items have been launched: those with an index below this.
    pub launched: nat,
    /// The indices of the items whose operation has ended, in the order of ending.
    pub completed: Seq<int>,
    /// The line of each of them, in the same order.
    pub lines: Seq<Seq<char>>,
}

/// What can happen to a dispatcher.
pub enum Event {
    /// The caller asks for the next step.
    Poll,
    /// The operation of `item` ended with `line`.
    Complete { item: int, line: Seq<char> },
}

/// The most operations that may be in flight at once.
pub open spec fn cap(v: DispatchView) -> nat {
    if v.limit == 0 {
        v.total
    } else {
        v.limit
    }
}

/// The number of operations in flight: launched and not yet ended.
pub open spec fn in_flight(v: DispatchView) -> int {
    v.launched - v.completed.len()
}

/// Whether the operation of `item` is in flight.
pub open spec fn is_running(v: DispatchView, item: int) -> bool {
    0 <= item < v.launched && !v.completed.contains(item)
}

/// Whether another item may be launched now.
pub open spec fn can_launch(v: DispatchView) -> bool {
    v.launched < v.total && in_flight(v) < cap(v)
}

/// The step that a dispatcher in state `v` asks for.
pub open spec fn step_of(v: DispatchView) -> Step {
    if can_launch(v) {
        Step::Launch(v.launched as usize)
    } else if in_flight(v) > 0 {
        Step::Wait
    } else {
        Step::Finished
    }
}

/// The state after the caller was told the step: a launched item counts as in
/// flight from then on.
pub open spec fn after_poll(v: DispatchView) -> DispatchView {
    if can_launch(v) {
        DispatchView { launched: v.launched + 1, ..v }
    } else {
        v
    }
}

/// The state after the operation of `item` was reported to have ended with
/// `line`: the line is recorded where the item was in flight, and the report is
/// ignored where it was not.
pub open spec fn after_complete(v: DispatchView, item: int, line: Seq<char>) -> DispatchView {
    if is_running(v, item) {
        DispatchView { completed: v.completed.push(item), lines: v.lines.push(line), ..v }
    } else {
        v
    }
}

/// The state of a dispatcher that has launched nothing yet.
pub open spec fn initial(total: nat, limit: nat) -> DispatchView {
    DispatchView { total, limit, launched: 0, completed: Seq::empty(), lines: Seq::empty() }
}

/// The state after one event.
pub open spec fn apply(v: DispatchView, e: Event) -> DispatchView {
    match e {
        Event::Poll => after_poll(v),
        Event::Complete { item, line } => after_complete(v, item, line),
    }
}

/// The state after the events of `events`, in order.
pub open spec fn run(v: DispatchView, events: Seq<Event>) -> DispatchView
    decreases events.len(),
{
    if events.len() == 0 {
        v
    } else {
        apply(run(v, events.drop_last()), events.last())
    }
}

/// The invariant of a dispatcher: no item has ended twice or before it was
/// launched, each ended item has its line, and no more operations are in flight
/// than the cap allows.
pub open spec fn valid(v: DispatchView) -> bool {
    &&& v.launched <= v.total
    &&& v.completed.no_duplicates()
    &&& forall|j: int| 0 <= j < v.completed.len() ==> 0 <= #[trigger] v.completed[j] < v.launched
    &&& v.lines.len() == v.completed.len()
    &&& in_flight(v) <= cap(v)
}

/// In a valid state the items that have ended and, where there is one, an item
/// in flight are all different launched items, so they are at most as many as
/// were launched.
pub proof fn lemma_completed_within_launched(v: DispatchView)
    requires
        valid(v),
    ensures
        v.completed.len() <= v.launched,
        forall|item: int| is_running(v, item) ==> v.completed.len() < v.launched,
{
    let ended = v.completed.to_set();
    let all = set_int_range(0, v.launched as int);
    v.completed.unique_seq_to_set();
    lemma_int_range(0, v.launched as int);
    assert(ended.subset_of(all)) by {
        assert forall|i: int| ended.contains(i) implies all.contains(i) by {
            let j = choose|j: int| 0 <= j < v.completed.len() && v.completed[j] == i;
            assert(0 <= v.completed[j] < v.launched);
        }
    }
    lemma_len_subset(ended, all);
    assert forall|item: int| is_running(v, item) implies v.completed.len() < v.launched by {
        let others = all.remove(item);
        assert(ended.subset_of(others));
        lemma_len_subset(ended, others);
    }
}

/// The first state of a dispatcher is valid.
pub proof fn lemma_initial_valid(total: nat, limit: nat)
    ensures
        valid(initial(total, limit)),
        in_flight(initial(total, limit)) == 0,
{
}

/// Every event takes a valid state to a valid state, and changes neither the
/// number of items nor the cap.
pub proof fn lemma_apply_valid(v: DispatchView, e: Event)
    requires
        valid(v),
    ensures
        valid(apply(v, e)),
        apply(v, e).total == v.total,
        apply(v, e).limit == v.limit,
{
    let w = apply(v, e);
    lemma_completed_within_launched(v);
    match e {
        Event::Poll => {
            assert forall|j: int| 0 <= j < w.completed.len() implies 0 <= #[trigger] w.completed[j]
                < w.launched by {
                assert(0 <= v.completed[j] < v.launched);
            }
        },
        Event::Complete { item, line } => {
            if is_running(v, item) {
                assert forall|i: int, j: int|
                    0 <= i < w.completed.len() && 0 <= j < w.completed.len() && i != j implies w.completed[i]
                    != w.completed[j] by {
                    if i < v.completed.len() && j < v.completed.len() {
                        assert(v.completed[i] != v.completed[j]);
                    } else if i < v.completed.len() {
                        assert(v.completed.contains(v.completed[i]));
                    } else {
                        assert(v.completed.contains(v.completed[j]));
                    }
                }
                assert forall|j: int| 0 <= j < w.completed.len() implies 0 <= #[trigger] w.completed[j]
                    < w.launched by {
                    if j < v.completed.len() {
                        assert(0 <= v.completed[j] < v.launched);
                    }
                }
            }
        },
    }
}

/// Whatever happens to a dispatcher, in whatever order, the number of operations
/// in flight never goes above the cap: above `limit` where that is not 0, and
/// above the number of items in any case.
pub proof fn lemma_never_above_cap(total: nat, limit: nat, events: Seq<Event>)
    ensures
        valid(run(initial(total, limit), events)),
        run(initial(total, limit), events).total == total,
        run(initial(total, limit), events).limit == limit,
        0 <= in_flight(run(initial(total, limit), events)) <= total,
        limit > 0 ==> in_flight(run(initial(total, limit), events)) <= limit,
    decreases events.len(),
{
    if events.len() > 0 {
        lemma_never_above_cap(total, limit, events.drop_last());
        lemma_apply_valid(run(initial(total, limit), events.drop_last()), events.last());
    }
    lemma_completed_within_launched(run(initial(total, limit), events));
}

/// A dispatcher is finished exactly when every submitted item has its line, and
/// it asks its caller to wait only while an operation is in flight.
pub proof fn lemma_finished_iff_all_ended(v: DispatchView)
    requires
        valid(v),
    ensures
        step_of(v) == Step::Finished <==> v.completed.len() == v.total,
        step_of(v) == Step::Wait ==> in_flight(v) > 0,
        step_of(v) is Launch ==> in_flight(after_poll(v)) == in_flight(v) + 1,
{
    lemma_completed_within_launched(v);
}

/// When a dispatcher is finished there are exactly as many lines as items were
/// submitted, and every item is recorded in exactly one of them.
pub proof fn lemma_finished_one_line_each(v: DispatchView)
    requires
        valid(v),
        step_of(v) == Step::Finished,
    ensures
        v.lines.len() == v.total,
        v.completed.len() == v.total,
        forall|item: int| 0 <= item < v.total ==> v.completed.contains(item),
        forall|i: int, j: int|
            0 <= i < v.completed.len() && 0 <= j < v.completed.len() && v.completed[i]
                == v.completed[j] ==> i == j,
{
    lemma_finished_iff_all_ended(v);
    let ended = v.completed.to_set();
    let all = set_int_range(0, v.total as int);
    v.completed.unique_seq_to_set();
    lemma_int_range(0, v.total as int);
    lemma_completed_within_launched(v);
    assert(ended.subset_of(all)) by {
        assert forall|i: int| ended.contains(i) implies all.contains(i) by {
            let j = choose|j: int| 0 <= j < v.completed.len() && v.completed[j] == i;
            assert(0 <= v.completed[j] < v.launched);
        }
    }
    lemma_len_subset(ended, all);
    lemma_subset_equality(ended, all);
    assert forall|item: int| 0 <= item < v.total implies v.completed.contains(item) by {
        assert(all.contains(item));
        assert(ended.contains(item));
    }
}

/// One report adds one line for an item in flight, and none otherwise: no line
/// is lost, and no two reports share a line.
pub proof fn lemma_one_line_per_report(v: DispatchView, item: int, line: Seq<char>)
    requires
        valid(v),
    ensures
        is_running(v, item) ==> after_complete(v, item, line).lines == v.lines.push(line),
        is_running(v, item) ==> in_flight(after_complete(v, item, line)) == in_flight(v) - 1,
        !is_running(v, item) ==> after_complete(v, item, line) == v,
        forall|other: int|
            other != item ==> (is_running(after_complete(v, item, line), other) <==> is_running(
                v,
                other,
            )),
{
    let w = after_complete(v, item, line);
    if is_running(v, item) {
        assert forall|other: int| other != item implies (is_running(w, other) <==> is_running(
            v,
            other,
        )) by {
            if v.completed.contains(other) {
                let j = choose|j: int| 0 <= j < v.completed.len() && v.completed[j] == other;
                assert(w.completed[j] == other);
            }
            if w.completed.contains(other) {
                let j = choose|j: int| 0 <= j < w.completed.len() && w.completed[j] == other;
                assert(v.completed[j] == other);
            }
        }
    }
}

/// However a batch was run, once its dispatcher is finished there is one line
/// for each item submitted: none is missing, whatever the operations reported.
pub proof fn lemma_finished_batch_has_every_line(total: nat, limit: nat, events: Seq<Event>)
    requires
        step_of(run(initial(total, limit), events)) == Step::Finished,
    ensures
        run(initial(total, limit), events).lines.len() == total,
        run(initial(total, limit), events).completed.no_duplicates(),
        forall|item: int|
            0 <= item < total ==> run(initial(total, limit), events).completed.contains(item),
{
    lemma_never_above_cap(total, limit, events);
    lemma_finished_one_line_each(run(initial(total, limit), events));
}

/// Every line that a dispatcher holds is the line that was reported for the item
/// it is recorded for: no line is made up, and none is put together from others.
pub proof fn lemma_lines_are_reports(total: nat, limit: nat, events: Seq<Event>, j: int)
    requires
        0 <= j < run(initial(total, limit), events).lines.len(),
    ensures
        j < run(initial(total, limit), events).completed.len(),
        exists|e: int|
            0 <= e < events.len() && events[e] == (Event::Complete {
                item: run(initial(total, limit), events).completed[j],
                line: run(initial(total, limit), events).lines[j],
            }),
    decreases events.len(),
{
    lemma_never_above_cap(total, limit, events);
    if events.len() > 0 {
        let before = run(initial(total, limit), events.drop_last());
        let after = run(initial(total, limit), events);
        let last = events.len() - 1;
        lemma_never_above_cap(total, limit, events.drop_last());
        if j < before.lines.len() {
            lemma_lines_are_reports(total, limit, events.drop_last(), j);
            let e = choose|e: int|
                0 <= e < events.drop_last().len() && events.drop_last()[e] == (Event::Complete {
                    item: before.completed[j],
                    line: before.lines[j],
                });
            assert(events[e] == events.drop_last()[e]);
            assert(after.completed[j] == before.completed[j]);
            assert(after.lines[j] == before.lines[j]);
        } else {
            assert(events[last] == (Event::Complete {
                item: after.completed[j],
                line: after.lines[j],
            }));
        }
    }
}

/// The bounded dispatcher of one batch.
pub struct Dispatcher {
    total: usize,
    limit: usize,
    launched: usize,
    ended: Vec<bool>,
    order: Vec<usize>,
    lines: Vec<String>,
}

impl View for Dispatcher {
    type V = DispatchView;

    closed spec fn view(&self) -> DispatchView {
        DispatchView {
            total: self.total as nat,
            limit: self.limit as nat,
            launched: self.launched as nat,
            completed: Seq::new(self.order@.len(), |j: int| self.order@[j] as int),
            lines: views(self.lines@),
        }
    }
}

impl Dispatcher {
    /// The invariant of the dispatcher: its state is valid.
    pub closed spec fn wf(&self) -> bool {
        &&& valid(self@)
        &&& self.ended@.len() == self.total
        &&& forall|i: int|
            0 <= i < self.total ==> (#[trigger] self.ended@[i] <==> self@.completed.contains(i))
    }

    /// A well-formed dispatcher is in a valid state.
    pub proof fn lemma_wf_valid(&self)
        requires
            self.wf(),
        ensures
            valid(self@),
    {
    }

    /// A dispatcher for `total` items under the cap `limit`; a `limit` of 0 sets
    /// no cap.
    pub fn new(total: usize, limit: usize) -> (r: Dispatcher)
        ensures
            r.wf(),
            r@ == initial(total as nat, limit as nat),
    {
        let mut ended: Vec<bool> = Vec::new();
        let mut i: usize = 0;
        while i < total
            invariant
                0 <= i <= total,
                ended@.len() == i,
                forall|k: int| 0 <= k < i ==> !ended@[k],
            decreases total - i,
        {
            ended.push(false);
            i = i + 1;
        }
        let r = Dispatcher { total, limit, launched: 0, ended, order: Vec::new(), lines: Vec::new() };
        assert(r@.completed =~= Seq::empty());
        assert(r@.lines =~= Seq::empty());
        r
    }

    /// A dispatcher for `total` items under the usual cap.
    pub fn with_default_limit(total: usize) -> (r: Dispatcher)
        ensures
            r.wf(),
            r@ == initial(total as nat, DEFAULT_LIMIT as nat),
    {
        Dispatcher::new(total, DEFAULT_LIMIT)
    }

    /// The number of items submitted.
    pub fn total(&self) -> (r: usize)
        ensures
            r == self@.total,
    {
        self.total
    }

    /// The configured cap; 0 means that there is none.
    pub fn limit(&self) -> (r: usize)
        ensures
            r == self@.limit,
    {
        self.limit
    }

    /// The number of items launched so far.
    pub fn launched(&self) -> (r: usize)
        ensures
            r == self@.launched,
    {
        self.launched
    }

    /// The number of operations in flight.
    pub fn in_flight(&self) -> (r: usize)
        requires
            self.wf(),
        ensures
            r == in_flight(self@),
            r <= cap(self@),
    {
        proof {
            lemma_completed_within_launched(self@);
        }
        self.launched - self.order.len()
    }

    /// Whether every item has its line.
    pub fn is_finished(&self) -> (r: bool)
        requires
            self.wf(),
        ensures
            r == (step_of(self@) == Step::Finished),
            r == (self@.lines.len() == self@.total),
    {
        proof {
            lemma_finished_iff_all_ended(self@);
        }
        self.order.len() == self.total
    }

    /// The indices of the items whose operation has ended, in the order of
    /// ending.
    pub fn completed(&self) -> (r: &Vec<usize>)
        ensures
            r@.len() == self@.completed.len(),
            forall|j: int| 0 <= j < r@.len() ==> r@[j] as int == self@.completed[j],
    {
        &self.order
    }

    /// The lines recorded so far, in the order in which the operations ended.
    pub fn lines(&self) -> (r: &Vec<String>)
        ensures
            views(r@) == self@.lines,
    {
        &self.lines
    }

    /// Says what the caller does next, and counts an item that it is told to
    /// launch as in flight.
    pub fn poll(&mut self) -> (r: Step)
        requires
            old(self).wf(),
        ensures
            final(self).wf(),
            r == step_of(old(self)@),
            final(self)@ == after_poll(old(self)@),
    {
        proof {
            lemma_completed_within_launched(self@);
            lemma_apply_valid(self@, Event::Poll);
        }
        let running: usize = self.launched - self.order.len();
        let room: bool = self.limit == 0 || running < self.limit;
        if self.launched < self.total && room {
            let item: usize = self.launched;
            self.launched = item + 1;
            assert(self@.completed =~= old(self)@.completed);
            Step::Launch(item)
        } else if running > 0 {
            Step::Wait
        } else {
            Step::Finished
        }
    }

    /// Reports that the operation of `item` ended with `line`. Returns whether
    /// the item was in flight; a report for any other item changes nothing.
    pub fn complete(&mut self, item: usize, line: String) -> (r: bool)
        requires
            old(self).wf(),
        ensures
            final(self).wf(),
            r == is_running(old(self)@, item as int),
            final(self)@ == after_complete(old(self)@, item as int, line@),
    {
        if item >= self.launched || self.ended[item] {
            return false;
        }
        proof {
            lemma_apply_valid(self@, Event::Complete { item: item as int, line: line@ });
        }
        self.ended.set(item, true);
        self.order.push(item);
        self.lines.push(line);
        proof {
            let before = old(self)@;
            let after = after_complete(before, item as int, line@);
            assert(self@.completed =~= after.completed);
            assert(self@.lines =~= after.lines);
            assert forall|i: int| 0 <= i < self.total implies (#[trigger] self.ended@[i]
                <==> self@.completed.contains(i)) by {
                if i == item {
                    assert(self@.completed[before.completed.len() as int] == i);
                } else {
                    assert(self.ended@[i] == old(self).ended@[i]);
                    if before.completed.contains(i) {
                        let j = choose|j: int| 0 <= j < before.completed.len() && before.completed[j] == i;
                        assert(self@.completed[j] == i);
                    }
                    if self@.completed.contains(i) {
                        let j = choose|j: int| 0 <= j < self@.completed.len() && self@.completed[j] == i;
                        assert(before.completed[j] == i);
                    }
                }
            }
        }
        true
    }
}

} // verus!
