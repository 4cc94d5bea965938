//! The orchestrator: which downloads may start, which are in flight, how many
//! are complete, and what the aggregate indicator shows.

use vstd::prelude::*;
use crate::failure::Failure;
use crate::progress::ProgressIndicator;

verus! {

/// The state of a run, as contracts see it.
pub struct Schedule {
    /// The source locations, in the order of submission. A task is known by
    /// its index in this list.
    pub locations: Seq<String>,
    /// How many tasks may be in flight at once.
    pub limit: nat,
    /// How many tasks have been started: the tasks from this index on are
    /// pending.
    pub started: nat,
    /// The tasks in flight, in the order in which they started.
    pub active: Seq<usize>,
    /// How many tasks are complete.
    pub completed: nat,
    /// The aggregate indicator: completed tasks out of all tasks.
    pub aggregate: ProgressIndicator,
}

/// One move of a run.
pub enum Move {
    /// Start the next pending task, if the limit allows it.
    Start,
    /// The task with this index came to its end, in success or in failure.
    Complete(usize),
    /// Close the aggregate indicator.
    Finish,
}

/// The label of the aggregate indicator while the run is under way.
pub open spec fn running_label() -> Seq<char> {
    "total  "@
}

/// The label of the aggregate indicator once the run is over.
pub open spec fn done_label() -> Seq<char> {
    "done"@
}

impl Schedule {
    /// The number of tasks.
    pub open spec fn total(self) -> nat {
        self.locations.len()
    }

    /// What holds of every state of a run: no more tasks are in flight than
    /// the limit allows; the tasks in flight are distinct and were started;
    /// every started task is in flight or complete; the aggregate indicator
    /// stands at the number of completed tasks, out of the number of tasks;
    /// and it is finished only when every task is complete.
    pub open spec fn valid(self) -> bool {
        &&& self.limit >= 1
        &&& self.total() <= usize::MAX
        &&& self.started <= self.total()
        &&& self.active.len() <= self.limit
        &&& self.active.no_duplicates()
        &&& forall|i: int| 0 <= i < self.active.len() ==> (#[trigger] self.active[i]) < self.started
        &&& self.completed + self.active.len() == self.started
        &&& self.aggregate.position == self.completed
        &&& self.aggregate.length == self.total()
        &&& self.aggregate.finished ==> self.completed == self.total()
    }

    /// The state in which a run begins: nothing started, the aggregate
    /// indicator at 0 of the number of tasks.
    pub open spec fn initial(locations: Seq<String>, limit: nat, label: String) -> Schedule {
        Schedule {
            locations,
            limit,
            started: 0,
            active: Seq::empty(),
            completed: 0,
            aggregate: ProgressIndicator {
                position: 0,
                length: locations.len() as u64,
                label,
                finished: false,
            },
        }
    }

    /// Whether a task may start: one is pending and the limit is not reached.
    pub open spec fn can_start(self) -> bool {
        self.started < self.total() && self.active.len() < self.limit
    }

    /// Whether nothing is pending and nothing is in flight.
    pub open spec fn idle(self) -> bool {
        self.started == self.total() && self.active.len() == 0
    }

    /// The state after the next pending task has started.
    pub open spec fn begun(self) -> Schedule {
        Schedule {
            started: self.started + 1,
            active: self.active.push(self.started as usize),
            ..self
        }
    }

    /// The state after `task` came to its end: where it was in flight it is
    /// so no longer and the aggregate indicator has advanced by one; else
    /// nothing has changed.
    pub open spec fn concluded(self, task: usize) -> Schedule {
        if self.active.contains(task) {
            Schedule {
                active: self.active.remove(self.active.index_of(task)),
                completed: self.completed + 1,
                aggregate: self.aggregate.advanced(1),
                ..self
            }
        } else {
            self
        }
    }

    /// The state after the aggregate indicator was closed under `label`:
    /// nothing changes while tasks are pending or in flight.
    pub open spec fn closed(self, label: String) -> Schedule {
        if self.idle() {
            Schedule {
                aggregate: ProgressIndicator { label, ..self.aggregate.completed() },
                ..self
            }
        } else {
            self
        }
    }

    /// The state after one move. A start that the limit forbids changes
    /// nothing.
    pub open spec fn after(self, m: Move, label: String) -> Schedule {
        match m {
            Move::Start => if self.can_start() {
                self.begun()
            } else {
                self
            },
            Move::Complete(task) => self.concluded(task),
            Move::Finish => self.closed(label),
        }
    }

    /// The state after a run of moves.
    pub open spec fn after_all(self, moves: Seq<Move>, label: String) -> Schedule
        decreases moves.len(),
    {
        if moves.len() == 0 {
            self
        } else {
            self.after_all(moves.drop_last(), label).after(moves.last(), label)
        }
    }
}

/// Taking one item out of a list without repetitions leaves a list without
/// repetitions that holds the other items and not the one taken out.
pub proof fn lemma_remove_distinct(s: Seq<usize>, i: int)
    requires
        s.no_duplicates(),
        0 <= i < s.len(),
    ensures
        s.index_of(s[i]) == i,
        s.remove(i).len() == s.len() - 1,
        s.remove(i).no_duplicates(),
        !s.remove(i).contains(s[i]),
        forall|j: int| 0 <= j < s.len() - 1 ==> s.contains(#[trigger] s.remove(i)[j]),
{
    let r = s.remove(i);
    assert(s.contains(s[i]));
    assert forall|j: int| 0 <= j < r.len() implies r[j] == (if j < i {
        s[j]
    } else {
        s[j + 1]
    }) by {}
    assert forall|a: int, b: int| 0 <= a < r.len() && 0 <= b < r.len() && a != b implies r[a]
        != r[b] by {
        let a2 = if a < i { a } else { a + 1 };
        let b2 = if b < i { b } else { b + 1 };
        assert(r[a] == s[a2] && r[b] == s[b2]);
    }
    assert forall|j: int| 0 <= j < s.len() - 1 implies s.contains(#[trigger] r[j]) by {
        let j2 = if j < i { j } else { j + 1 };
        assert(r[j] == s[j2]);
    }
    if r.contains(s[i]) {
        let j = choose|j: int| 0 <= j < r.len() && r[j] == s[i];
        let j2 = if j < i { j } else { j + 1 };
        assert(r[j] == s[j2]);
    }
}

/// Every move keeps a valid state valid.
pub proof fn lemma_move_keeps_valid(s: Schedule, m: Move, label: String)
    requires
        s.valid(),
    ensures
        s.after(m, label).valid(),
{
    match m {
        Move::Start => {
            if s.can_start() {
                let t = s.begun();
                assert forall|i: int| 0 <= i < t.active.len() implies (#[trigger] t.active[i])
                    < t.started by {
                    if i < s.active.len() {
                        assert(t.active[i] == s.active[i]);
                    }
                }
                assert forall|a: int, b: int|
                    0 <= a < t.active.len() && 0 <= b < t.active.len() && a != b implies t.active[a]
                    != t.active[b] by {
                    if a < s.active.len() {
                        assert(t.active[a] == s.active[a]);
                    }
                    if b < s.active.len() {
                        assert(t.active[b] == s.active[b]);
                    }
                }
            }
        },
        Move::Complete(task) => {
            if s.active.contains(task) {
                let i = s.active.index_of(task);
                lemma_remove_distinct(s.active, i);
                let t = s.concluded(task);
                assert forall|j: int| 0 <= j < t.active.len() implies (#[trigger] t.active[j])
                    < t.started by {
                    assert(s.active.contains(t.active[j]));
                }
            }
        },
        Move::Finish => {},
    }
}

/// Every state that a run passes through is valid, whatever moves are made in
/// whatever order: in particular, at no point are more tasks in flight than
/// the limit allows, and the aggregate indicator never stands beyond the
/// number of tasks.
pub proof fn lemma_run_stays_valid(
    locations: Seq<String>,
    limit: nat,
    label: String,
    moves: Seq<Move>,
    closing: String,
)
    requires
        limit >= 1,
        locations.len() <= usize::MAX,
    ensures
        Schedule::initial(locations, limit, label).after_all(moves, closing).valid(),
        Schedule::initial(locations, limit, label).after_all(moves, closing).locations
            == locations,
        Schedule::initial(locations, limit, label).after_all(moves, closing).limit == limit,
        Schedule::initial(locations, limit, label).after_all(moves, closing).active.len() <= limit,
        Schedule::initial(locations, limit, label).after_all(moves, closing).aggregate.position
            <= locations.len(),
    decreases moves.len(),
{
    let start = Schedule::initial(locations, limit, label);
    if moves.len() > 0 {
        lemma_run_stays_valid(locations, limit, label, moves.drop_last(), closing);
        lemma_move_keeps_valid(start.after_all(moves.drop_last(), closing), moves.last(), closing);
    }
}

/// When nothing is pending and nothing is in flight, as many tasks are
/// complete as locations were submitted, and the aggregate indicator stands at
/// that number, before and after it is closed.
pub proof fn lemma_idle_means_complete(s: Schedule, closing: String)
    requires
        s.valid(),
        s.idle(),
    ensures
        s.completed == s.locations.len(),
        s.aggregate.position == s.locations.len(),
        s.closed(closing).aggregate.position == s.locations.len(),
        s.closed(closing).aggregate.length == s.locations.len(),
        s.closed(closing).aggregate.finished,
        s.closed(closing).aggregate.label == closing,
{
}

/// A run that has come to rest has completed every submitted task: however
/// the moves were ordered, once nothing is pending or in flight the count of
/// completed tasks and the position of the aggregate indicator both equal the
/// number of locations.
pub proof fn lemma_finished_run_counts_all(
    locations: Seq<String>,
    limit: nat,
    label: String,
    moves: Seq<Move>,
    closing: String,
)
    requires
        limit >= 1,
        locations.len() <= usize::MAX,
        Schedule::initial(locations, limit, label).after_all(moves, closing).idle(),
    ensures
        Schedule::initial(locations, limit, label).after_all(moves, closing).completed
            == locations.len(),
        Schedule::initial(locations, limit, label).after_all(moves, closing).aggregate.position
            == locations.len(),
{
    lemma_run_stays_valid(locations, limit, label, moves, closing);
}

/// A run that is not at rest can go on: a task is in flight and may come to
/// its end, or the next pending task may start.
pub proof fn lemma_run_can_go_on(s: Schedule)
    requires
        s.valid(),
        !s.idle(),
    ensures
        s.active.len() > 0 || s.can_start(),
{
}

/// The end of one task, in success or in failure, leaves every other task in
/// flight where it was.
pub proof fn lemma_siblings_stay(s: Schedule, task: usize, other: usize)
    requires
        s.valid(),
        other != task,
        s.active.contains(other),
    ensures
        s.concluded(task).active.contains(other),
{
    if s.active.contains(task) {
        let i = s.active.index_of(task);
        let k = s.active.index_of(other);
        let r = s.active.remove(i);
        let k2 = if k < i { k } else { k - 1 };
        assert(r[k2] == other);
    }
}

/// A task is counted once: after it came to its end, a second report of its
/// end changes nothing.
pub proof fn lemma_counted_once(s: Schedule, task: usize)
    requires
        s.valid(),
    ensures
        s.concluded(task).concluded(task) == s.concluded(task),
        s.concluded(task).completed <= s.completed + 1,
{
    if s.active.contains(task) {
        lemma_remove_distinct(s.active, s.active.index_of(task));
    }
}

/// The orchestrator of a run: it owns the list of locations, starts tasks up
/// to the concurrency limit, counts the completed ones and keeps the aggregate
/// indicator.
pub struct Orchestrator {
    locations: Vec<String>,
    limit: usize,
    started: usize,
    active: Vec<usize>,
    completed: usize,
    aggregate: ProgressIndicator,
}

impl View for Orchestrator {
    type V = Schedule;

    closed spec fn view(&self) -> Schedule {
        Schedule {
            locations: self.locations@,
            limit: self.limit as nat,
            started: self.started as nat,
            active: self.active@,
            completed: self.completed as nat,
            aggregate: self.aggregate,
        }
    }
}

impl Orchestrator {
    /// Whether the orchestrator is in a valid state.
    pub open spec fn wf(&self) -> bool {
        self@.valid()
    }

    /// An orchestrator for `locations` that lets `limit` tasks run at once.
    pub fn new(locations: Vec<String>, limit: usize) -> (o: Orchestrator)
        requires
            limit >= 1,
        ensures
            o.wf(),
            o@ == Schedule::initial(locations@, limit as nat, o@.aggregate.label),
            o@.locations == locations@,
            o@.limit == limit,
            o@.started == 0,
            o@.active.len() == 0,
            o@.completed == 0,
            o@.aggregate.position == 0,
            o@.aggregate.length == locations@.len(),
            o@.aggregate.label@ == running_label(),
            !o@.aggregate.finished,
    {
        let total: usize = locations.len();
        let aggregate = ProgressIndicator::new(total as u64, "total  ".to_owned());
        Orchestrator { locations, limit, started: 0, active: Vec::new(), completed: 0, aggregate }
    }

    /// Starts the next pending task where the limit allows it, and gives its
    /// index; `None`, with nothing changed, where no task is pending or the
    /// limit is reached.
    pub fn start_next(&mut self) -> (task: Option<usize>)
        requires
            old(self).wf(),
        ensures
            final(self).wf(),
            match task {
                Some(index) => {
                    &&& old(self)@.can_start()
                    &&& index == old(self)@.started
                    &&& final(self)@ == old(self)@.begun()
                    &&& final(self)@.active.contains(index)
                },
                None => !old(self)@.can_start() && final(self)@ == old(self)@,
            },
    {
        if self.started < self.locations.len() && self.active.len() < self.limit {
            proof {
                lemma_move_keeps_valid(self@, Move::Start, self.aggregate.label);
            }
            let index: usize = self.started;
            self.active.push(index);
            self.started = index + 1;
            assert(self.active@[self.active@.len() - 1] == index);
            Some(index)
        } else {
            None
        }
    }

    /// Records that `task` came to its end. Whether it succeeded or failed
    /// makes no difference: the task leaves the tasks in flight and the
    /// aggregate indicator advances by one. It returns `false`, with nothing
    /// changed, where `task` was not in flight.
    pub fn complete(&mut self, task: usize) -> (known: bool)
        requires
            old(self).wf(),
        ensures
            final(self).wf(),
            known == old(self)@.active.contains(task),
            final(self)@ == old(self)@.concluded(task),
    {
        let mut i: usize = 0;
        while i < self.active.len()
            invariant
                *self == *old(self),
                self.wf(),
                0 <= i <= self.active.len(),
                forall|j: int| 0 <= j < i ==> self.active@[j] != task,
            decreases self.active.len() - i,
        {
            if self.active[i] == task {
                proof {
                    lemma_remove_distinct(self.active@, i as int);
                    lemma_move_keeps_valid(self@, Move::Complete(task), self.aggregate.label);
                }
                self.active.remove(i);
                self.completed = self.completed + 1;
                self.aggregate.inc(1);
                return true;
            }
            i = i + 1;
        }
        false
    }

    /// Whether nothing is pending and nothing is in flight.
    pub fn is_idle(&self) -> (idle: bool)
        ensures
            idle == self@.idle(),
    {
        self.started == self.locations.len() && self.active.len() == 0
    }

    /// Closes the aggregate indicator once every task is complete: it is
    /// then finished, at its full length, under the label for a run that is
    /// over. It returns `false`, with nothing changed, while tasks are pending
    /// or in flight.
    pub fn finish(&mut self) -> (closed: bool)
        requires
            old(self).wf(),
        ensures
            final(self).wf(),
            closed == old(self)@.idle(),
            final(self)@ == old(self)@.closed(final(self)@.aggregate.label),
            closed ==> final(self)@.aggregate.label@ == done_label(),
    {
        if self.is_idle() {
            self.aggregate.finish_with_label("done".to_owned());
            true
        } else {
            false
        }
    }

    /// The location of `task`, where there is such a task.
    pub fn location(&self, task: usize) -> (r: Option<&String>)
        ensures
            match r {
                Some(text) => task < self@.total() && *text == self@.locations[task as int],
                None => task >= self@.total(),
            },
    {
        if task < self.locations.len() {
            Some(&self.locations[task])
        } else {
            None
        }
    }

    /// The number of tasks.
    pub fn total(&self) -> (n: usize)
        ensures
            n == self@.total(),
    {
        self.locations.len()
    }

    /// How many tasks may be in flight at once.
    pub fn limit(&self) -> (n: usize)
        ensures
            n == self@.limit,
    {
        self.limit
    }

    /// How many tasks are in flight.
    pub fn active_count(&self) -> (n: usize)
        ensures
            n == self@.active.len(),
    {
        self.active.len()
    }

    /// How many tasks are complete.
    pub fn completed(&self) -> (n: usize)
        ensures
            n == self@.completed,
    {
        self.completed
    }

    /// The aggregate indicator.
    pub fn aggregate(&self) -> (p: &ProgressIndicator)
        ensures
            *p == self@.aggregate,
    {
        &self.aggregate
    }
}

/// The result of a run, from the result of the set of tasks and that of the
/// render loop: the tasks' error where they failed, else the render loop's
/// where it failed, else success.
pub open spec fn spec_join(tasks: Result<(), Failure>, render: Result<(), Failure>) -> Result<
    (),
    Failure,
> {
    match tasks {
        Err(failure) => Err(failure),
        Ok(_) => render,
    }
}

/// Joins the result of the set of tasks with that of the render loop.
pub fn join(tasks: Result<(), Failure>, render: Result<(), Failure>) -> (r: Result<(), Failure>)
    ensures
        r == spec_join(tasks, render),
{
    match tasks {
        Err(failure) => Err(failure),
        Ok(_) => render,
    }
}

} // verus!
