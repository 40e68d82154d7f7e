//! The scheduler: a queue of pending tasks, and the rules by which the queue
//! is filled and worked on.

use crate::queue::{StorageError, VecStructure};
use crate::task::{AsyncTask, SyncTask, Task};
use std::marker::PhantomData;
use vstd::prelude::*;

verus! {

/// The queue that `queue` becomes when `task` is stored at its tail: one
/// longer where there is a task, the same where there is none.
pub open spec fn appended<T>(queue: Seq<T>, task: Option<T>) -> Seq<T> {
    match task {
        Some(task) => queue.push(task),
        None => queue,
    }
}

/// What a store that stands as `store` keeps of `task`: the task, where there
/// is one and the store takes it, and nothing otherwise.
pub open spec fn kept<T, Q: VecStructure<T>>(store: Q, task: Option<T>) -> Option<T> {
    match task {
        Some(item) => if store.accepts(item) {
            task
        } else {
            None
        },
        None => None,
    }
}

/// The queue that `queue` becomes when each of `tasks` is stored at its tail,
/// the first of them first.
pub open spec fn pushed_all<T>(queue: Seq<T>, tasks: Seq<T>) -> Seq<T>
    decreases tasks.len(),
{
    if tasks.len() == 0 {
        queue
    } else {
        pushed_all(appended(queue, Some(tasks.first())), tasks.drop_first())
    }
}

/// The queue that `queue` becomes after `turns` turns in each of which the
/// unit that ran yielded no continuation.
pub open spec fn turns_without_continuation<T>(queue: Seq<T>, turns: nat) -> Seq<T>
    decreases turns,
{
    if turns == 0 {
        queue
    } else {
        turns_without_continuation(appended(queue, None), (turns - 1) as nat)
    }
}

/// Whether `after` is a queue that one turn on `before` may leave behind.
///
/// A turn takes nothing out. It adds what the unit at the front yields, if
/// the unit yields anything and the store takes it.
pub open spec fn one_turn<T>(before: Seq<T>, after: Seq<T>) -> bool {
    exists|next: Option<T>| after == #[trigger] appended(before, next)
}

/// Whether `after` is a queue that `count` turns, one after the other, may
/// make of `before`.
pub open spec fn turns<T>(before: Seq<T>, after: Seq<T>, count: nat) -> bool
    decreases count,
{
    if count == 0 {
        after == before
    } else {
        exists|between: Seq<T>| #[trigger]
            one_turn(before, between) && turns(between, after, (count - 1) as nat)
    }
}

/// What one look at the front of the queue came to.
#[derive(Debug, PartialEq, Eq)]
pub enum Turn<A> {
    /// The front slot was vacant: there is nothing to work on.
    Idle,
    /// The task at the front was synchronous and has run to completion.
    Ran,
    /// The task at the front was asynchronous. Its unit is handed out, to be
    /// started by the host's runtime apart from the caller. The scheduler
    /// neither starts the unit nor waits for it.
    Detach(A),
}

/// What a turn on `queue` comes to. It goes by the task in the front slot,
/// and by no other.
pub open spec fn turn_on<S, A>(queue: Seq<Task<S, A>>) -> Turn<A> {
    if queue.len() == 0 {
        Turn::Idle
    } else {
        match queue[0] {
            Task::Sync(_) => Turn::Ran,
            Task::Async(unit) => Turn::Detach(unit),
        }
    }
}

/// A queue of pending tasks.
///
/// The view of a scheduler is its queue, oldest task first. Tasks enter at the
/// tail and are looked for at the front.
pub struct Scheduler<S, A, Q> {
    pending_tasks: Q,
    units: PhantomData<(S, A)>,
}

impl<S, A, Q> Scheduler<S, A, Q> where
    S: SyncTask<Async = A>,
    A: AsyncTask<Sync = S>,
    Q: VecStructure<Task<S, A>>,
 {
    /// The store that holds the pending tasks.
    pub closed spec fn store(&self) -> Q {
        self.pending_tasks
    }

    /// The pending tasks, oldest first.
    pub open spec fn view(&self) -> Seq<Task<S, A>> {
        self.store()@
    }

    /// A scheduler over `pending_tasks`, which holds whatever the store held.
    pub fn new(pending_tasks: Q) -> (scheduler: Self)
        ensures
            scheduler.store() == pending_tasks,
            scheduler@ == pending_tasks@,
    {
        Scheduler { pending_tasks, units: PhantomData }
    }

    /// The store that holds the pending tasks.
    pub fn pending_tasks(&self) -> (queue: &Q)
        ensures
            *queue == self.store(),
            queue@ == self@,
    {
        &self.pending_tasks
    }

    /// Adds `task` at the tail of the queue, to be worked on in a later turn.
    ///
    /// Without a task there is nothing to do, and the call succeeds: a caller
    /// may pass on the continuation that a unit yielded without looking at it.
    /// With a task, the call succeeds where the store takes the task, which
    /// is then at the tail. Where the store does not take it, the call fails
    /// with the store's error and the queue is as it was.
    pub fn add_task(&mut self, task: Option<Task<S, A>>) -> (result: Result<(), StorageError>)
        ensures
            task is None ==> result is Ok && final(self)@ == old(self)@ && final(self).store()
                == old(self).store(),
            result is Ok <==> kept(old(self).store(), task) == task,
            result is Ok ==> final(self)@ == appended(old(self)@, task),
            result is Err ==> final(self)@ == old(self)@,
    {
        match task {
            Some(task) => self.pending_tasks.push(task),
            None => Ok(()),
        }
    }

    /// Takes in what a unit yielded when it completed or resolved: adds the
    /// continuation, if there is one, at the tail of the queue.
    ///
    /// A continuation that the store does not take is dropped, and nobody is
    /// told: the queue is then as it was.
    pub fn continue_with(&mut self, next: Option<Task<S, A>>)
        ensures
            final(self)@ == appended(old(self)@, kept(old(self).store(), next)),
            next is None ==> final(self).store() == old(self).store(),
    {
        let _stored = self.add_task(next);
    }

    /// Takes one turn: looks at the front of the queue and works on the task
    /// that is there.
    ///
    /// A synchronous unit is executed on the spot, and what it yields is added
    /// at the tail. An asynchronous unit is handed out for the host's runtime;
    /// the queue stays as it is, and whatever that unit yields once it has
    /// resolved comes back through [`Scheduler::continue_with`].
    ///
    /// A turn does not take the task out of the front slot. The queue after a
    /// turn begins with the queue before it, so a queue that had a task at
    /// its front still has that task there.
    pub fn dispatch_front(&mut self) -> (turn: Turn<A>)
        ensures
            turn == turn_on(old(self)@),
            one_turn(old(self)@, final(self)@),
            !(turn is Ran) ==> final(self)@ == old(self)@,
            old(self)@.len() > 0 ==> final(self)@.len() > 0 && final(self)@[0] == old(self)@[0],
    {
        match self.pending_tasks.get(0) {
            None => {
                assert(self@ == appended(old(self)@, None));
                Turn::Idle
            },
            Some(Task::Sync(unit)) => {
                execute_sync_task(unit, self);
                Turn::Ran
            },
            Some(Task::Async(unit)) => {
                assert(self@ == appended(old(self)@, None));
                Turn::Detach(unit)
            },
        }
    }
}

/// Executes `task` on the calling thread and adds what it yields at the tail
/// of the queue.
fn execute_sync_task<S, A, Q>(task: S, scheduler: &mut Scheduler<S, A, Q>) where
    S: SyncTask<Async = A>,
    A: AsyncTask<Sync = S>,
    Q: VecStructure<Task<S, A>>,

    ensures
        one_turn(old(scheduler)@, final(scheduler)@),
{
    let next = task.execute();
    scheduler.continue_with(next);
    assert(scheduler@ == appended(old(scheduler)@, next) || scheduler@ == appended(
        old(scheduler)@,
        None,
    ));
}

/// Tasks that are stored one after the other all arrive: the queue keeps what
/// it held, in place, and holds the new tasks behind it in the order in which
/// they were stored.
pub proof fn lemma_pushed_all_arrive<T>(queue: Seq<T>, tasks: Seq<T>)
    ensures
        pushed_all(queue, tasks) == queue + tasks,
    decreases tasks.len(),
{
    if tasks.len() == 0 {
        assert(queue + tasks =~= queue);
    } else {
        lemma_pushed_all_arrive(queue.push(tasks.first()), tasks.drop_first());
        assert(queue.push(tasks.first()) + tasks.drop_first() =~= queue + tasks);
    }
}

/// No task is lost when two producers add to one queue. Whatever the order
/// in which their additions reach the queue, one at a time, the queue ends up
/// holding what it held before and every task of either producer, each as
/// often as it was added.
pub proof fn lemma_no_task_is_lost<T>(queue: Seq<T>, one: Seq<T>, other: Seq<T>, order: Seq<T>)
    requires
        order.to_multiset() == one.to_multiset().add(other.to_multiset()),
    ensures
        pushed_all(queue, order).to_multiset() == queue.to_multiset().add(
            one.to_multiset(),
        ).add(other.to_multiset()),
        queue.is_prefix_of(pushed_all(queue, order)),
{
    lemma_pushed_all_arrive(queue, order);
    vstd::seq_lib::lemma_multiset_commutative(queue, order);
    assert(queue.to_multiset().add(order.to_multiset()) =~= queue.to_multiset().add(
        one.to_multiset(),
    ).add(other.to_multiset()));
}

/// Turns in which no continuation is yielded leave the queue alone.
pub proof fn lemma_turns_without_continuation_change_nothing<T>(queue: Seq<T>, turns: nat)
    ensures
        turns_without_continuation(queue, turns) == queue,
    decreases turns,
{
    if turns > 0 {
        lemma_turns_without_continuation_change_nothing(queue, (turns - 1) as nat);
    }
}

/// Filling the queue and then working on it takes nothing out of it. After
/// `tasks` were stored and any number of turns were taken in which no
/// continuation was yielded, the queue is what it was at the start, followed
/// by `tasks`: a turn leaves the task that it worked on in the front slot.
pub proof fn lemma_round_trip<T>(queue: Seq<T>, tasks: Seq<T>, turns: nat)
    ensures
        turns_without_continuation(pushed_all(queue, tasks), turns) == queue + tasks,
{
    lemma_pushed_all_arrive(queue, tasks);
    lemma_turns_without_continuation_change_nothing(queue + tasks, turns);
}

/// Turns never clear the front slot. However many turns are taken and
/// whatever the units yield, the queue keeps all that it held, in place, and
/// grows by one task a turn at most. So a queue that held a task holds that
/// task at its front for good, and no number of turns makes the front slot
/// vacant.
pub proof fn lemma_front_is_never_cleared<T>(before: Seq<T>, after: Seq<T>, count: nat)
    requires
        turns(before, after, count),
    ensures
        before.is_prefix_of(after),
        after.len() <= before.len() + count,
        before.len() > 0 ==> after.len() > 0 && after[0] == before[0],
    decreases count,
{
    if count > 0 {
        let between = choose|between: Seq<T>| #[trigger]
            one_turn(before, between) && turns(between, after, (count - 1) as nat);
        let next = choose|next: Option<T>| between == #[trigger] appended(before, next);
        assert(before.is_prefix_of(appended(before, next)));
        lemma_front_is_never_cleared(between, after, (count - 1) as nat);
    }
}

} // verus!
