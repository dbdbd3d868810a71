//! The run queue and the scheduling policy built on it.
//!
//! The policy is first-in-first-out and cooperative: admission appends to the
//! back of the queue, selection removes from the front, and a running task is
//! never asked to yield.

use std::collections::VecDeque;
use vstd::prelude::*;

verus! {

/// The run queue after `task` has been admitted: `task` stands at the back.
pub open spec fn spec_enqueue<T>(queue: Seq<T>, task: T) -> Seq<T> {
    queue.push(task)
}

/// The run queue after a selection, and the task selected: the front of the
/// queue, or `None` where the queue is empty.
pub open spec fn spec_dequeue<T>(queue: Seq<T>) -> (Seq<T>, Option<T>) {
    if queue.len() == 0 {
        (queue, None)
    } else {
        (queue.drop_first(), Some(queue[0]))
    }
}

/// One request to a scheduler.
pub enum Request<T> {
    /// Put the task at the back of the run queue.
    Enqueue(T),
    /// Take the task at the front of the run queue.
    Dequeue,
}

/// The run queue after the scheduler has served `requests` one after the
/// other, and its answers to the selections among them, in their order.
pub open spec fn serve<T>(queue: Seq<T>, requests: Seq<Request<T>>) -> (Seq<T>, Seq<Option<T>>)
    decreases requests.len(),
{
    if requests.len() == 0 {
        (queue, Seq::empty())
    } else {
        let (before, answers) = serve(queue, requests.drop_last());
        match requests.last() {
            Request::Enqueue(task) => (spec_enqueue(before, task), answers),
            Request::Dequeue => (spec_dequeue(before).0, answers.push(spec_dequeue(before).1)),
        }
    }
}

/// The requests that admit `tasks` in their order.
pub open spec fn admissions<T>(tasks: Seq<T>) -> Seq<Request<T>> {
    Seq::new(tasks.len(), |i: int| Request::Enqueue(tasks[i]))
}

/// `count` requests that each select a task.
pub open spec fn selections<T>(count: nat) -> Seq<Request<T>> {
    Seq::new(count, |i: int| Request::Dequeue)
}

/// A first-in-first-out scheduler over task handles of type `T`.
///
/// The scheduler owns the run queue. A caller that shares one scheduler between
/// processors wraps it in a lock and holds that lock for the length of one
/// call.
#[derive(Debug)]
pub struct MySched<T> {
    queue: VecDeque<T>,
}

impl<T> View for MySched<T> {
    type V = Seq<T>;

    /// The queued handles, front first.
    closed spec fn view(&self) -> Seq<T> {
        self.queue@
    }
}

impl<T> MySched<T> {
    /// A scheduler with an empty run queue.
    pub fn new() -> (s: MySched<T>)
        ensures
            s@ == Seq::<T>::empty(),
    {
        MySched { queue: VecDeque::new() }
    }

    /// Admits `task`: it goes to the back of the run queue.
    ///
    /// A queue in which no task stands twice stays so when the task admitted
    /// is not in it.
    pub fn enqueue(&mut self, task: T)
        ensures
            final(self)@ == spec_enqueue(old(self)@, task),
            old(self)@.no_duplicates() && !old(self)@.contains(task)
                ==> final(self)@.no_duplicates(),
    {
        proof {
            if self@.no_duplicates() && !self@.contains(task) {
                lemma_enqueue_keeps_distinct(self@, task);
            }
        }
        self.queue.push_back(task);
    }

    /// Selects the next task: the front of the run queue leaves the queue and
    /// is returned. An empty queue is left as it is and `None` is returned.
    ///
    /// A queue in which no task stands twice stays so, and no longer holds the
    /// task selected.
    pub fn dequeue(&mut self) -> (next: Option<T>)
        ensures
            (final(self)@, next) == spec_dequeue(old(self)@),
            old(self)@.no_duplicates() ==> final(self)@.no_duplicates(),
            old(self)@.no_duplicates() && next is Some ==> !final(self)@.contains(next->0),
    {
        proof {
            if self@.no_duplicates() {
                lemma_dequeue_keeps_distinct(self@);
            }
        }
        let next = self.queue.pop_front();
        assert(self.queue@ =~= spec_dequeue(old(self)@).0);
        next
    }

    /// Whether the running `task` has to yield before it does so by itself.
    /// Under this policy it never has to.
    pub fn should_preempt(&self, task: &T) -> (yes: bool)
        ensures
            !yes,
    {
        false
    }

    /// The number of queued tasks.
    pub fn len(&self) -> (n: usize)
        ensures
            n == self@.len(),
    {
        self.queue.len()
    }

    /// Whether no task is queued.
    pub fn is_empty(&self) -> (empty: bool)
        ensures
            empty == (self@.len() == 0),
    {
        self.queue.len() == 0
    }
}

/// Admitting a task that is not queued keeps a queue free of duplicates.
pub proof fn lemma_enqueue_keeps_distinct<T>(queue: Seq<T>, task: T)
    requires
        queue.no_duplicates(),
        !queue.contains(task),
    ensures
        spec_enqueue(queue, task).no_duplicates(),
{
    let after = spec_enqueue(queue, task);
    assert forall|i: int, j: int| 0 <= i < after.len() && 0 <= j < after.len() && i != j implies after[i]
        != after[j] by {
        if i < queue.len() && j < queue.len() {
        } else if i < queue.len() {
            assert(queue.contains(queue[i]));
        } else {
            assert(queue.contains(queue[j]));
        }
    }
}

/// A selection keeps a queue free of duplicates, and the task selected is no
/// longer in it.
pub proof fn lemma_dequeue_keeps_distinct<T>(queue: Seq<T>)
    requires
        queue.no_duplicates(),
    ensures
        spec_dequeue(queue).0.no_duplicates(),
        spec_dequeue(queue).1 matches Some(task) ==> !spec_dequeue(queue).0.contains(task),
{
    if queue.len() > 0 {
        let rest = queue.drop_first();
        assert forall|i: int, j: int| 0 <= i < rest.len() && 0 <= j < rest.len() && i != j implies rest[i]
            != rest[j] by {
            assert(rest[i] == queue[i + 1] && rest[j] == queue[j + 1]);
        }
        if rest.contains(queue[0]) {
            let i = choose|i: int| 0 <= i < rest.len() && rest[i] == queue[0];
            assert(queue[i + 1] == queue[0]);
        }
    }
}

/// Serving admissions alone appends the tasks in their order and answers
/// nothing.
proof fn lemma_serve_admissions<T>(queue: Seq<T>, tasks: Seq<T>)
    ensures
        serve(queue, admissions(tasks)) == (queue + tasks, Seq::<Option<T>>::empty()),
    decreases tasks.len(),
{
    if tasks.len() == 0 {
        assert(queue + tasks =~= queue);
    } else {
        let front = tasks.drop_last();
        lemma_serve_admissions(queue, front);
        assert(admissions(tasks).drop_last() =~= admissions(front));
        assert(admissions(tasks).last() == Request::Enqueue(tasks.last()));
        assert((queue + front).push(tasks.last()) =~= queue + tasks);
    }
}

/// First in, first out: when tasks are admitted one after the other and then
/// `count` tasks are selected, the selections give the tasks that waited
/// first, in the order in which they were admitted, and the others still wait
/// in that order. Once the queue is empty a selection gives `None`. With an
/// empty queue at first and as many selections as admissions, the selections
/// give exactly the tasks admitted, in their order.
pub proof fn lemma_fifo<T>(queue: Seq<T>, tasks: Seq<T>, count: nat)
    ensures
        ({
            let all = queue + tasks;
            let (left, answers) = serve(queue, admissions(tasks) + selections(count));
            &&& answers.len() == count
            &&& forall|i: int|
                0 <= i < count ==> #[trigger] answers[i] == if i < all.len() {
                    Some(all[i])
                } else {
                    None
                }
            &&& left == if count <= all.len() {
                all.skip(count as int)
            } else {
                Seq::empty()
            }
        }),
    decreases count,
{
    let all = queue + tasks;
    let requests = admissions(tasks) + selections::<T>(count);
    if count == 0 {
        assert(requests =~= admissions(tasks));
        lemma_serve_admissions(queue, tasks);
        assert(all.skip(0) =~= all);
    } else {
        let fewer = (count - 1) as nat;
        lemma_fifo(queue, tasks, fewer);
        assert(requests.drop_last() =~= admissions(tasks) + selections::<T>(fewer));
        assert(requests.last() == Request::<T>::Dequeue);
        let (before, answers) = serve(queue, requests.drop_last());
        if fewer < all.len() {
            assert(before == all.skip(fewer as int));
            assert(before[0] == all[fewer as int]);
            assert(before.drop_first() =~= all.skip(count as int));
        } else {
            assert(before.len() == 0);
            if count <= all.len() {
                assert(all.skip(count as int) =~= Seq::<T>::empty());
            }
        }
    }
}

/// A task that is not queued and is not admitted again is never selected.
proof fn lemma_absent_never_selected<T>(queue: Seq<T>, task: T, requests: Seq<Request<T>>)
    requires
        !queue.contains(task),
        forall|i: int| 0 <= i < requests.len() ==> requests[i] != Request::Enqueue(task),
    ensures
        !serve(queue, requests).0.contains(task),
        !serve(queue, requests).1.contains(Some(task)),
    decreases requests.len(),
{
    if requests.len() > 0 {
        let earlier = requests.drop_last();
        assert forall|i: int| 0 <= i < earlier.len() implies earlier[i] != Request::Enqueue(task) by {
            assert(earlier[i] == requests[i]);
        }
        lemma_absent_never_selected(queue, task, earlier);
        let (before, answers) = serve(queue, earlier);
        let (after, all_answers) = serve(queue, requests);
        match requests.last() {
            Request::Enqueue(other) => {
                assert(requests[requests.len() - 1] != Request::Enqueue(task));
                if after.contains(task) {
                    let i = choose|i: int| 0 <= i < after.len() && after[i] == task;
                    if i < before.len() {
                        assert(before[i] == task);
                    }
                }
            },
            Request::Dequeue => {
                if after.contains(task) {
                    let i = choose|i: int| 0 <= i < after.len() && after[i] == task;
                    if before.len() > 0 {
                        assert(before[i + 1] == task);
                    }
                }
                if all_answers.contains(Some(task)) {
                    let i = choose|i: int| 0 <= i < all_answers.len() && all_answers[i] == Some(task);
                    if i < answers.len() {
                        assert(answers[i] == Some(task));
                    } else {
                        assert(before[0] == task);
                    }
                }
            },
        }
    } else {
        assert(serve(queue, requests).1 =~= Seq::<Option<T>>::empty());
    }
}

/// No task is handed out twice: once a selection has taken a task out of the
/// queue, no later selection gives that task again, whatever is admitted in
/// between, unless the task itself is admitted again.
///
/// This is said of a queue that does not hold the selected task a second
/// time, as is every queue in which no task stands twice.
pub proof fn lemma_no_double_delivery<T>(queue: Seq<T>, requests: Seq<Request<T>>)
    requires
        queue.len() > 0,
        !queue.drop_first().contains(queue[0]),
        forall|i: int| 0 <= i < requests.len() ==> requests[i] != Request::Enqueue(queue[0]),
    ensures
        spec_dequeue(queue) == (queue.drop_first(), Some(queue[0])),
        !serve(spec_dequeue(queue).0, requests).1.contains(Some(queue[0])),
        !serve(spec_dequeue(queue).0, requests).0.contains(queue[0]),
{
    lemma_absent_never_selected(queue.drop_first(), queue[0], requests);
}

} // verus!
