//! The apartment worker: the apartment that it serves, the wrapper in which
//! values travel to and from its thread, and the mailbox that orders its
//! tasks.
//!
//! The worker thread itself belongs to the caller. It takes its tasks from a
//! `Mailbox`, one at a time, and runs each to its end before it takes the
//! next; callers on any thread submit to the same mailbox.

use std::collections::VecDeque;
use vstd::prelude::*;

verus! {

/// Carries a value between the thread of a caller and the thread of the
/// apartment worker.
///
/// A value that is bound to the apartment must be taken out again only in a
/// task that runs on the worker.
#[derive(Debug, Clone)]
pub struct ComSend<T>(T);

impl<T> View for ComSend<T> {
    type V = T;

    closed spec fn view(&self) -> T {
        self.0
    }
}

impl<T> ComSend<T> {
    /// Wraps a value.
    pub fn new(t: T) -> (wrapped: ComSend<T>)
        ensures
            wrapped@ == t,
    {
        ComSend(t)
    }

    /// Takes the value out of the wrapper.
    pub fn take(self) -> (t: T)
        ensures
            t == self@,
    {
        self.0
    }
}

impl<T: Send> ComSend<T> {
    /// Takes out a value that may be used on any thread.
    pub fn unwrap(self) -> (t: T)
        ensures
            t == self@,
    {
        self.0
    }
}

/// The threading model of the apartment that a worker serves.
#[derive(Debug, Clone, Copy, PartialEq, Eq, Structural)]
pub enum Apartment {
    /// Multi-threaded apartment.
    MTA,
    /// Single-threaded apartment.
    STA,
}

impl Default for Apartment {
    fn default() -> (apartment: Apartment)
        ensures
            apartment == Apartment::STA,
    {
        Apartment::STA
    }
}

/// A worker that runs tasks on the one thread of its apartment.
#[derive(Debug, Clone, Copy)]
pub struct ComWorker {
    apartment: Apartment,
}

impl ComWorker {
    /// The apartment of the worker.
    pub closed spec fn spec_apartment(&self) -> Apartment {
        self.apartment
    }

    /// A worker for the single-threaded apartment.
    pub fn new() -> (worker: ComWorker)
        ensures
            worker.spec_apartment() == Apartment::STA,
    {
        ComWorker::with_apartment(Apartment::STA)
    }

    /// A worker for the given apartment.
    pub fn with_apartment(apartment: Apartment) -> (worker: ComWorker)
        ensures
            worker.spec_apartment() == apartment,
    {
        ComWorker { apartment }
    }

    /// The apartment of the worker.
    #[verifier::when_used_as_spec(spec_apartment)]
    pub fn apartment(&self) -> (apartment: Apartment)
        ensures
            apartment == self.spec_apartment(),
    {
        self.apartment
    }

    /// Asks the worker to stop. The thread of an apartment lives as long as
    /// the process, so nothing changes.
    pub fn stop(&mut self)
        ensures
            *final(self) == *old(self),
    {
    }

    /// Starts the worker. The thread of an apartment starts with its first
    /// task, so nothing changes.
    pub fn start(&mut self)
        ensures
            *final(self) == *old(self),
    {
    }

    /// Whether the worker takes tasks: always.
    pub fn is_running(&self) -> (running: bool)
        ensures
            running,
    {
        true
    }
}

/// What the worker thread does next.
pub enum MailboxStep<T> {
    /// The worker runs the task that is handed out, then asks again.
    Run(T),
    /// The worker waits until a task is submitted or the mailbox is closed,
    /// then asks again.
    Wait,
    /// The worker leaves the apartment and its thread ends.
    Exit,
}

/// The mailbox as a mathematical value.
pub struct MailboxModel<T> {
    /// The tasks that wait, oldest first.
    pub pending: Seq<T>,
    /// Whether the mailbox takes no further tasks.
    pub closed: bool,
}

impl<T> MailboxModel<T> {
    /// An open mailbox without tasks.
    pub open spec fn empty() -> Self {
        MailboxModel { pending: Seq::empty(), closed: false }
    }

    /// A submission: an open mailbox puts the task behind all that wait and
    /// accepts; a closed one hands the task back.
    pub open spec fn submit(self, task: T) -> (Self, Result<(), T>) {
        if self.closed {
            (self, Err(task))
        } else {
            (MailboxModel { pending: self.pending.push(task), closed: false }, Ok(()))
        }
    }

    /// The next step of the worker: the oldest task, if one waits; else the
    /// end of the thread if the mailbox is closed; else a wait.
    pub open spec fn next_step(self) -> (Self, MailboxStep<T>) {
        if self.pending.len() > 0 {
            (
                MailboxModel {
                    pending: self.pending.subrange(1, self.pending.len() as int),
                    closed: self.closed,
                },
                MailboxStep::Run(self.pending[0]),
            )
        } else if self.closed {
            (self, MailboxStep::Exit)
        } else {
            (self, MailboxStep::Wait)
        }
    }

    /// The mailbox after it was closed. The tasks that wait stay.
    pub open spec fn close(self) -> Self {
        MailboxModel { pending: self.pending, closed: true }
    }
}

/// The tasks that wait for a worker, oldest first.
pub struct Mailbox<T> {
    pending: VecDeque<T>,
    closed: bool,
}

impl<T> View for Mailbox<T> {
    type V = MailboxModel<T>;

    closed spec fn view(&self) -> MailboxModel<T> {
        MailboxModel { pending: self.pending@, closed: self.closed }
    }
}

impl<T> Mailbox<T> {
    /// An open mailbox without tasks.
    pub fn new() -> (mailbox: Mailbox<T>)
        ensures
            mailbox@ == MailboxModel::<T>::empty(),
    {
        Mailbox { pending: VecDeque::new(), closed: false }
    }

    /// Number of tasks that wait.
    pub fn len(&self) -> (len: usize)
        ensures
            len == self@.pending.len(),
    {
        self.pending.len()
    }

    /// Whether no task waits.
    pub fn is_empty(&self) -> (empty: bool)
        ensures
            empty == (self@.pending.len() == 0),
    {
        self.pending.len() == 0
    }

    /// Whether the mailbox takes no further tasks.
    pub fn is_closed(&self) -> (closed: bool)
        ensures
            closed == self@.closed,
    {
        self.closed
    }

    /// Submits a task. An open mailbox puts it behind all tasks that wait; a
    /// closed one hands it back.
    pub fn submit(&mut self, task: T) -> (outcome: Result<(), T>)
        ensures
            (final(self)@, outcome) == old(self)@.submit(task),
    {
        if self.closed {
            return Err(task);
        }
        self.pending.push_back(task);
        Ok(())
    }

    /// Tells the worker thread what to do next, and takes the task that it
    /// is to run out of the mailbox.
    pub fn next_step(&mut self) -> (step: MailboxStep<T>)
        ensures
            (final(self)@, step) == old(self)@.next_step(),
    {
        match self.pending.pop_front() {
            Some(task) => {
                assert(self.pending@ =~= old(self)@.pending.subrange(
                    1,
                    old(self)@.pending.len() as int,
                ));
                MailboxStep::Run(task)
            },
            None => {
                if self.closed {
                    MailboxStep::Exit
                } else {
                    MailboxStep::Wait
                }
            },
        }
    }

    /// Closes the mailbox: no further task is accepted, and the worker ends
    /// once it has run the tasks that wait.
    pub fn close(&mut self)
        ensures
            final(self)@ == old(self)@.close(),
    {
        self.closed = true;
    }
}

/// One use of a mailbox.
pub enum MailboxOp<T> {
    /// A caller submits a task.
    Submit(T),
    /// The worker asks for its next step.
    Step,
    /// The owner closes the mailbox.
    Close,
}

/// What a mailbox has seen after a sequence of uses.
pub struct MailboxTrace<T> {
    /// The mailbox as it stands.
    pub mailbox: MailboxModel<T>,
    /// Every task that was accepted, in the order of submission.
    pub accepted: Seq<T>,
    /// Every task that was handed to the worker, in the order in which it
    /// ran them.
    pub executed: Seq<T>,
    /// Whether the worker was told to end.
    pub ended: bool,
}

/// The trace of a mailbox that was new and then used as `ops` says.
pub open spec fn trace_of<T>(ops: Seq<MailboxOp<T>>) -> MailboxTrace<T>
    decreases ops.len(),
{
    if ops.len() == 0 {
        MailboxTrace {
            mailbox: MailboxModel::empty(),
            accepted: Seq::empty(),
            executed: Seq::empty(),
            ended: false,
        }
    } else {
        let before = trace_of(ops.drop_last());
        match ops.last() {
            MailboxOp::Submit(task) => MailboxTrace {
                mailbox: before.mailbox.submit(task).0,
                accepted: if before.mailbox.submit(task).1 is Ok {
                    before.accepted.push(task)
                } else {
                    before.accepted
                },
                executed: before.executed,
                ended: before.ended,
            },
            MailboxOp::Step => MailboxTrace {
                mailbox: before.mailbox.next_step().0,
                accepted: before.accepted,
                executed: match before.mailbox.next_step().1 {
                    MailboxStep::Run(task) => before.executed.push(task),
                    _ => before.executed,
                },
                ended: before.ended || before.mailbox.next_step().1 is Exit,
            },
            MailboxOp::Close => MailboxTrace {
                mailbox: before.mailbox.close(),
                accepted: before.accepted,
                executed: before.executed,
                ended: before.ended,
            },
        }
    }
}

/// Tasks run in the order in which they were submitted: however
/// submissions, steps of the worker and a close follow each other, the tasks
/// that ran, followed by the tasks that wait, are the tasks that were
/// accepted, in the order of submission.
pub proof fn lemma_tasks_run_in_submission_order<T>(ops: Seq<MailboxOp<T>>)
    ensures
        trace_of(ops).executed + trace_of(ops).mailbox.pending == trace_of(ops).accepted,
        trace_of(ops).executed.is_prefix_of(trace_of(ops).accepted),
    decreases ops.len(),
{
    let end = trace_of(ops);
    if ops.len() > 0 {
        lemma_tasks_run_in_submission_order(ops.drop_last());
    }
    assert(end.executed + end.mailbox.pending =~= end.accepted);
    assert((end.executed + end.mailbox.pending).subrange(0, end.executed.len() as int)
        =~= end.executed);
}

/// The worker ends only after the mailbox was closed and every accepted task
/// has run.
pub proof fn lemma_worker_ends_after_all_tasks<T>(ops: Seq<MailboxOp<T>>)
    ensures
        trace_of(ops).ended ==> trace_of(ops).mailbox.closed && trace_of(ops).executed
            == trace_of(ops).accepted,
    decreases ops.len(),
{
    let end = trace_of(ops);
    if ops.len() > 0 && end.ended {
        lemma_worker_ends_after_all_tasks(ops.drop_last());
        lemma_tasks_run_in_submission_order(ops);
        assert(end.mailbox.pending.len() == 0);
        assert(end.executed + end.mailbox.pending =~= end.executed);
    }
}

/// A mailbox that is closed stays closed and accepts nothing more.
pub proof fn lemma_closed_stays_closed<T>(ops: Seq<MailboxOp<T>>, op: MailboxOp<T>)
    requires
        trace_of(ops).mailbox.closed,
    ensures
        trace_of(ops.push(op)).mailbox.closed,
        trace_of(ops.push(op)).accepted == trace_of(ops).accepted,
{
    assert(ops.push(op).drop_last() =~= ops);
}

} // verus!
