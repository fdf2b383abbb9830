//! The queues through which work is handed to a bounded pool of workers.

use vstd::prelude::*;

verus! {

/// `tokio::sync::mpsc::Sender`, the sending end of a bounded channel. Nothing inside it is
/// visible here.
#[verifier::external_type_specification]
#[verifier::external_body]
#[verifier::reject_recursive_types(T)]
pub struct ExSender<T>(tokio::sync::mpsc::Sender<T>);

/// `tokio::sync::mpsc::Receiver`, the receiving end of a bounded channel. Nothing inside it
/// is visible here.
#[verifier::external_type_specification]
#[verifier::external_body]
#[verifier::reject_recursive_types(T)]
pub struct ExReceiver<T>(tokio::sync::mpsc::Receiver<T>);

/// How many work items a queue holds before further ones are dropped.
pub const QUEUE_CAPACITY: usize = 1000;

/// The settings of the pool.
#[derive(Clone, Debug)]
pub struct Config {
    /// The largest number of work items that run at the same time.
    pub max_workers: usize,
}

/// Calls `num_cpus::get`, the number of logical cores that the process may use. It
/// depends on the machine; its documentation promises that it is at least 1.
#[verifier::external_body]
fn logical_cores() -> (cores: usize)
    ensures
        cores >= 1,
{
    num_cpus::get()
}

impl Default for Config {
    /// One worker for each core of the machine, so at least one.
    fn default() -> (config: Self)
        ensures
            config.max_workers >= 1,
    {
        Self { max_workers: logical_cores() }
    }
}

/// The work itself: a future to drive, or a function to run on a thread that may block.
pub enum AsyncOrBlocking<A, B> {
    Async(A),
    Blocking(B),
}

/// A piece of work under the name of the queue that it came through.
pub struct WorkItem<A, B> {
    pub name: &'static str,
    pub func: AsyncOrBlocking<A, B>,
}

impl<A, B> WorkItem<A, B> {
    pub fn new_async(name: &'static str, func: A) -> (item: Self)
        ensures
            item.name == name,
            item.func == AsyncOrBlocking::<A, B>::Async(func),
    {
        Self { name, func: AsyncOrBlocking::Async(func) }
    }

    pub fn new_blocking(name: &'static str, func: B) -> (item: Self)
        ensures
            item.name == name,
            item.func == AsyncOrBlocking::<A, B>::Blocking(func),
    {
        Self { name, func: AsyncOrBlocking::Blocking(func) }
    }
}

/// What became of a work item that was handed to a queue.
#[derive(Clone, Copy, Debug, PartialEq, Eq)]
pub enum Submission {
    /// The item waits in the queue.
    Queued,
    /// The queue was full: the item, whose name this is, was dropped.
    Full(&'static str),
    /// The pool is gone: the item was dropped.
    Closed,
}

/// Calls `tokio::sync::mpsc::channel`, which makes a queue that holds up to `capacity`
/// items. It panics on a capacity of zero or above `usize::MAX >> 3`. Nothing is
/// claimed of the two ends.
#[verifier::external_body]
fn work_channel<A, B>(capacity: usize) -> (ends: (
    tokio::sync::mpsc::Sender<WorkItem<A, B>>,
    tokio::sync::mpsc::Receiver<WorkItem<A, B>>,
))
    requires
        0 < capacity <= usize::MAX / 8,
{
    tokio::sync::mpsc::channel(capacity)
}

/// Calls `Sender::try_send`, which never waits. Whether the item is taken depends on how
/// full the queue is and on whether its other end is alive; an item that is refused comes
/// back in the error as it was handed in.
#[verifier::external_body]
fn try_send<A, B>(tx: &tokio::sync::mpsc::Sender<WorkItem<A, B>>, item: WorkItem<A, B>) -> (r: Handover<A, B>)
    ensures
        r == Handover::<A, B>::Taken || r == Handover::Full(item) || r == Handover::Closed(item),
{
    match tx.try_send(item) {
        Ok(()) => Handover::Taken,
        Err(tokio::sync::mpsc::error::TrySendError::Full(item)) => Handover::Full(item),
        Err(tokio::sync::mpsc::error::TrySendError::Closed(item)) => Handover::Closed(item),
    }
}

/// The sending end of one named queue.
#[verifier::reject_recursive_types(A)]
#[verifier::reject_recursive_types(B)]
pub struct WorkSender<A, B> {
    name: &'static str,
    tx: tokio::sync::mpsc::Sender<WorkItem<A, B>>,
}

impl<A, B> WorkSender<A, B> {
    /// The name of the queue, which every item sent through it carries.
    pub closed spec fn queue_name(&self) -> &'static str {
        self.name
    }

    fn new(name: &'static str, tx: tokio::sync::mpsc::Sender<WorkItem<A, B>>) -> (sender: Self)
        ensures
            sender.queue_name() == name,
    {
        Self { name, tx }
    }

    /// Hands a future to the pool, without waiting. If the item is dropped because the
    /// queue is full, the name reported is that of the queue.
    pub fn send_async(&mut self, future: A) -> (r: Submission)
        ensures
            final(self).queue_name() == old(self).queue_name(),
            r matches Submission::Full(name) ==> name == old(self).queue_name(),
    {
        self.send_work_item(WorkItem::new_async(self.name, future))
    }

    /// Hands a function that may block to the pool, without waiting. If the item is
    /// dropped because the queue is full, the name reported is that of the queue.
    pub fn send_blocking(&mut self, func: B) -> (r: Submission)
        ensures
            final(self).queue_name() == old(self).queue_name(),
            r matches Submission::Full(name) ==> name == old(self).queue_name(),
    {
        self.send_work_item(WorkItem::new_blocking(self.name, func))
    }

    /// Hands a work item to the pool, without waiting. If the item is dropped because the
    /// queue is full, the name reported is its own.
    pub fn send_work_item(&mut self, item: WorkItem<A, B>) -> (r: Submission)
        ensures
            final(self).queue_name() == old(self).queue_name(),
            r matches Submission::Full(name) ==> name == item.name,
    {
        Submission::of(try_send(&self.tx, item))
    }
}

/// The sending ends of all queues of the pool.
#[verifier::reject_recursive_types(A)]
#[verifier::reject_recursive_types(B)]
pub struct Senders<A, B> {
    pub example_tx: WorkSender<A, B>,
}

/// The receiving ends of all queues of the pool.
#[verifier::reject_recursive_types(A)]
#[verifier::reject_recursive_types(B)]
pub struct Receivers<A, B> {
    pub example_rx: tokio::sync::mpsc::Receiver<WorkItem<A, B>>,
}

/// Makes the queues of a pool, each of them `QUEUE_CAPACITY` items long: the sending ends
/// for those that hand in work, the receiving ends for the one that deals it out.
pub fn queues<A, B>() -> (ends: (Senders<A, B>, Receivers<A, B>))
    ensures
        ends.0.example_tx.queue_name()@ == "example"@,
{
    let (example_tx, example_rx) = work_channel(QUEUE_CAPACITY);
    let senders = Senders { example_tx: WorkSender::new("example", example_tx) };
    let receivers = Receivers { example_rx };
    (senders, receivers)
}

/// What a queue answers to an item that is handed to it without waiting.
pub enum Handover<A, B> {
    /// The queue has taken the item.
    Taken,
    /// The queue is full: the item comes back.
    Full(WorkItem<A, B>),
    /// The other end of the queue is gone: the item comes back.
    Closed(WorkItem<A, B>),
}

impl Submission {
    /// What becomes of a work item, given the answer of the queue: an item that was taken
    /// waits in the queue, and one that comes back is dropped, under its own name where the
    /// queue was full.
    pub fn of<A, B>(answer: Handover<A, B>) -> (r: Submission)
        ensures
            r == match answer {
                Handover::Taken => Submission::Queued,
                Handover::Full(item) => Submission::Full(item.name),
                Handover::Closed(_) => Submission::Closed,
            },
    {
        match answer {
            Handover::Taken => Submission::Queued,
            Handover::Full(item) => Submission::Full(item.name),
            Handover::Closed(_) => Submission::Closed,
        }
    }
}

} // verus!
