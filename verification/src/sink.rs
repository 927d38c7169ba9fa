//! The completion sink: one handle for each producer of a job, all feeding
//! one response stream, which ends with exactly one terminator.
//!
//! A handle is let go of with [`RpcSink::drop`], once, as the last thing done
//! with it. The library leaves it to the owner of a handle to do so when the
//! handle goes out of scope: pushing into the channel wakes the receiver,
//! which runs code of the receiver's runtime, and nothing says of that code
//! that it does not unwind, as all that a destructor calls must.
//!
//! The handles share a count of the handles that are still held and a flag
//! that is raised by the first failure. Both are atomics, and every handle
//! pushes into the same unbounded channel; no handle ever waits for another.
//! What one handle reads from the count and the flag depends on what the
//! other handles are doing, so the rules are stated on the values read:
//! [`result_item`] and [`error_item`] say what a producer pushes, [`is_last`]
//! and [`farewell`] what a departing handle does with what it finds.
//!
//! Each handle keeps a record of what it has handed to the channel, and a
//! mark that tells whether it has been let go of. Both exist for proofs
//! only. The contracts of a handle say how its record grows, and ask that a
//! handle that has been let go of is not used again. [`crate::fan_in`] puts
//! the same rules into a model of all handles at once and proves what the
//! stream then holds.

use crate::protocol::{
    BinaryResource, Code, JobResponse, JobResponseView, Status, StatusView, StreamItem,
    StreamItemView, item_view,
};
use std::sync::atomic::{AtomicBool, AtomicUsize, Ordering};
use std::sync::Arc;
use tokio::sync::mpsc::{unbounded_channel, UnboundedReceiver, UnboundedSender};
use vstd::prelude::*;
use vstd::string::StringExecFns;

verus! {

/// `UnboundedSender` of tokio: the sending half of a channel without a
/// bound. Nothing is read from it.
#[verifier::external_type_specification]
#[verifier::external_body]
#[verifier::reject_recursive_types(T)]
pub struct ExUnboundedSender<T>(UnboundedSender<T>);

/// `UnboundedReceiver` of tokio: the receiving half of a channel without a
/// bound. Nothing is read from it.
#[verifier::external_type_specification]
#[verifier::external_body]
#[verifier::reject_recursive_types(T)]
pub struct ExUnboundedReceiver<T>(UnboundedReceiver<T>);

/// `UnboundedSender::send` of tokio pushes the message into the channel and
/// wakes the receiver, or hands the message back where the receiving half is
/// closed; the answer tells which, and a message handed back is dropped.
/// Which it is depends on the receiver, so nothing is said of the answer.
/// The call does not wait.
#[verifier::external_body]
fn push(tx: &UnboundedSender<StreamItem>, item: StreamItem) -> (taken: bool)
{
    tx.send(item).is_ok()
}

/// `UnboundedSender::clone` of tokio gives another sender into the same
/// channel: as a value, the same sender.
pub assume_specification<T>[ <UnboundedSender<T> as Clone>::clone ](
    tx: &UnboundedSender<T>,
) -> (other: UnboundedSender<T>)
    ensures
        other == *tx,
;

/// Whether what is sent through the sender comes out of the receiver: the
/// two are halves of one channel.
pub uninterp spec fn joined(
    tx: UnboundedSender<StreamItem>,
    rx: UnboundedReceiver<StreamItem>,
) -> bool;

/// `unbounded_channel` of tokio makes a channel without a bound and gives
/// its two halves: what is sent through the first comes out of the second.
#[verifier::external_body]
pub(crate) fn open_channel() -> (halves: (
    UnboundedSender<StreamItem>,
    UnboundedReceiver<StreamItem>,
))
    ensures
        joined(halves.0, halves.1),
{
    unbounded_channel()
}

/// `Arc::clone` of the standard library gives another pointer to the same
/// value: as a value, the same pointer.
#[verifier::external_body]
fn share<T>(shared: &Arc<T>) -> (other: Arc<T>)
    ensures
        other == *shared,
{
    Arc::clone(shared)
}

/// The item that carries one result of a job.
pub open spec fn data_item(job_id: u64, payload: Seq<u8>) -> StreamItemView {
    Ok(JobResponseView { job_id, res: Some(payload) })
}

/// The item that reports a failure of the execution.
pub open spec fn failure_item(error: Seq<char>) -> StreamItemView {
    Err(StatusView { code: Code::Unknown, message: "execution_error: "@ + error })
}

/// The item that ends a stream in success.
pub open spec fn success_item() -> StreamItemView {
    Err(StatusView { code: Code::Success, message: "ok"@ })
}

/// Whether the handle that found `before` in the count, and took one from
/// it, was the last one held.
pub open spec fn leaves_last(before: int) -> bool {
    before == 1
}

/// What the last handle pushes as it leaves, given what the flag holds as
/// it looks: the success terminator, unless a failure was raised.
pub open spec fn last_words(had_error: bool) -> Option<StreamItemView> {
    if had_error {
        None
    } else {
        Some(success_item())
    }
}

/// The item that carries the given result of the given job.
pub fn result_item(job_id: u64, data: Vec<u8>) -> (item: StreamItem)
    ensures
        item_view(item) == data_item(job_id, data@),
{
    Ok(JobResponse { job_id, res: Some(BinaryResource { resource: data }) })
}

/// The item that reports the given failure.
pub fn error_item(error: &str) -> (item: StreamItem)
    ensures
        item_view(item) == failure_item(error@),
{
    Err(Status::unknown("execution_error: ".to_owned().concat(error)))
}

/// Whether a handle that found `before_sub` in the count is the last one.
pub fn is_last(before_sub: usize) -> (last: bool)
    ensures
        last == leaves_last(before_sub as int),
{
    before_sub == 1
}

/// What the last handle pushes as it leaves: the success terminator, unless
/// a failure was raised.
pub fn farewell(had_error: bool) -> (item: Option<StreamItem>)
    ensures
        match item {
            Some(item) => last_words(had_error) == Some(item_view(item)),
            None => last_words(had_error) is None,
        },
{
    if had_error {
        None
    } else {
        Some(Err(Status::ok("ok")))
    }
}

/// One producer's handle on the response stream of a job. Each producer has
/// a handle of its own, made by cloning before the producer pushes anything,
/// and lets go of it with [`RpcSink::drop`] when it is done.
pub struct RpcSink {
    pub job_id: u64,
    had_error: Arc<AtomicBool>,
    peers: Arc<AtomicUsize>,
    tx: UnboundedSender<StreamItem>,
    handed: Ghost<Seq<StreamItemView>>,
    released: Ghost<bool>,
}

impl RpcSink {
    /// The job whose results the handle carries.
    pub closed spec fn id(&self) -> u64 {
        self.job_id
    }

    /// The job whose results the handle carries.
    pub fn job_id(&self) -> (id: u64)
        ensures
            id == self.id(),
    {
        self.job_id
    }

    /// The sender through which the handle pushes.
    pub closed spec fn channel(&self) -> UnboundedSender<StreamItem> {
        self.tx
    }

    /// What this handle has handed to the channel so far, in the order in
    /// which it did: its results, its failures, and the terminator if it was
    /// the one to push it. Whether the client took them is another matter.
    pub closed spec fn handed(&self) -> Seq<StreamItemView> {
        self.handed@
    }

    /// Whether the handle has been let go of.
    pub closed spec fn released(&self) -> bool {
        self.released@
    }

    /// Whether the two handles are on the same count and the same flag.
    pub closed spec fn shares(&self, other: RpcSink) -> bool {
        self.had_error == other.had_error && self.peers == other.peers
    }

    /// The first handle of a job. It starts a count of handles at one and a
    /// failure flag that is down, and pushes into `tx`. It has handed over
    /// nothing yet.
    pub fn new(job_id: u64, tx: UnboundedSender<StreamItem>) -> (sink: RpcSink)
        ensures
            sink.id() == job_id,
            sink.channel() == tx,
            sink.handed() == Seq::<StreamItemView>::empty(),
            !sink.released(),
    {
        RpcSink {
            tx,
            had_error: Arc::new(AtomicBool::new(false)),
            peers: Arc::new(AtomicUsize::new(1)),
            job_id,
            handed: Ghost(Seq::empty()),
            released: Ghost(false),
        }
    }

    /// Another handle for another producer, on the same count, the same flag
    /// and the same channel. The count grows by one before the new handle
    /// exists. The new handle has handed over nothing yet.
    pub fn clone(&self) -> (other: RpcSink)
        requires
            !self.released(),
        ensures
            other.id() == self.id(),
            other.channel() == self.channel(),
            other.shares(*self),
            other.handed() == Seq::<StreamItemView>::empty(),
            !other.released(),
    {
        self.peers.fetch_add(1, Ordering::SeqCst);
        RpcSink {
            job_id: self.job_id,
            had_error: share(&self.had_error),
            peers: share(&self.peers),
            tx: self.tx.clone(),
            handed: Ghost(Seq::empty()),
            released: Ghost(false),
        }
    }

    /// Hands one result to the channel, tagged with the job, and succeeds.
    /// Whether the client still listens is not asked: a result that nobody
    /// takes is dropped, and the producer goes on all the same.
    pub fn on_next(&mut self, next: Vec<u8>) -> (outcome: Result<(), Status>)
        requires
            !old(self).released(),
        ensures
            outcome is Ok,
            final(self).handed() == old(self).handed().push(data_item(old(self).id(), next@)),
            final(self).id() == old(self).id(),
            final(self).channel() == old(self).channel(),
            final(self).shares(*old(self)),
            !final(self).released(),
    {
        let item = result_item(self.job_id, next);
        let ghost given = item_view(item);
        let _ = push(&self.tx, item);
        self.handed = Ghost(self.handed@.push(given));
        Ok(())
    }

    /// Raises the failure flag, then hands the failure to the channel. The
    /// stream stays open, and the other handles go on.
    pub fn on_error(&mut self, error: &str)
        requires
            !old(self).released(),
        ensures
            final(self).handed() == old(self).handed().push(failure_item(error@)),
            final(self).id() == old(self).id(),
            final(self).channel() == old(self).channel(),
            final(self).shares(*old(self)),
            !final(self).released(),
    {
        self.had_error.store(true, Ordering::SeqCst);
        let item = error_item(error);
        let ghost given = item_view(item);
        let _ = push(&self.tx, item);
        self.handed = Ghost(self.handed@.push(given));
    }

    /// Lets go of the handle: takes it out of the count. The handle that
    /// finds itself the last looks at the flag, and ends the stream in
    /// success unless a failure was raised: so it hands over the success
    /// terminator, or nothing.
    ///
    /// This is the last thing to do with a handle, and is done once. The
    /// owner of a handle sees to it that it is done when the handle goes out
    /// of scope, whatever the reason.
    pub fn drop(&mut self)
        requires
            !old(self).released(),
        ensures
            final(self).released(),
            final(self).handed() == old(self).handed() || final(self).handed() == old(
                self,
            ).handed().push(success_item()),
            final(self).id() == old(self).id(),
            final(self).channel() == old(self).channel(),
            final(self).shares(*old(self)),
    {
        let before_sub = self.peers.fetch_sub(1, Ordering::SeqCst);
        if is_last(before_sub) {
            if let Some(item) = farewell(self.had_error.load(Ordering::SeqCst)) {
                let ghost given = item_view(item);
                let _ = push(&self.tx, item);
                self.handed = Ghost(self.handed@.push(given));
            }
        }
        self.released = Ghost(true);
    }
}

} // verus!
