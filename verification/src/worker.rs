//! The delivery side: the messages placed on the queue, the worker's
//! decision on each one, and a model of what a queue's backlog yields. The
//! queue is an unbounded multi-producer single-consumer channel; enqueueing
//! never suspends the producer. On `Shutdown` the worker stops at once and
//! the `Data` messages still behind it in the queue are discarded, a
//! deliberate policy: shutdown is meant to be prompt, not to flush.

use vstd::prelude::*;

use crate::message::SlackPayload;

verus! {

/// The only values ever placed on the queue: a rendered payload, or the
/// shutdown signal.
pub enum WorkerMessage {
    Data(SlackPayload),
    Shutdown,
}

/// What the worker does with one dequeued message: deliver a payload and
/// keep running, or stop.
pub enum WorkerStep {
    Deliver(SlackPayload),
    Stop,
}

/// The worker's decision on one dequeued message: a `Data` payload is
/// delivered and the loop goes on; `Shutdown` stops the loop at once,
/// whatever else the queue still holds. A delivery failure is the one
/// message's loss, never the loop's: the caller goes on to the next message
/// either way.
pub fn worker_step(msg: WorkerMessage) -> (r: WorkerStep)
    ensures
        msg is Data ==> r == WorkerStep::Deliver(msg->Data_0),
        msg is Shutdown ==> r == WorkerStep::Stop,
{
    match msg {
        WorkerMessage::Data(p) => WorkerStep::Deliver(p),
        WorkerMessage::Shutdown => WorkerStep::Stop,
    }
}

/// The payloads a queue backlog yields under the worker's policy: every
/// `Data` payload before the first `Shutdown`, in queue order; nothing from
/// the first `Shutdown` on.
pub open spec fn deliveries(q: Seq<WorkerMessage>) -> Seq<SlackPayload>
    decreases q.len(),
{
    if q.len() == 0 {
        Seq::empty()
    } else {
        match q[0] {
            WorkerMessage::Shutdown => Seq::empty(),
            WorkerMessage::Data(p) => seq![p] + deliveries(q.drop_first()),
        }
    }
}

/// Drain a queue backlog: the payloads the worker would deliver, in order.
pub fn drain(queue: Vec<WorkerMessage>) -> (r: Vec<SlackPayload>)
    ensures
        r@ == deliveries(queue@),
    decreases queue@.len(),
{
    let ghost orig = queue@;
    let mut q = queue;
    if q.len() == 0 {
        return Vec::new();
    }
    let m = q.remove(0);
    proof {
        assert(orig.drop_first() =~= q@);
    }
    match m {
        WorkerMessage::Shutdown => Vec::new(),
        WorkerMessage::Data(p) => {
            let mut rest = drain(q);
            rest.insert(0, p);
            proof {
                assert(rest@ =~= seq![rest@[0]] + deliveries(orig.drop_first()));
            }
            rest
        },
    }
}

/// Whether a queue backlog holds only payloads, no shutdown signal.
pub open spec fn all_data(q: Seq<WorkerMessage>) -> bool {
    forall|i: int| 0 <= i < q.len() ==> (#[trigger] q[i]) is Data
}

/// The FIFO law: while no shutdown has been enqueued, the worker delivers
/// exactly the enqueued payloads, one for one, in enqueue order — payload A,
/// enqueued before payload B, is attempted strictly before B.
pub proof fn lemma_fifo_order(q: Seq<WorkerMessage>)
    requires
        all_data(q),
    ensures
        deliveries(q).len() == q.len(),
        forall|i: int| 0 <= i < q.len() ==> deliveries(q)[i] == (#[trigger] q[i])->Data_0,
    decreases q.len(),
{
    if q.len() > 0 {
        assert(q[0] is Data);
        assert(forall|i: int|
            0 <= i < q.drop_first().len() ==> #[trigger] q.drop_first()[i] == q[i + 1]);
        lemma_fifo_order(q.drop_first());
        let p = q[0]->Data_0;
        assert(deliveries(q) == seq![p] + deliveries(q.drop_first()));
        assert forall|i: int| 0 <= i < q.len() implies deliveries(q)[i] == (#[trigger] q[i])->Data_0
        by {
            if i == 0 {
                assert(deliveries(q)[0] == p);
            } else {
                assert(deliveries(q)[i] == deliveries(q.drop_first())[i - 1]);
                assert(q.drop_first()[i - 1] == q[i]);
            }
        }
    }
}

/// The shutdown-promptness law: whatever still sits in the queue behind the
/// first `Shutdown` changes nothing — the worker delivers only what stood
/// before it, so completion does not depend on the queue depth behind the
/// signal.
pub proof fn lemma_shutdown_discards(q1: Seq<WorkerMessage>, q2: Seq<WorkerMessage>)
    ensures
        deliveries(q1.push(WorkerMessage::Shutdown) + q2) == deliveries(
            q1.push(WorkerMessage::Shutdown),
        ),
    decreases q1.len(),
{
    let l = q1.push(WorkerMessage::Shutdown) + q2;
    let r = q1.push(WorkerMessage::Shutdown);
    if q1.len() == 0 {
        assert(l[0] == WorkerMessage::Shutdown);
        assert(r[0] == WorkerMessage::Shutdown);
    } else {
        assert(l[0] == q1[0]);
        assert(r[0] == q1[0]);
        lemma_shutdown_discards(q1.drop_first(), q2);
        assert(l.drop_first() =~= q1.drop_first().push(WorkerMessage::Shutdown) + q2);
        assert(r.drop_first() =~= q1.drop_first().push(WorkerMessage::Shutdown));
    }
}

#[verifier::external_type_specification]
#[verifier::external_body]
#[verifier::reject_recursive_types(T)]
pub struct ExUnboundedSender<T>(tokio::sync::mpsc::UnboundedSender<T>);

#[verifier::external_type_specification]
#[verifier::external_body]
#[verifier::reject_recursive_types(T)]
pub struct ExUnboundedReceiver<T>(tokio::sync::mpsc::UnboundedReceiver<T>);

/// The producers' half of the delivery queue. It may be cloned and shared
/// across threads; the channel synchronizes internally.
pub type ChannelSender = tokio::sync::mpsc::UnboundedSender<WorkerMessage>;

/// The worker's half of the delivery queue.
pub type ChannelReceiver = tokio::sync::mpsc::UnboundedReceiver<WorkerMessage>;

/// Relies on `tokio::sync::mpsc::unbounded_channel`: makes the unbounded
/// FIFO queue the dispatcher feeds and the worker drains.
#[verifier::external_body]
pub(crate) fn new_channel() -> (r: (ChannelSender, ChannelReceiver)) {
    tokio::sync::mpsc::unbounded_channel()
}

/// Relies on `tokio::sync::mpsc::UnboundedSender::clone`: the clone feeds
/// the same queue.
#[verifier::external_body]
pub(crate) fn clone_sender(tx: &ChannelSender) -> (r: ChannelSender) {
    tx.clone()
}

/// Relies on `tokio::sync::mpsc::UnboundedSender::send`: enqueueing on an
/// unbounded channel completes at once, without blocking or suspending the
/// caller, whatever the worker is doing. It fails exactly when the receiving
/// half is gone, and then hands the message back.
#[verifier::external_body]
pub(crate) fn send_message(tx: &ChannelSender, m: WorkerMessage) -> (r: Result<(), WorkerMessage>)
    ensures
        r is Err ==> r->Err_0 == m,
{
    match tx.send(m) {
        Ok(()) => Ok(()),
        Err(e) => Err(e.0),
    }
}

/// Why a message could not be enqueued: the worker's half of the queue is
/// gone, so the worker has stopped (or was never started). Reported to the
/// caller, never raised as a panic.
#[derive(Clone, Copy, PartialEq, Eq, Structural, Debug)]
pub struct QueueClosed;

/// Signal the worker to stop. Idempotent from the caller's side: after the
/// worker has already exited, this reports `QueueClosed` rather than
/// blocking or panicking. Enqueueing never suspends the caller.
pub fn send_shutdown(tx: &ChannelSender) -> (r: Result<(), QueueClosed>) {
    match send_message(tx, WorkerMessage::Shutdown) {
        Ok(()) => Ok(()),
        Err(_) => Err(QueueClosed),
    }
}

} // verus!
