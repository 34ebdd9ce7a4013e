use vstd::prelude::*;
use tokio::sync::oneshot::error::{RecvError, TryRecvError};
use tokio::sync::oneshot::{Receiver, Sender};
use crate::completion::{classified, classify_completion};
use crate::error::{ExportError, ExportOutcome};

verus! {

#[verifier::external_type_specification]
#[verifier::external_body]
#[verifier::reject_recursive_types(T)]
pub struct ExSender<T>(Sender<T>);

#[verifier::external_type_specification]
#[verifier::external_body]
#[verifier::reject_recursive_types(T)]
pub struct ExReceiver<T>(Receiver<T>);

#[verifier::external_type_specification]
#[verifier::external_body]
pub struct ExRecvError(RecvError);

/// The value that the sending end `tx` hands to its receiver, if it sends one.
pub uninterp spec fn handed_to(tx: Sender<ExportOutcome>) -> ExportOutcome;

/// The value that the receiving end `rx` gets, if one is sent to it.
pub uninterp spec fn sent_into(rx: Receiver<ExportOutcome>) -> ExportOutcome;

/// Whether the receiving end of `tx` was gone when `tx` tried to send.
pub uninterp spec fn refused_by(tx: Sender<ExportOutcome>) -> bool;

/// Relies on tokio's `oneshot::channel`: a sender and a receiver joined to
/// each other, so that what the one sends is what the other receives.
#[verifier::external_body]
fn open_channel() -> (r: (Sender<ExportOutcome>, Receiver<ExportOutcome>))
    ensures
        handed_to(r.0) == sent_into(r.1),
{
    tokio::sync::oneshot::channel::<ExportOutcome>()
}

/// Relies on tokio's `oneshot::Sender::send`: it consumes the sender; `Ok`
/// means the value was handed to the receiver, `Err` gives the value back and
/// means the receiver was gone.
#[verifier::external_body]
fn send_once(tx: Sender<ExportOutcome>, v: ExportOutcome) -> (r: Result<(), ExportOutcome>)
    ensures
        r is Ok ==> handed_to(tx) == v,
        r is Err ==> refused_by(tx),
        r matches Err(back) ==> back == v,
{
    tx.send(v)
}

/// What one look at the receiving end of the channel found.
pub enum Receipt {
    /// The value that the delivery side sent.
    Delivered(ExportOutcome),
    /// Nothing has been sent yet, and the delivery side is still there.
    NotYet,
    /// The delivery side went away without sending, or the value was taken before.
    Closed,
}

/// Relies on tokio's `oneshot::Receiver::try_recv`: `Ok` carries the sent value,
/// `Empty` means nothing was sent yet, `Closed` that the sender was dropped or
/// the value was already received. Which one comes depends on the other side.
#[verifier::external_body]
fn try_receive(rx: &mut Receiver<ExportOutcome>) -> (r: Receipt)
    ensures
        r matches Receipt::Delivered(o) ==> o == sent_into(*old(rx)),
{
    match rx.try_recv() {
        Ok(v) => Receipt::Delivered(v),
        Err(TryRecvError::Empty) => Receipt::NotYet,
        Err(TryRecvError::Closed) => Receipt::Closed,
    }
}

/// The outcome that a look at the channel resolves to, if it resolves yet.
pub open spec fn settled(c: Receipt) -> Option<ExportOutcome> {
    match c {
        Receipt::Delivered(o) => Some(o),
        Receipt::NotYet => None,
        Receipt::Closed => Some(Err(ExportError::ChannelClosed)),
    }
}

/// Resolves a look at the channel: a delivered outcome as it is, a closed
/// channel as `ChannelClosed`, and nothing while the outcome is still due.
pub fn settle_receipt(c: Receipt) -> (r: Option<ExportOutcome>)
    ensures
        r == settled(c),
{
    match c {
        Receipt::Delivered(o) => Some(o),
        Receipt::NotYet => None,
        Receipt::Closed => Some(Err(ExportError::ChannelClosed)),
    }
}

/// Resolves what awaiting the receiving end produced: the delivered outcome,
/// or `ChannelClosed` when the delivery side was dropped without delivering.
pub fn settle_awaited(r: Result<ExportOutcome, RecvError>) -> (o: ExportOutcome)
    ensures
        r matches Ok(v) ==> o == v,
        r is Err ==> o == Err::<Vec<u8>, ExportError>(ExportError::ChannelClosed),
{
    match r {
        Ok(v) => v,
        Err(_) => Err(ExportError::ChannelClosed),
    }
}

/// The delivery half of an armed export: it hands one outcome over, and
/// ignores every later attempt.
pub struct Deliverer {
    sender: Option<Sender<ExportOutcome>>,
    first: Ghost<Option<ExportOutcome>>,
    chan: Ghost<Sender<ExportOutcome>>,
}

/// The awaiting half of an armed export.
pub struct Awaiter {
    receiver: Receiver<ExportOutcome>,
}

/// Splits one fresh single-delivery channel into its delivery and awaiting halves.
pub fn arm() -> (r: (Deliverer, Awaiter))
    ensures
        r.0.wf(),
        r.0.armed(),
        handed_to(r.0.channel()) == sent_into(r.1.receiver()),
{
    let (tx, rx) = open_channel();
    let chan = Ghost(tx);
    (Deliverer { sender: Some(tx), first: Ghost(None), chan }, Awaiter { receiver: rx })
}

/// How one call of `deliver` relates the deliverer before, the deliverer
/// after, the outcome offered and whether it was taken.
pub open spec fn delivery_step(
    before: Deliverer,
    after: Deliverer,
    v: ExportOutcome,
    accepted: bool,
) -> bool {
    &&& after.wf()
    &&& accepted == before.armed()
    &&& !after.armed()
    &&& after.channel() == before.channel()
    &&& accepted ==> (handed_to(before.channel()) == v || refused_by(before.channel()))
    &&& if accepted {
        after.delivered() == Some(v)
    } else {
        after.delivered() == before.delivered()
    }
}

impl Deliverer {
    /// The delivery slot is still open: nothing has been handed over.
    pub closed spec fn armed(&self) -> bool {
        self.sender is Some
    }

    /// The one outcome handed over, once there is one.
    pub closed spec fn delivered(&self) -> Option<ExportOutcome> {
        self.first@
    }

    /// The sending end of the channel this deliverer was armed with.
    pub closed spec fn channel(&self) -> Sender<ExportOutcome> {
        self.chan@
    }

    /// The slot is open exactly as long as nothing has been handed over, and
    /// while open it holds the channel it was armed with.
    pub closed spec fn wf(&self) -> bool {
        &&& self.sender is Some <==> self.first@ is None
        &&& self.sender matches Some(s) ==> s == self.chan@
    }

    /// Whether an outcome can still be handed over.
    pub fn is_armed(&self) -> (r: bool)
        ensures
            r == self.armed(),
    {
        self.sender.is_some()
    }

    /// Hands `outcome` to the awaiting side if nothing was handed over before;
    /// otherwise does nothing. Returns whether this call was the one.
    pub fn deliver(&mut self, outcome: ExportOutcome) -> (accepted: bool)
        requires
            old(self).wf(),
        ensures
            delivery_step(*old(self), *final(self), outcome, accepted),
    {
        match self.sender.take() {
            Some(tx) => {
                self.first = Ghost(Some(outcome));
                let _ = send_once(tx, outcome);
                true
            },
            None => false,
        }
    }

    /// The body of the native completion callback: classifies what the native
    /// subsystem reported and delivers it, once.
    pub fn on_completion(&mut self, error: Option<String>, data: Option<Vec<u8>>) -> (accepted:
        bool)
        requires
            old(self).wf(),
        ensures
            delivery_step(*old(self), *final(self), classified(error, data), accepted),
    {
        let outcome = classify_completion(error, data);
        self.deliver(outcome)
    }
}

impl Awaiter {
    /// The receiving end that this awaiter holds.
    pub closed spec fn receiver(&self) -> Receiver<ExportOutcome> {
        self.receiver
    }

    /// Looks once at the channel without waiting: `None` while the outcome is
    /// still due, else the delivered outcome, or `ChannelClosed`.
    pub fn poll_outcome(&mut self) -> (r: Option<ExportOutcome>)
        ensures
            r is None || r == Some(Err::<Vec<u8>, ExportError>(ExportError::ChannelClosed)) || r
                == Some(sent_into(old(self).receiver())),
    {
        let c = try_receive(&mut self.receiver);
        settle_receipt(c)
    }

    /// The receiving end, for a caller that awaits it and then resolves what it
    /// got with `settle_awaited`.
    pub fn into_receiver(self) -> (r: Receiver<ExportOutcome>)
        ensures
            r == self.receiver(),
    {
        self.receiver
    }
}

/// The first delivery wins: whatever a second call offers, it is refused and
/// the outcome handed over stays the first one.
pub proof fn lemma_first_delivery_wins(
    d0: Deliverer,
    d1: Deliverer,
    d2: Deliverer,
    v1: ExportOutcome,
    v2: ExportOutcome,
    a1: bool,
    a2: bool,
)
    requires
        d0.wf(),
        d0.armed(),
        delivery_step(d0, d1, v1, a1),
        delivery_step(d1, d2, v2, a2),
    ensures
        a1,
        !a2,
        d2.delivered() == Some(v1),
{
}

} // verus!
