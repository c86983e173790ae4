//! Broadcast event bus.
//!
//! A bus is a shared list of channel producers. Subscribing appends a fresh
//! unbounded channel and hands back its consumer. Emitting offers one
//! duplicate of the value to every producer on the list without ever
//! blocking, and a failed delivery never stops the deliveries after it.

use vstd::prelude::*;
use std::sync::Arc;
use crossbeam_channel::Receiver;
use crossbeam_channel::Sender;
use crossbeam_channel::TrySendError;
use parking_lot::RwLock;
use parking_lot::RwLockReadGuard;
use parking_lot::RwLockWriteGuard;

verus! {

/// The producing end of a `crossbeam_channel` channel. Opaque: the channel's
/// buffer is shared with the consumer and is never a function of this value.
#[verifier::external_type_specification]
#[verifier::external_body]
#[verifier::reject_recursive_types(T)]
pub struct ExSender<T>(Sender<T>);

/// The consuming end of a `crossbeam_channel` channel. Opaque, as the producer.
#[verifier::external_type_specification]
#[verifier::external_body]
#[verifier::reject_recursive_types(T)]
pub struct ExReceiver<T>(Receiver<T>);

/// `parking_lot`'s raw reader-writer lock, the first parameter of its `RwLock`.
#[verifier::external_type_specification]
#[verifier::external_body]
pub struct ExRawRwLock(parking_lot::RawRwLock);

/// `lock_api::RwLock`, which `parking_lot::RwLock` is an alias of. Opaque:
/// what it protects can change under any shared reference.
#[verifier::external_type_specification]
#[verifier::external_body]
#[verifier::reject_recursive_types(R)]
#[verifier::reject_recursive_types(V)]
pub struct ExRwLock<R, V: ?Sized>(parking_lot::lock_api::RwLock<R, V>);

/// Shared access to what a `parking_lot::RwLock` protects, released on drop.
/// Holds `parking_lot::RwLockReadGuard`, whose own declaration is bounded by
/// a trait of `lock_api`.
#[verifier::external_body]
#[verifier::reject_recursive_types(V)]
struct ReadGuard<'a, V> {
    inner: RwLockReadGuard<'a, V>,
}

/// Exclusive access to what a `parking_lot::RwLock` protects, released on
/// drop. Holds `parking_lot::RwLockWriteGuard`.
#[verifier::external_body]
#[verifier::reject_recursive_types(V)]
struct WriteGuard<'a, V> {
    inner: RwLockWriteGuard<'a, V>,
}

/// Why one subscriber did not get its duplicate. Either way the undelivered
/// message is handed back.
#[derive(Debug)]
pub enum DeliveryError<T> {
    /// The subscriber's buffer has a capacity and it is used up.
    Full(T),
    /// The subscriber dropped its consumer.
    Disconnected(T),
}

/// Why a non-blocking emit did not report success.
#[derive(Debug)]
pub enum EmitError<T> {
    /// The subscriber list was locked for writing: somebody is subscribing.
    LockError,
    /// The list was read and a delivery failed.
    TrySendError(DeliveryError<T>),
}

/// What happened to the duplicate offered to one subscriber.
pub type Delivery<T> = Result<(), DeliveryError<T>>;

impl<T> DeliveryError<T> {
    /// The message that was not delivered.
    pub open spec fn message(self) -> T {
        match self {
            DeliveryError::Full(m) => m,
            DeliveryError::Disconnected(m) => m,
        }
    }

    /// Takes the undelivered message back out.
    pub fn into_inner(self) -> (m: T)
        ensures
            m == self.message(),
    {
        match self {
            DeliveryError::Full(m) => m,
            DeliveryError::Disconnected(m) => m,
        }
    }

    /// Whether the failure is a used-up buffer.
    pub fn is_full(&self) -> (b: bool)
        ensures
            b == (*self is Full),
    {
        match self {
            DeliveryError::Full(_) => true,
            DeliveryError::Disconnected(_) => false,
        }
    }

    /// Whether the failure is a dropped consumer.
    pub fn is_disconnected(&self) -> (b: bool)
        ensures
            b == (*self is Disconnected),
    {
        match self {
            DeliveryError::Full(_) => false,
            DeliveryError::Disconnected(_) => true,
        }
    }

    /// The failure in words.
    pub fn describe(&self) -> (text: String)
        ensures
            *self is Full ==> text@ == "sending on a full channel"@,
            *self is Disconnected ==> text@ == "sending on a disconnected channel"@,
    {
        match self {
            DeliveryError::Full(_) => "sending on a full channel".to_owned(),
            DeliveryError::Disconnected(_) => "sending on a disconnected channel".to_owned(),
        }
    }
}

impl<T> EmitError<T> {
    /// The failure in words.
    pub fn describe(&self) -> (text: String)
        ensures
            *self is LockError ==> text@
                == "Could not aquire event lock; someone could be subscribing to the event."@,
            *self matches EmitError::TrySendError(e) ==> (e is Full ==> text@
                == "sending on a full channel"@) && (e is Disconnected ==> text@
                == "sending on a disconnected channel"@),
    {
        match self {
            EmitError::LockError => {
                "Could not aquire event lock; someone could be subscribing to the event.".to_owned()
            },
            EmitError::TrySendError(e) => e.describe(),
        }
    }
}

/// `crossbeam_channel::unbounded`: a new channel of unbounded capacity, as
/// its two ends. Nothing is claimed of them here: what a consumer yields
/// depends on every later send, from any thread.
#[verifier::external_body]
fn open_channel<T>() -> (ends: (Sender<T>, Receiver<T>))
{
    crossbeam_channel::unbounded()
}

/// `crossbeam_channel::Sender::try_send`: offers the message without
/// blocking. Whether it is taken depends on the channel; a refusal hands the
/// very message back, under the variant of the same name.
#[verifier::external_body]
fn try_send<T>(sender: &Sender<T>, message: T) -> (outcome: Delivery<T>)
    ensures
        outcome matches Err(e) ==> e.message() == message,
{
    match sender.try_send(message) {
        Ok(()) => Ok(()),
        Err(TrySendError::Full(m)) => Err(DeliveryError::Full(m)),
        Err(TrySendError::Disconnected(m)) => Err(DeliveryError::Disconnected(m)),
    }
}

/// `parking_lot::RwLock::new`: an unlocked lock around the value.
#[verifier::external_body]
fn lock_new<V>(value: V) -> (lock: RwLock<V>)
{
    RwLock::new(value)
}

/// `parking_lot::RwLock::read`: waits for shared access.
#[verifier::external_body]
fn lock_read<'a, V>(lock: &'a RwLock<V>) -> (guard: ReadGuard<'a, V>)
{
    ReadGuard { inner: lock.read() }
}

/// `parking_lot::RwLock::try_read`: shared access if it can be had at once,
/// else `None`. Which of the two depends on the other holders.
#[verifier::external_body]
fn lock_try_read<'a, V>(lock: &'a RwLock<V>) -> (guard: Option<ReadGuard<'a, V>>)
{
    match lock.try_read() {
        Some(inner) => Some(ReadGuard { inner }),
        None => None,
    }
}

/// `parking_lot::RwLock::write`: waits for exclusive access.
#[verifier::external_body]
fn lock_write<'a, V>(lock: &'a RwLock<V>) -> (guard: WriteGuard<'a, V>)
{
    WriteGuard { inner: lock.write() }
}

/// `Deref::deref` of `parking_lot::RwLockReadGuard`: the protected value.
#[verifier::external_body]
fn read_guarded<'a, 'b, V>(guard: &'b ReadGuard<'a, V>) -> (value: &'b V)
{
    &*guard.inner
}

/// `DerefMut::deref_mut` of `parking_lot::RwLockWriteGuard`: the protected
/// value, for writing.
#[verifier::external_body]
fn write_guarded<'a, 'b, V>(guard: &'b mut WriteGuard<'a, V>) -> (value: &'b mut V)
{
    &mut *guard.inner
}

/// Every delivery went through.
pub open spec fn all_delivered<T>(outcomes: Seq<Delivery<T>>) -> bool {
    forall|i: int| 0 <= i < outcomes.len() ==> (#[trigger] outcomes[i]) is Ok
}

/// The delivery at `at` failed and none before it did.
pub open spec fn first_failure_at<T>(outcomes: Seq<Delivery<T>>, at: int) -> bool {
    &&& 0 <= at < outcomes.len()
    &&& outcomes[at] is Err
    &&& forall|j: int| 0 <= j < at ==> (#[trigger] outcomes[j]) is Ok
}

/// The aggregate of a round of deliveries: success if all went through, else
/// the earliest failure.
pub open spec fn aggregate<T>(outcomes: Seq<Delivery<T>>) -> Delivery<T> {
    if all_delivered(outcomes) {
        Ok(())
    } else {
        outcomes[choose|at: int| first_failure_at(outcomes, at)]
    }
}

/// A round with a failure has exactly one earliest failure.
pub proof fn lemma_first_failure_unique<T>(outcomes: Seq<Delivery<T>>, a: int, b: int)
    requires
        first_failure_at(outcomes, a),
        first_failure_at(outcomes, b),
    ensures
        a == b,
{
    if a < b {
        assert(outcomes[a] is Ok);
    } else if b < a {
        assert(outcomes[b] is Ok);
    }
}

/// Offers one duplicate of `data` to every producer, in list order. Every
/// producer is tried: a refusal is recorded and the round goes on.
pub fn deliver<T: Clone>(senders: &Vec<Sender<T>>, data: &T) -> (outcomes: Vec<Delivery<T>>)
    ensures
        outcomes@.len() == senders@.len(),
        forall|i: int|
            0 <= i < outcomes@.len() ==> ((#[trigger] outcomes@[i]) matches Err(e) ==> cloned(
                *data,
                e.message(),
            )),
{
    let mut outcomes: Vec<Delivery<T>> = Vec::new();
    let mut i: usize = 0;
    while i < senders.len()
        invariant
            i <= senders@.len(),
            outcomes@.len() == i,
            forall|k: int|
                0 <= k < outcomes@.len() ==> ((#[trigger] outcomes@[k]) matches Err(e) ==> cloned(
                    *data,
                    e.message(),
                )),
        decreases senders@.len() - i,
    {
        let outcome = try_send(&senders[i], data.clone());
        outcomes.push(outcome);
        i += 1;
    }
    outcomes
}

/// Reduces a round of deliveries to one result: `Ok` if and only if every
/// delivery went through, else the earliest failure with its message.
pub fn summarize<T>(outcomes: Vec<Delivery<T>>) -> (result: Delivery<T>)
    ensures
        result == aggregate(outcomes@),
        result is Ok <==> all_delivered(outcomes@),
        result is Err ==> exists|at: int|
            first_failure_at(outcomes@, at) && outcomes@[at] == result,
{
    let mut round = outcomes;
    let mut i: usize = 0;
    while i < round.len()
        invariant
            round@ == outcomes@,
            i <= round@.len(),
            forall|j: int| 0 <= j < i ==> (#[trigger] outcomes@[j]) is Ok,
        decreases round@.len() - i,
    {
        if round[i].is_err() {
            proof {
                assert(outcomes@[i as int] is Err);
                assert(first_failure_at(outcomes@, i as int));
                let w = choose|at: int| first_failure_at(outcomes@, at);
                lemma_first_failure_unique(outcomes@, w, i as int);
            }
            return round.remove(i);
        }
        i += 1;
    }
    Ok(())
}

/// Broadcasts `data` to every producer in `senders` and reports the earliest
/// failure, if any. No producer is skipped on account of an earlier failure.
pub fn emit<T: Clone>(senders: &Vec<Sender<T>>, data: &T) -> (result: Delivery<T>)
    ensures
        senders@.len() == 0 ==> result is Ok,
        result matches Err(e) ==> cloned(*data, e.message()),
{
    let outcomes = deliver(senders, data);
    proof {
        if outcomes@.len() == 0 {
            assert(all_delivered(outcomes@));
        }
    }
    summarize(outcomes)
}

/// The shared state of a bus: its producers, behind a reader-writer lock.
/// Emitters share the lock; a subscriber holds it alone while it appends.
#[verifier::reject_recursive_types(T)]
pub struct InnerEventHandler<T> {
    senders: RwLock<Vec<Sender<T>>>,
}

/// A handle to a bus. Clones share one subscriber list.
#[verifier::reject_recursive_types(T)]
pub struct EventHandler<T> {
    pub(crate) inner: Arc<InnerEventHandler<T>>,
}

impl<T: Clone> InnerEventHandler<T> {
    /// A bus without subscribers.
    pub fn new() -> (bus: Self) {
        InnerEventHandler { senders: lock_new(Vec::new()) }
    }

    /// Broadcasts `data` to every subscriber of the moment, waiting only for
    /// shared access to the list. Reports the earliest failed delivery.
    pub fn emit(&self, data: &T) -> (result: Delivery<T>)
        ensures
            result matches Err(e) ==> cloned(*data, e.message()),
    {
        let guard = lock_read(&self.senders);
        self::emit(read_guarded(&guard), data)
    }

    /// As `emit`, but gives up with `LockError` rather than wait for the list.
    pub fn try_emit(&self, data: &T) -> (result: Result<(), EmitError<T>>)
        ensures
            result matches Err(EmitError::TrySendError(e)) ==> cloned(*data, e.message()),
    {
        let guard = lock_try_read(&self.senders);
        let list = match &guard {
            Some(guard) => Some(read_guarded(guard)),
            None => None,
        };
        emit_if_readable(list, data)
    }

    /// Appends a fresh unbounded channel to the list and returns its consumer.
    pub fn subscribe(&self) -> (consumer: Receiver<T>) {
        let mut guard = lock_write(&self.senders);
        enroll(write_guarded(&mut guard), open_channel::<T>())
    }
}

/// Puts the producing end of a channel on the list, after every producer
/// that is on it, and hands back the consuming end.
pub fn enroll<T>(
    list: &mut Vec<Sender<T>>,
    ends: (Sender<T>, Receiver<T>),
) -> (consumer: Receiver<T>)
    ensures
        final(list)@ == old(list)@.push(ends.0),
        consumer == ends.1,
{
    let (sender, receiver) = ends;
    list.push(sender);
    receiver
}

/// What a non-blocking emit reports: `LockError` exactly when the list could
/// not be read, and else what broadcasting to the list gives.
pub fn emit_if_readable<T: Clone>(
    list: Option<&Vec<Sender<T>>>,
    data: &T,
) -> (result: Result<(), EmitError<T>>)
    ensures
        list is None <==> (result matches Err(EmitError::LockError)),
        list matches Some(senders) ==> (senders@.len() == 0 ==> result is Ok),
        result matches Err(EmitError::TrySendError(e)) ==> cloned(*data, e.message()),
{
    match list {
        None => Err(EmitError::LockError),
        Some(senders) => emit_outcome(self::emit(senders, data)),
    }
}

/// What `try_emit` reports for a round whose list could be read.
pub fn emit_outcome<T>(round: Delivery<T>) -> (result: Result<(), EmitError<T>>)
    ensures
        result == match round {
            Ok(()) => Ok::<(), EmitError<T>>(()),
            Err(e) => Err(EmitError::TrySendError(e)),
        },
{
    match round {
        Ok(()) => Ok(()),
        Err(e) => Err(EmitError::TrySendError(e)),
    }
}

impl<T> EventHandler<T> {
    /// The bus that this handle refers to.
    pub closed spec fn shared(&self) -> Arc<InnerEventHandler<T>> {
        self.inner
    }
}

impl<T: Clone> EventHandler<T> {
    /// A handle to a new bus without subscribers.
    pub fn new() -> (bus: Self) {
        EventHandler { inner: Arc::new(InnerEventHandler::new()) }
    }
}

impl<T: Default> Default for InnerEventHandler<T> {
    /// A bus without subscribers.
    fn default() -> (bus: Self) {
        InnerEventHandler { senders: lock_new(Vec::new()) }
    }
}

impl<T: Default> Default for EventHandler<T> {
    /// A handle to a new bus without subscribers.
    fn default() -> (bus: Self) {
        EventHandler { inner: Arc::new(InnerEventHandler::default()) }
    }
}

impl<T> Clone for EventHandler<T> {
    /// Another handle to the same bus.
    fn clone(&self) -> (other: Self)
        ensures
            other == *self,
    {
        EventHandler { inner: self.inner.clone() }
    }
}

impl<T> std::ops::Deref for EventHandler<T> {
    type Target = Arc<InnerEventHandler<T>>;

    fn deref(&self) -> (shared: &Arc<InnerEventHandler<T>>)
        ensures
            *shared == self.shared(),
    {
        &self.inner
    }
}

} // verus!
