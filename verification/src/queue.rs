//! The queue on which backends leave events for the host to collect.

use vstd::prelude::*;
use crossbeam_channel::{Receiver, Sender, TryRecvError, TrySendError};

use crate::types::ImeEvent;

verus! {

/// How many events wait for the host before new ones are dropped.
pub const EVENT_QUEUE_CAPACITY: usize = 64;

/// The sending half of a channel.
#[verifier::external_type_specification]
#[verifier::external_body]
#[verifier::reject_recursive_types(T)]
pub struct ExSender<T>(crossbeam_channel::Sender<T>);

/// The receiving half of a channel.
#[verifier::external_type_specification]
#[verifier::external_body]
#[verifier::reject_recursive_types(T)]
pub struct ExReceiver<T>(crossbeam_channel::Receiver<T>);

/// Why a channel gave nothing.
#[verifier::external_type_specification]
#[verifier::external_body]
pub struct ExTryRecvError(crossbeam_channel::TryRecvError);

/// Why a channel took nothing.
#[verifier::external_type_specification]
#[verifier::external_body]
#[verifier::reject_recursive_types(T)]
pub struct ExTrySendError<T>(crossbeam_channel::TrySendError<T>);

/// How many events the channel behind a sender was made to hold.
pub uninterp spec fn sender_capacity(tx: crossbeam_channel::Sender<ImeEvent>) -> Option<nat>;

/// How many events the channel behind a receiver was made to hold.
pub uninterp spec fn receiver_capacity(rx: crossbeam_channel::Receiver<ImeEvent>) -> Option<nat>;

/// Whether a sender and a receiver are halves of one channel.
pub uninterp spec fn connected(
    tx: crossbeam_channel::Sender<ImeEvent>,
    rx: crossbeam_channel::Receiver<ImeEvent>,
) -> bool;

/// `crossbeam_channel::bounded` makes a channel that holds up to `capacity`
/// events, and returns its two halves. It panics on a capacity close to the
/// largest `usize`, hence the bound.
#[verifier::external_body]
fn bounded(capacity: usize) -> (halves: (Sender<ImeEvent>, Receiver<ImeEvent>))
    requires
        capacity <= 0xffff,
    ensures
        sender_capacity(halves.0) == Some(capacity as nat),
        receiver_capacity(halves.1) == Some(capacity as nat),
        connected(halves.0, halves.1),
{
    crossbeam_channel::bounded(capacity)
}

/// `Receiver::try_recv` takes the oldest message out of the channel, or says
/// that there is none, without waiting. Which of the two happens, and which
/// message it is, depends on what other threads have sent by then, so nothing
/// is claimed of the result.
pub assume_specification<T>[ crossbeam_channel::Receiver::<T>::try_recv ](
    rx: &crossbeam_channel::Receiver<T>,
) -> (received: Result<T, crossbeam_channel::TryRecvError>)
;

/// `Sender::try_send` puts a message into the channel, or hands it back where
/// the channel is full or has no receiver any more, without waiting. Which of
/// these happens depends on what other threads have received by then, so
/// nothing is claimed of the result.
pub assume_specification<T>[ crossbeam_channel::Sender::<T>::try_send ](
    tx: &crossbeam_channel::Sender<T>,
    msg: T,
) -> (sent: Result<(), crossbeam_channel::TrySendError<T>>)
;

/// Makes the queue for one input context: backends send, the engine receives.
pub fn event_queue() -> (halves: (Sender<ImeEvent>, Receiver<ImeEvent>))
    ensures
        sender_capacity(halves.0) == Some(EVENT_QUEUE_CAPACITY as nat),
        receiver_capacity(halves.1) == Some(EVENT_QUEUE_CAPACITY as nat),
        connected(halves.0, halves.1),
{
    bounded(EVENT_QUEUE_CAPACITY)
}

/// What came out of an attempt to receive. An empty queue and one without
/// senders give none alike.
pub open spec fn item_of<E>(received: Result<E, TryRecvError>) -> Option<E> {
    match received {
        Ok(item) => Some(item),
        Err(_) => None,
    }
}

/// What came out of an attempt to receive, whatever it is.
pub fn received_item<E>(received: Result<E, TryRecvError>) -> (item: Option<E>)
    ensures
        item == item_of(received),
{
    match received {
        Ok(item) => Some(item),
        Err(_) => None,
    }
}

/// The event that came out of an attempt to receive one. An empty queue and
/// one without senders give none alike.
pub fn received_event(received: Result<ImeEvent, TryRecvError>) -> (event: Option<ImeEvent>)
    ensures
        event == (match received {
            Ok(e) => Some(e),
            Err(_) => None,
        }),
{
    received_item(received)
}

/// Whether one receive on a channel in which `before` was waiting can have come
/// to `received` and left `after`: the first in line is taken, and nothing
/// else.
pub open spec fn takes_next<E>(
    before: Seq<E>,
    received: Result<E, TryRecvError>,
    after: Seq<E>,
) -> bool {
    match received {
        Ok(item) => before.len() > 0 && item == before[0] && after == before.skip(1),
        Err(_) => before.len() == 0 && after == before,
    }
}

/// A poll hands out the first of the waiting events and leaves the rest in
/// line; where none is waiting, it hands out none and leaves it at that.
pub proof fn poll_takes_the_first<E>(
    before: Seq<E>,
    received: Result<E, TryRecvError>,
    after: Seq<E>,
)
    requires
        takes_next(before, received, after),
    ensures
        before.len() > 0 ==> item_of(received) == Some(before[0]) && seq![before[0]] + after
            == before,
        before.len() == 0 ==> item_of(received) is None && after.len() == 0,
{
    if before.len() > 0 {
        assert(seq![before[0]] + after =~= before);
    }
}

/// Polls hand out the waiting events one by one, in the order in which they
/// were waiting, none left out and none twice, and then none; what was not
/// polled is still waiting.
pub proof fn polls_lose_nothing<E>(
    waiting: Seq<Seq<E>>,
    received: Seq<Result<E, TryRecvError>>,
    polls: int,
)
    requires
        0 <= polls <= received.len(),
        waiting.len() == received.len() + 1,
        forall|i: int|
            #![trigger received[i]]
            0 <= i < received.len() ==> takes_next(waiting[i], received[i], waiting[i + 1]),
    ensures
        forall|i: int|
            #![trigger received[i]]
            0 <= i < polls ==> item_of(received[i]) == (if i < waiting[0].len() {
                Some(waiting[0][i])
            } else {
                None
            }),
        waiting[polls] == (if polls < waiting[0].len() {
            waiting[0].skip(polls)
        } else {
            Seq::empty()
        }),
    decreases polls,
{
    if polls == 0 {
        assert(waiting[0].skip(0) =~= waiting[0]);
        if waiting[0].len() == 0 {
            assert(waiting[0] =~= Seq::empty());
        }
    } else {
        polls_lose_nothing(waiting, received, polls - 1);
        let last = received[polls - 1];
        assert(takes_next(waiting[polls - 1], last, waiting[polls - 1 + 1]));
        assert(waiting[0].len() >= polls ==> waiting[0].skip(polls - 1).skip(1)
            =~= waiting[0].skip(polls));
        assert(waiting[polls] =~= (if polls < waiting[0].len() {
            waiting[0].skip(polls)
        } else {
            Seq::empty()
        }));
    }
}

/// Puts `event` on the queue, without waiting. An event that finds the queue
/// full, or the engine gone, is dropped, and the error says which it was. That
/// the event is sent only once is left unsaid by the contract.
pub fn send_event(tx: &Sender<ImeEvent>, event: ImeEvent) -> (sent: Result<
    (),
    TrySendError<ImeEvent>,
>)
    ensures
        call_ensures(Sender::<ImeEvent>::try_send, (tx, event), sent),
{
    tx.try_send(event)
}

} // verus!
