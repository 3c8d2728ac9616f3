//! The bounded command queue through which new configurations reach a stream
//! engine. The storage is `embassy_sync`'s channel; this module states what
//! its non-blocking operations do to the queued values.

use vstd::prelude::*;
use embassy_sync::blocking_mutex::raw::NoopRawMutex;
use embassy_sync::channel::Channel;
use crate::config::StreamConfig;

verus! {

/// How many configurations a command queue holds at most.
pub const QUEUE_CAPACITY: usize = 4;

/// A first-in first-out queue of at most [`QUEUE_CAPACITY`] configurations,
/// kept in an `embassy_sync::channel::Channel`. The channel is owned here and
/// no sender or receiver handle of it is ever given out, so only the
/// functions of this module change what it holds.
#[verifier::external_body]
pub struct CommandQueue {
    channel: Channel<NoopRawMutex, StreamConfig, QUEUE_CAPACITY>,
}

/// The configurations waiting in the queue, oldest first.
pub uninterp spec fn queued(queue: CommandQueue) -> Seq<StreamConfig>;

impl View for CommandQueue {
    type V = Seq<StreamConfig>;

    open spec fn view(&self) -> Seq<StreamConfig> {
        queued(*self)
    }
}

/// Whether a queue that holds `pending` takes one more value.
pub open spec fn spec_has_room(pending: Seq<StreamConfig>) -> bool {
    pending.len() < QUEUE_CAPACITY
}

/// What the queue holds after `config` was offered to it without waiting:
/// the value goes to the back if there is room and is lost otherwise.
pub open spec fn spec_offer(pending: Seq<StreamConfig>, config: StreamConfig) -> Seq<StreamConfig> {
    if spec_has_room(pending) {
        pending.push(config)
    } else {
        pending
    }
}

/// What the queue holds after the values of `configs` were offered one after
/// the other, with nothing taken out in between.
pub open spec fn spec_offer_all(pending: Seq<StreamConfig>, configs: Seq<StreamConfig>) -> Seq<StreamConfig>
    decreases configs.len(),
{
    if configs.len() == 0 {
        pending
    } else {
        spec_offer_all(spec_offer(pending, configs[0]), configs.drop_first())
    }
}

/// How many of those offers were taken.
pub open spec fn spec_taken(pending: Seq<StreamConfig>, configs: Seq<StreamConfig>) -> nat
    decreases configs.len(),
{
    if configs.len() == 0 {
        0
    } else {
        (if spec_has_room(pending) { 1nat } else { 0nat }) + spec_taken(
            spec_offer(pending, configs[0]),
            configs.drop_first(),
        )
    }
}

/// `Channel::new`: a channel whose backing deque starts out empty.
#[verifier::external_body]
fn queue_new() -> (queue: CommandQueue)
    ensures
        queued(queue) == Seq::<StreamConfig>::empty(),
{
    CommandQueue { channel: Channel::new() }
}

/// `Channel::try_send`: pushes the value at the back of the deque and returns
/// `Ok` while fewer than four values are held; with four held it returns
/// `TrySendError::Full` and leaves the deque as it was. The result here is
/// whether the value was taken.
#[verifier::external_body]
fn queue_try_send(queue: &mut CommandQueue, config: StreamConfig) -> (sent: bool)
    ensures
        sent == (queued(*old(queue)).len() < QUEUE_CAPACITY),
        sent ==> queued(*final(queue)) == queued(*old(queue)).push(config),
        !sent ==> queued(*final(queue)) == queued(*old(queue)),
{
    queue.channel.try_send(config).is_ok()
}

/// `Channel::try_receive`: pops the value at the front of the deque, or
/// returns `TryReceiveError::Empty` and changes nothing when the deque is
/// empty.
#[verifier::external_body]
fn queue_try_receive(queue: &mut CommandQueue) -> (received: Option<StreamConfig>)
    ensures
        queued(*old(queue)).len() == 0 ==> received.is_none()
            && queued(*final(queue)) == queued(*old(queue)),
        queued(*old(queue)).len() > 0 ==> received == Some(queued(*old(queue)).first())
            && queued(*final(queue)) == queued(*old(queue)).drop_first(),
{
    queue.channel.try_receive().ok()
}

/// `Channel::len`: the number of values held.
#[verifier::external_body]
fn queue_len(queue: &CommandQueue) -> (n: usize)
    ensures
        n == queued(*queue).len(),
{
    queue.channel.len()
}

impl CommandQueue {
    /// An empty queue.
    pub fn new() -> (queue: CommandQueue)
        ensures
            queue@ == Seq::<StreamConfig>::empty(),
    {
        queue_new()
    }

    /// Offers a value without waiting. With room left it is queued behind
    /// those already there; with the queue full it is handed back and the
    /// queue stays as it was.
    pub fn try_send(&mut self, config: StreamConfig) -> (result: Result<(), StreamConfig>)
        ensures
            spec_has_room(old(self)@) ==> result == Ok::<(), StreamConfig>(()),
            !spec_has_room(old(self)@) ==> result == Err::<(), StreamConfig>(config),
            final(self)@ == spec_offer(old(self)@, config),
    {
        if queue_try_send(self, config) {
            Ok(())
        } else {
            Err(config)
        }
    }

    /// Takes the oldest value out without waiting, or returns `None` when
    /// the queue is empty.
    pub fn try_receive(&mut self) -> (received: Option<StreamConfig>)
        ensures
            old(self)@.len() == 0 ==> received.is_none() && final(self)@ == old(self)@,
            old(self)@.len() > 0 ==> received == Some(old(self)@.first()) && final(self)@ == old(
                self,
            )@.drop_first(),
    {
        queue_try_receive(self)
    }

    /// The number of values that wait.
    pub fn len(&self) -> (n: usize)
        ensures
            n == self@.len(),
    {
        queue_len(self)
    }
}

/// Offers made in a row to a queue that nothing drains are taken until the
/// queue holds four values and are refused from then on: of `configs.len()`
/// offers to a queue holding `pending.len()` values, at most four, exactly as
/// many are taken as there is room for, and they are queued in the order in
/// which they were made.
pub proof fn lemma_offers_fill_to_capacity(pending: Seq<StreamConfig>, configs: Seq<StreamConfig>)
    requires
        pending.len() <= QUEUE_CAPACITY,
    ensures
        spec_taken(pending, configs) == if configs.len() <= QUEUE_CAPACITY - pending.len() {
            configs.len() as int
        } else {
            QUEUE_CAPACITY - pending.len()
        },
        spec_offer_all(pending, configs) == pending + configs.take(spec_taken(pending, configs) as int),
    decreases configs.len(),
{
    if configs.len() == 0 {
        assert(configs.take(0) =~= Seq::<StreamConfig>::empty());
        assert(pending + configs.take(0) =~= pending);
    } else {
        let next = spec_offer(pending, configs[0]);
        let rest = configs.drop_first();
        lemma_offers_fill_to_capacity(next, rest);
        let k = spec_taken(next, rest) as int;
        if spec_has_room(pending) {
            assert(configs.take(k + 1) =~= seq![configs[0]] + rest.take(k));
            assert(pending.push(configs[0]) + rest.take(k) =~= pending + configs.take(k + 1));
        } else {
            assert(k == 0);
            assert(rest.take(0) =~= Seq::<StreamConfig>::empty());
            assert(configs.take(0) =~= Seq::<StreamConfig>::empty());
            assert(pending + rest.take(0) =~= pending + configs.take(0));
        }
    }
}

} // verus!
