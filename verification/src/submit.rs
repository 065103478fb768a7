//! The deferred submission queue: command buffers that are ready to be
//! submitted wait here, in the order in which they became ready, until the
//! frame loop takes them out.
//!
//! The queue is a bounded channel. It never drops an entry: a producer that
//! finds it full has to wait for the consumer.

use vstd::prelude::*;

verus! {

/// The sending end of a channel of the `crossbeam_channel` crate.
#[verifier::external_type_specification]
#[verifier::external_body]
#[verifier::reject_recursive_types(T)]
pub struct ExSender<T>(crossbeam_channel::Sender<T>);

/// The receiving end of a channel of the `crossbeam_channel` crate.
#[verifier::external_type_specification]
#[verifier::external_body]
#[verifier::reject_recursive_types(T)]
pub struct ExReceiver<T>(crossbeam_channel::Receiver<T>);

/// The messages that wait in the channel whose two ends these are, the one
/// sent first at the front.
pub uninterp spec fn waiting(
    channel: (crossbeam_channel::Sender<u64>, crossbeam_channel::Receiver<u64>),
) -> Seq<u64>;

/// The capacity that the channel was made with, where the two ends are the
/// two ends of one bounded channel; zero where they are not.
pub uninterp spec fn bound(
    channel: (crossbeam_channel::Sender<u64>, crossbeam_channel::Receiver<u64>),
) -> nat;

/// The largest capacity that a channel is asked to have.
pub const MAX_CAPACITY: usize = 65536;

/// `crossbeam_channel::bounded`: the two ends of a new channel that holds
/// at most `capacity` messages and holds none yet. The crate refuses a
/// capacity of zero for its array channel and a capacity so large that its
/// index arithmetic overflows; both are kept out.
#[verifier::external_body]
fn channel_bounded(capacity: usize) -> (channel: (
    crossbeam_channel::Sender<u64>,
    crossbeam_channel::Receiver<u64>,
))
    requires
        1 <= capacity <= MAX_CAPACITY,
    ensures
        bound(channel) == capacity,
        waiting(channel) == Seq::<u64>::empty(),
{
    crossbeam_channel::bounded(capacity)
}

/// `crossbeam_channel::Sender::send` on a channel with room: the message is
/// added behind those that wait. Both ends are held here, so the channel is
/// never disconnected, and with room left the call does not block.
#[verifier::external_body]
fn channel_send(
    channel: &mut (crossbeam_channel::Sender<u64>, crossbeam_channel::Receiver<u64>),
    message: u64,
)
    requires
        waiting(*old(channel)).len() < bound(*old(channel)),
    ensures
        bound(*final(channel)) == bound(*old(channel)),
        waiting(*final(channel)) == waiting(*old(channel)).push(message),
    no_unwind
{
    let _ = channel.0.send(message);
}

/// `crossbeam_channel::Receiver::try_recv` on a bounded channel: the
/// message that has waited longest is taken out, or nothing where none
/// waits. The call never blocks.
#[verifier::external_body]
fn channel_try_recv(
    channel: &mut (crossbeam_channel::Sender<u64>, crossbeam_channel::Receiver<u64>),
) -> (message: Option<u64>)
    requires
        bound(*old(channel)) > 0,
    ensures
        bound(*final(channel)) == bound(*old(channel)),
        waiting(*old(channel)).len() == 0 ==> message is None && waiting(*final(channel))
            == waiting(*old(channel)),
        waiting(*old(channel)).len() > 0 ==> message == Some(waiting(*old(channel))[0])
            && waiting(*final(channel)) == waiting(*old(channel)).skip(1),
    no_unwind
{
    channel.1.try_recv().ok()
}

/// `crossbeam_channel::Receiver::len`: the number of messages that wait.
#[verifier::external_body]
fn channel_len(
    channel: &(crossbeam_channel::Sender<u64>, crossbeam_channel::Receiver<u64>),
) -> (n: usize)
    requires
        bound(*channel) > 0,
    ensures
        n == waiting(*channel).len(),
{
    channel.1.len()
}

/// A command buffer that is ready to be submitted.
#[derive(Clone, Copy, Debug, PartialEq, Eq, Structural)]
pub struct DeferredSubmit {
    /// The raw handle of the command buffer.
    pub cmd: u64,
}

/// The number of entries that the queue holds at most.
pub const DEFERRED_SUBMIT_CAPACITY: usize = 16;

/// The queue once `cmd` has been offered to it: `cmd` waits behind the
/// others where there was room, and the queue is as before where there was
/// none.
pub open spec fn after_submit(waiting: Seq<u64>, cmd: u64) -> Seq<u64> {
    if waiting.len() < DEFERRED_SUBMIT_CAPACITY {
        waiting.push(cmd)
    } else {
        waiting
    }
}

/// The entry that the consumer gets next: the one that has waited longest.
pub open spec fn next_out(waiting: Seq<u64>) -> Option<DeferredSubmit> {
    if waiting.len() > 0 {
        Some(DeferredSubmit { cmd: waiting[0] })
    } else {
        None
    }
}

/// The queue once the consumer has taken its next entry.
pub open spec fn after_take(waiting: Seq<u64>) -> Seq<u64> {
    if waiting.len() > 0 {
        waiting.skip(1)
    } else {
        waiting
    }
}

/// The command buffers of a list of entries.
pub open spec fn handles(entries: Seq<DeferredSubmit>) -> Seq<u64> {
    Seq::new(entries.len(), |i: int| entries[i].cmd)
}

/// The queue of deferred submissions.
pub struct DeferredSubmits {
    channel: (crossbeam_channel::Sender<u64>, crossbeam_channel::Receiver<u64>),
}

impl View for DeferredSubmits {
    type V = Seq<u64>;

    /// The handles of the command buffers that wait, the one queued first at
    /// the front.
    closed spec fn view(&self) -> Seq<u64> {
        waiting(self.channel)
    }
}

impl DeferredSubmits {
    #[verifier::type_invariant]
    spec fn inv(&self) -> bool {
        bound(self.channel) == DEFERRED_SUBMIT_CAPACITY && waiting(self.channel).len()
            <= DEFERRED_SUBMIT_CAPACITY
    }

    /// An empty queue with room for sixteen entries.
    pub fn new() -> (queue: DeferredSubmits)
        ensures
            queue@ == Seq::<u64>::empty(),
    {
        DeferredSubmits { channel: channel_bounded(DEFERRED_SUBMIT_CAPACITY) }
    }

    /// The number of entries that wait.
    pub fn len(&self) -> (n: usize)
        ensures
            n == self@.len(),
            n <= DEFERRED_SUBMIT_CAPACITY,
    {
        proof {
            use_type_invariant(self);
        }
        channel_len(&self.channel)
    }

    /// Whether the queue has no room left.
    pub fn is_full(&self) -> (full: bool)
        ensures
            full == (self@.len() >= DEFERRED_SUBMIT_CAPACITY),
    {
        self.len() >= DEFERRED_SUBMIT_CAPACITY
    }

    /// Queues the command buffer `cmd` behind the entries that wait. The
    /// queue must have room: a producer that finds it full waits for the
    /// consumer and then queues.
    pub fn deferred_submit(&mut self, cmd: u64)
        requires
            old(self)@.len() < DEFERRED_SUBMIT_CAPACITY,
        ensures
            final(self)@ == old(self)@.push(cmd),
            final(self)@ == after_submit(old(self)@, cmd),
    {
        proof {
            use_type_invariant(&*self);
        }
        channel_send(&mut self.channel, cmd);
    }

    /// Queues the command buffer `cmd` if the queue has room, and says
    /// whether it did. A full queue is left as it is, and the entry stays
    /// with the producer.
    pub fn try_deferred_submit(&mut self, cmd: u64) -> (queued: bool)
        ensures
            queued == (old(self)@.len() < DEFERRED_SUBMIT_CAPACITY),
            final(self)@ == after_submit(old(self)@, cmd),
    {
        if self.is_full() {
            false
        } else {
            self.deferred_submit(cmd);
            true
        }
    }

    /// Takes out the entry that has waited longest, if any waits.
    pub fn take(&mut self) -> (entry: Option<DeferredSubmit>)
        ensures
            entry == next_out(old(self)@),
            final(self)@ == after_take(old(self)@),
    {
        proof {
            use_type_invariant(&*self);
        }
        match channel_try_recv(&mut self.channel) {
            Some(cmd) => Some(DeferredSubmit { cmd }),
            None => None,
        }
    }

    /// Takes out every entry that waits, in the order in which they were
    /// queued, and leaves the queue empty.
    pub fn drain(&mut self) -> (entries: Vec<DeferredSubmit>)
        ensures
            handles(entries@) == old(self)@,
            final(self)@ == Seq::<u64>::empty(),
    {
        let mut entries: Vec<DeferredSubmit> = Vec::new();
        let ghost start = self@;
        assert(handles(entries@) + self@ =~= start);
        loop
            invariant
                handles(entries@) + self@ == start,
            ensures
                self@.len() == 0,
            decreases self@.len(),
        {
            let ghost before = self@;
            let ghost had = entries@;
            match self.take() {
                Some(entry) => {
                    entries.push(entry);
                    assert(handles(entries@) =~= handles(had).push(before[0]));
                    assert(handles(had).push(before[0]) + before.skip(1) =~= handles(had) + before);
                },
                None => {
                    break ;
                },
            }
        }
        assert(handles(entries@) =~= handles(entries@) + self@);
        assert(self@ =~= Seq::<u64>::empty());
        entries
    }
}

/// Something that happens to the queue: a producer offers a command
/// buffer, or the consumer takes its next entry.
pub enum QueueEvent {
    Submit(u64),
    Take,
}

/// The queue after a history of events, starting empty.
pub open spec fn waiting_after(history: Seq<QueueEvent>) -> Seq<u64>
    decreases history.len(),
{
    if history.len() == 0 {
        Seq::empty()
    } else {
        let before = waiting_after(history.drop_last());
        match history.last() {
            QueueEvent::Submit(cmd) => after_submit(before, cmd),
            QueueEvent::Take => after_take(before),
        }
    }
}

/// The command buffers that the queue accepted over a history, in the
/// order in which it accepted them.
pub open spec fn accepted(history: Seq<QueueEvent>) -> Seq<u64>
    decreases history.len(),
{
    if history.len() == 0 {
        Seq::empty()
    } else {
        let before = accepted(history.drop_last());
        match history.last() {
            QueueEvent::Submit(cmd) => if waiting_after(history.drop_last()).len()
                < DEFERRED_SUBMIT_CAPACITY {
                before.push(cmd)
            } else {
                before
            },
            QueueEvent::Take => before,
        }
    }
}

/// The command buffers that the consumer got over a history, in the order
/// in which it got them.
pub open spec fn delivered(history: Seq<QueueEvent>) -> Seq<u64>
    decreases history.len(),
{
    if history.len() == 0 {
        Seq::empty()
    } else {
        let before = delivered(history.drop_last());
        match history.last() {
            QueueEvent::Submit(_) => before,
            QueueEvent::Take => match next_out(waiting_after(history.drop_last())) {
                Some(entry) => before.push(entry.cmd),
                None => before,
            },
        }
    }
}

/// First in, first out: however offers and takes interleave, what the
/// consumer has got, followed by what still waits, is exactly what the
/// queue accepted, in the order of acceptance. So entries come out in the
/// order in which they went in, none comes out twice, and none is lost.
/// The queue never holds more than its capacity.
pub proof fn first_in_first_out(history: Seq<QueueEvent>)
    ensures
        delivered(history) + waiting_after(history) == accepted(history),
        waiting_after(history).len() <= DEFERRED_SUBMIT_CAPACITY,
        delivered(history).is_prefix_of(accepted(history)),
    decreases history.len(),
{
    if history.len() > 0 {
        first_in_first_out(history.drop_last());
        let before = waiting_after(history.drop_last());
        match history.last() {
            QueueEvent::Submit(cmd) => {
                assert(delivered(history) + waiting_after(history) =~= accepted(history));
            },
            QueueEvent::Take => {
                if before.len() > 0 {
                    assert(delivered(history.drop_last()).push(before[0]) + before.skip(1)
                        =~= delivered(history.drop_last()) + before);
                }
                assert(delivered(history) + waiting_after(history) =~= accepted(history));
            },
        }
    } else {
        assert(delivered(history) + waiting_after(history) =~= accepted(history));
    }
}

/// A full queue drops nothing: an offer to a full queue changes neither
/// what waits nor what was accepted, so the entry is still the producer's
/// to offer again.
pub proof fn full_queue_keeps_everything(waiting: Seq<u64>, cmd: u64)
    requires
        waiting.len() >= DEFERRED_SUBMIT_CAPACITY,
    ensures
        after_submit(waiting, cmd) == waiting,
{
}

} // verus!
