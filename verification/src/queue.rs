//! The queues between a capture thread and its consumer.
//!
//! They are bounded. Of packets of audio a consumer that falls behind loses the
//! oldest first, so that what it hears next is as recent as it can be. Frames of
//! video are buffered as many as the session asks for; further ones are lost
//! until the consumer has made room, and it is told how many.
use std::collections::VecDeque;

use vstd::prelude::*;

use crate::frame::{CaptureEvent, GapEvent, GapReason};

verus! {

/// `contents` after `item` joined them: behind the others, and in place of the
/// oldest of them where the queue was full.
pub open spec fn pushed<T>(contents: Seq<T>, capacity: nat, item: T) -> Seq<T> {
    if contents.len() < capacity {
        contents.push(item)
    } else {
        contents.subrange(1, contents.len() as int).push(item)
    }
}

/// What a queue holds after `items` joined it, when it was empty before.
pub open spec fn filled<T>(items: Seq<T>, capacity: nat) -> Seq<T>
    decreases items.len(),
{
    if items.len() == 0 {
        Seq::empty()
    } else {
        pushed(filled(items.drop_last(), capacity), capacity, items.last())
    }
}

/// A first-in, first-out queue of at most `capacity` items.
pub struct BoundedQueue<T> {
    items: VecDeque<T>,
    capacity: usize,
}

impl<T> View for BoundedQueue<T> {
    type V = Seq<T>;

    closed spec fn view(&self) -> Seq<T> {
        self.items@
    }
}

impl<T> BoundedQueue<T> {
    /// The most items that the queue holds.
    pub closed spec fn limit(&self) -> nat {
        self.capacity as nat
    }

    /// The queue has room for something and holds no more than it may.
    pub open spec fn well_formed(&self) -> bool {
        self.limit() > 0 && self@.len() <= self.limit()
    }

    pub fn new(capacity: usize) -> (queue: Self)
        requires
            capacity > 0,
        ensures
            queue.well_formed(),
            queue.limit() == capacity,
            queue@ == Seq::<T>::empty(),
    {
        BoundedQueue { items: VecDeque::new(), capacity }
    }

    pub fn len(&self) -> (len: usize)
        ensures
            len == self@.len(),
    {
        self.items.len()
    }

    /// Puts an item at the end. A full queue gives up its oldest one for it.
    pub fn push(&mut self, item: T)
        requires
            old(self).well_formed(),
        ensures
            final(self).well_formed(),
            final(self).limit() == old(self).limit(),
            final(self)@ == pushed(old(self)@, old(self).limit(), item),
    {
        if self.items.len() >= self.capacity {
            self.items.pop_front();
        }
        self.items.push_back(item);
    }

    /// Takes the oldest item.
    pub fn pop(&mut self) -> (item: Option<T>)
        requires
            old(self).well_formed(),
        ensures
            final(self).well_formed(),
            final(self).limit() == old(self).limit(),
            item is Some <==> old(self)@.len() > 0,
            item matches Some(oldest) ==> oldest == old(self)@[0] && final(self)@ == old(
                self,
            )@.subrange(1, old(self)@.len() as int),
            item is None ==> final(self)@ == old(self)@,
    {
        self.items.pop_front()
    }
}

/// However much is pushed, the queue holds the most recent items, in the order
/// in which they came: the oldest are the ones that were dropped.
pub proof fn the_oldest_are_dropped_first<T>(items: Seq<T>, capacity: nat)
    requires
        capacity > 0,
    ensures
        filled(items, capacity).len() == crate::numbers::smaller(
            items.len() as int,
            capacity as int,
        ),
        filled(items, capacity) == items.subrange(
            items.len() - filled(items, capacity).len(),
            items.len() as int,
        ),
    decreases items.len(),
{
    if items.len() > 0 {
        let before = items.drop_last();
        the_oldest_are_dropped_first(before, capacity);
        let held = filled(before, capacity);
        let holds = filled(items, capacity);
        assert(held =~= before.subrange(before.len() - held.len(), before.len() as int));
        assert(holds =~= items.subrange(items.len() - holds.len(), items.len() as int));
    } else {
        assert(filled(items, capacity) =~= items.subrange(0, 0));
    }
}

/// What a [`FrameQueue`] amounts to.
#[verifier::ext_equal]
pub struct FrameQueueView<T> {
    /// The items that the consumer has not taken, the oldest first.
    pub items: Seq<T>,
    /// The most items that the queue holds.
    pub limit: nat,
    /// Items lost since the last gap was reported.
    pub dropped: u32,
}

impl<T> FrameQueueView<T> {
    /// There is room for another item.
    pub open spec fn has_room(self) -> bool {
        self.items.len() < self.limit
    }

    /// With `item` behind the others.
    pub open spec fn with(self, item: T) -> Self {
        FrameQueueView { items: self.items.push(item), ..self }
    }

    /// With one more loss. The counter starts over behind its last value.
    pub open spec fn with_loss(self) -> Self {
        FrameQueueView {
            dropped: if self.dropped == u32::MAX {
                0
            } else {
                (self.dropped + 1) as u32
            },
            ..self
        }
    }

    /// After `item` was offered: it joins the others if there is room, and is
    /// lost if there is none.
    pub open spec fn offered(self, item: T) -> Self {
        if self.has_room() {
            self.with(item)
        } else {
            self.with_loss()
        }
    }

    /// After `items` were offered one after the other.
    pub open spec fn offered_all(self, items: Seq<T>) -> Self
        decreases items.len(),
    {
        if items.len() == 0 {
            self
        } else {
            self.offered_all(items.drop_last()).offered(items.last())
        }
    }

    /// Without its oldest item.
    pub open spec fn without_oldest(self) -> Self {
        FrameQueueView { items: self.items.subrange(1, self.items.len() as int), ..self }
    }

    /// With every loss reported.
    pub open spec fn reported(self) -> Self {
        FrameQueueView { dropped: 0, ..self }
    }

    /// How the losses are reported, if there are any.
    pub open spec fn gap(self) -> Option<CaptureEvent> {
        if self.dropped > 0 {
            Some(
                CaptureEvent::Gap(
                    GapEvent {
                        stream_time_ns: 0,
                        reason: GapReason::Dropped,
                        dropped_frames: Some(self.dropped),
                    },
                ),
            )
        } else {
            None
        }
    }
}

/// A first-in, first-out queue that refuses what it has no room for, and counts
/// it.
#[derive(Debug)]
pub struct FrameQueue<T> {
    items: VecDeque<T>,
    depth: usize,
    dropped: u32,
}

impl<T> View for FrameQueue<T> {
    type V = FrameQueueView<T>;

    closed spec fn view(&self) -> FrameQueueView<T> {
        FrameQueueView {
            items: self.items@,
            limit: self.depth as nat,
            dropped: self.dropped,
        }
    }
}

impl<T> FrameQueue<T> {
    /// An empty queue with room for `depth` items.
    pub fn new(depth: usize) -> (queue: Self)
        ensures
            queue@ == (FrameQueueView {
                items: Seq::<T>::empty(),
                limit: depth as nat,
                dropped: 0,
            }),
    {
        FrameQueue { items: VecDeque::new(), depth, dropped: 0 }
    }

    /// Puts an item at the end, if there is room for it.
    pub fn try_push(&mut self, item: T) -> (taken: bool)
        ensures
            taken == old(self)@.has_room(),
            final(self)@ == if taken {
                old(self)@.with(item)
            } else {
                old(self)@
            },
    {
        if self.items.len() < self.depth {
            self.items.push_back(item);
            true
        } else {
            false
        }
    }

    /// Puts an item at the end, or counts it as lost where there is no room for
    /// it.
    pub fn offer(&mut self, item: T) -> (taken: bool)
        ensures
            taken == old(self)@.has_room(),
            final(self)@ == old(self)@.offered(item),
    {
        let taken: bool = self.try_push(item);
        if !taken {
            self.lose();
        }
        taken
    }

    /// Counts a loss.
    pub fn lose(&mut self)
        ensures
            final(self)@ == old(self)@.with_loss(),
    {
        self.dropped = self.dropped.wrapping_add(1);
    }

    /// Takes the oldest item.
    pub fn take(&mut self) -> (item: Option<T>)
        ensures
            item is Some <==> old(self)@.items.len() > 0,
            item matches Some(oldest) ==> oldest == old(self)@.items[0] && final(self)@ == old(
                self,
            )@.without_oldest(),
            item is None ==> final(self)@ == old(self)@,
    {
        self.items.pop_front()
    }

    /// Forgets the items, but not the losses.
    pub fn clear(&mut self)
        ensures
            final(self)@ == (FrameQueueView { items: Seq::<T>::empty(), ..old(self)@ }),
    {
        self.items = VecDeque::new();
    }

    /// Reports the losses since they were last reported.
    pub fn report(&mut self) -> (gap: Option<CaptureEvent>)
        ensures
            gap == old(self)@.gap(),
            final(self)@ == old(self)@.reported(),
    {
        let dropped: u32 = self.dropped;
        self.dropped = 0;
        if dropped > 0 {
            Some(
                CaptureEvent::Gap(
                    GapEvent {
                        stream_time_ns: 0,
                        reason: GapReason::Dropped,
                        dropped_frames: Some(dropped),
                    },
                ),
            )
        } else {
            None
        }
    }
}

/// Frames are buffered up to the limit before any is dropped: of `items`, which
/// are offered while the consumer takes nothing, those are kept that there is
/// room for, in the order in which they came. Every other one is lost, and shows
/// up in the next gap.
pub proof fn frames_are_buffered_before_drops<T>(queue: FrameQueueView<T>, items: Seq<T>)
    requires
        queue.items.len() <= queue.limit,
        queue.dropped + items.len() <= u32::MAX,
    ensures
        ({
            let room = queue.limit - queue.items.len();
            let kept = crate::numbers::smaller(items.len() as int, room);
            queue.offered_all(items) == (FrameQueueView {
                items: queue.items + items.subrange(0, kept),
                dropped: (queue.dropped + items.len() - kept) as u32,
                ..queue
            })
        }),
    decreases items.len(),
{
    let room = queue.limit - queue.items.len();
    let kept = crate::numbers::smaller(items.len() as int, room);
    if items.len() > 0 {
        let before = items.drop_last();
        frames_are_buffered_before_drops(queue, before);
        let kept_before = crate::numbers::smaller(before.len() as int, room);
        if before.len() < room {
            assert((queue.items + before.subrange(0, kept_before)).push(items.last())
                =~= queue.items + items.subrange(0, kept));
        } else {
            assert(before.subrange(0, kept_before) =~= items.subrange(0, kept));
        }
    } else {
        assert(queue.items + items.subrange(0, kept) =~= queue.items);
    }
}

/// A packet that joins a queue stands behind all others. Where there was room,
/// nothing is lost by it; where there was none, the oldest packet is, and no
/// other.
pub proof fn packets_join_at_the_end<T>(queue: &mut BoundedQueue<T>, item: T)
    requires
        call_ensures(BoundedQueue::<T>::push, (queue, item), ()),
        0 < old(queue).limit(),
        old(queue)@.len() <= old(queue).limit(),
    ensures
        final(queue).limit() == old(queue).limit(),
        final(queue)@.len() > 0 && final(queue)@.last() == item,
        old(queue)@.len() < old(queue).limit() ==> final(queue)@.drop_last() == old(queue)@,
        old(queue)@.len() == old(queue).limit() ==> final(queue)@.drop_last() == old(queue)@.drop_first(),
{
    if old(queue)@.len() < old(queue).limit() {
        assert(final(queue)@.drop_last() =~= old(queue)@);
    } else {
        assert(final(queue)@.drop_last() =~= old(queue)@.drop_first());
    }
}

/// What was queued comes out again in the order in which it went in, the oldest
/// first.
pub proof fn the_oldest_comes_out_first<T>(
    packets: &mut BoundedQueue<T>,
    packet: Option<T>,
    frames: &mut FrameQueue<T>,
    frame: Option<T>,
)
    requires
        call_ensures(BoundedQueue::<T>::pop, (packets,), packet),
        call_ensures(FrameQueue::<T>::take, (frames,), frame),
    ensures
        packet is None <==> old(packets)@.len() == 0,
        packet matches Some(oldest) ==> seq![oldest] + final(packets)@ == old(packets)@,
        packet is None ==> final(packets)@ == old(packets)@,
        frame is None <==> old(frames)@.items.len() == 0,
        frame matches Some(oldest) ==> seq![oldest] + final(frames)@.items == old(frames)@.items,
        final(frames)@.limit == old(frames)@.limit,
        final(frames)@.dropped == old(frames)@.dropped,
{
    if packet is Some {
        assert(seq![packet->0] + final(packets)@ =~= old(packets)@);
    }
    if frame is Some {
        assert(seq![frame->0] + final(frames)@.items =~= old(frames)@.items);
    }
}

/// A frame is taken into a queue exactly if the queue holds fewer than its
/// limit, and stands behind the others then. One that is not taken changes
/// nothing but the count of losses, which it raises by one.
pub proof fn frames_are_taken_or_counted<T>(
    queue: &mut FrameQueue<T>,
    item: T,
    taken: bool,
)
    requires
        call_ensures(FrameQueue::<T>::offer, (queue, item), taken),
    ensures
        taken <==> old(queue)@.items.len() < old(queue)@.limit,
        final(queue)@.limit == old(queue)@.limit,
        taken ==> final(queue)@.items == old(queue)@.items.push(item) && final(queue)@.dropped
            == old(queue)@.dropped,
        !taken ==> final(queue)@.items == old(queue)@.items,
        !taken && old(queue)@.dropped < u32::MAX ==> final(queue)@.dropped == old(queue)@.dropped
            + 1,
{
}

/// A loss is reported once, with the number of all that were lost since the
/// last report; where there was none, nothing is reported.
pub proof fn losses_are_reported_once<T>(
    queue: &mut FrameQueue<T>,
    gap: Option<CaptureEvent>,
)
    requires
        call_ensures(FrameQueue::<T>::report, (queue,), gap),
    ensures
        old(queue)@.dropped == 0 ==> gap is None,
        old(queue)@.dropped > 0 ==> (gap matches Some(CaptureEvent::Gap(event)) && event.reason
            == GapReason::Dropped && event.dropped_frames == Some(old(queue)@.dropped)
            && event.stream_time_ns == 0),
        final(queue)@.dropped == 0,
        final(queue)@.items == old(queue)@.items,
        final(queue)@.limit == old(queue)@.limit,
{
}

/// An empty queue has room for as many frames as it was made for.
pub proof fn queues_have_room_for_their_depth<T>(depth: usize, queue: FrameQueue<T>)
    requires
        call_ensures(FrameQueue::<T>::new, (depth,), queue),
    ensures
        queue@.items.len() == 0,
        queue@.limit == depth,
        queue@.dropped == 0,
{
}

/// An item is put into a queue exactly if the queue holds fewer than its limit;
/// losses are not counted by it.
pub proof fn items_are_put_where_there_is_room<T>(queue: &mut FrameQueue<T>, item: T, taken: bool)
    requires
        call_ensures(FrameQueue::<T>::try_push, (queue, item), taken),
    ensures
        taken <==> old(queue)@.items.len() < old(queue)@.limit,
        taken ==> final(queue)@.items == old(queue)@.items.push(item),
        !taken ==> final(queue)@.items == old(queue)@.items,
        final(queue)@.dropped == old(queue)@.dropped,
        final(queue)@.limit == old(queue)@.limit,
{
}

/// A loss is counted, and touches nothing that waits.
pub proof fn losses_are_counted<T>(queue: &mut FrameQueue<T>)
    requires
        call_ensures(FrameQueue::<T>::lose, (queue,), ()),
        old(queue)@.dropped < u32::MAX,
    ensures
        final(queue)@.dropped == old(queue)@.dropped + 1,
        final(queue)@.items == old(queue)@.items,
        final(queue)@.limit == old(queue)@.limit,
{
}

/// A queue that is cleared has nothing left but its losses and its limit.
pub proof fn clearing_keeps_the_losses<T>(queue: &mut FrameQueue<T>)
    requires
        call_ensures(FrameQueue::<T>::clear, (queue,), ()),
    ensures
        final(queue)@.items.len() == 0,
        final(queue)@.dropped == old(queue)@.dropped,
        final(queue)@.limit == old(queue)@.limit,
{
}

/// A new queue of packets is empty, and its length is told.
pub proof fn new_queues_are_empty<T>(capacity: usize, queue: BoundedQueue<T>, len: usize)
    requires
        call_ensures(BoundedQueue::<T>::new, (capacity,), queue),
        call_ensures(BoundedQueue::<T>::len, (&queue,), len),
    ensures
        queue@.len() == 0,
        queue.limit() == capacity,
        len == 0,
{
}

/// The count of losses starts over behind its last value.
pub proof fn the_count_of_losses_starts_over<T>(queue: &mut FrameQueue<T>)
    requires
        call_ensures(FrameQueue::<T>::lose, (queue,), ()),
        old(queue)@.dropped == u32::MAX,
    ensures
        final(queue)@.dropped == 0,
        final(queue)@.items == old(queue)@.items,
{
}

} // verus!
