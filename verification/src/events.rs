//! The typed progress events, and the queue that carries them from the
//! workers to the consumer.

use crate::progress::{text_view, CompressionRatio, ItemStatus};
use std::collections::VecDeque;
use vstd::prelude::*;

verus! {

/// One progress event.
#[derive(Debug)]
pub enum ConversionUpdate {
    /// The aggregate counters: completed, total.
    Progress(usize, usize),
    /// An item was converted: index, compressed size, compression ratio.
    ImageProcessed(usize, Option<u64>, Option<CompressionRatio>),
    /// The batch is complete. Nothing of the batch follows it.
    Completed,
    /// An item changed status: index, status, error message.
    StatusUpdate(usize, ItemStatus, Option<String>),
    /// The totals over the succeeded items: original bytes, compressed bytes.
    ResultsUpdate(u128, u128),
}

/// The mathematical content of an event.
pub enum UpdateView {
    Progress(usize, usize),
    ImageProcessed(usize, Option<u64>, Option<CompressionRatio>),
    Completed,
    StatusUpdate(usize, ItemStatus, Option<Seq<char>>),
    ResultsUpdate(u128, u128),
}

impl View for ConversionUpdate {
    type V = UpdateView;

    open spec fn view(&self) -> UpdateView {
        match *self {
            ConversionUpdate::Progress(completed, total) => UpdateView::Progress(completed, total),
            ConversionUpdate::ImageProcessed(index, size, rate) => UpdateView::ImageProcessed(
                index,
                size,
                rate,
            ),
            ConversionUpdate::Completed => UpdateView::Completed,
            ConversionUpdate::StatusUpdate(index, status, message) => UpdateView::StatusUpdate(
                index,
                status,
                text_view(message),
            ),
            ConversionUpdate::ResultsUpdate(original, compressed) => UpdateView::ResultsUpdate(
                original,
                compressed,
            ),
        }
    }
}

impl UpdateView {
    /// The event says that some item reached a terminal status.
    pub open spec fn is_terminal_status(self) -> bool {
        self matches UpdateView::StatusUpdate(_, status, _) && status.is_terminal()
    }

    /// The event says that item `index` reached a terminal status.
    pub open spec fn is_terminal_status_of(self, index: nat) -> bool {
        self matches UpdateView::StatusUpdate(i, status, _) && i == index && status.is_terminal()
    }
}

/// The views of the events, in order.
pub open spec fn update_views(updates: Seq<ConversionUpdate>) -> Seq<UpdateView> {
    Seq::new(updates.len(), |i: int| updates[i]@)
}

/// How many of the events say that an item reached a terminal status.
pub open spec fn count_terminal_updates(events: Seq<UpdateView>) -> nat
    decreases events.len(),
{
    if events.len() == 0 {
        0
    } else {
        count_terminal_updates(events.drop_last()) + if events.last().is_terminal_status() {
            1nat
        } else {
            0nat
        }
    }
}

/// How many of the events say that item `index` reached a terminal status.
pub open spec fn count_terminal_updates_of(events: Seq<UpdateView>, index: nat) -> nat
    decreases events.len(),
{
    if events.len() == 0 {
        0
    } else {
        count_terminal_updates_of(events.drop_last(), index) + if events.last().is_terminal_status_of(
            index,
        ) {
            1nat
        } else {
            0nat
        }
    }
}

/// How many of the events are `Completed`.
pub open spec fn count_completed(events: Seq<UpdateView>) -> nat
    decreases events.len(),
{
    if events.len() == 0 {
        0
    } else {
        count_completed(events.drop_last()) + if events.last() == UpdateView::Completed {
            1nat
        } else {
            0nat
        }
    }
}

/// The three counts of a stream that grows by one event.
pub proof fn lemma_counts_push(events: Seq<UpdateView>, event: UpdateView, index: nat)
    ensures
        count_terminal_updates(events.push(event)) == count_terminal_updates(events) + if event.is_terminal_status() {
            1nat
        } else {
            0nat
        },
        count_terminal_updates_of(events.push(event), index) == count_terminal_updates_of(
            events,
            index,
        ) + if event.is_terminal_status_of(index) {
            1nat
        } else {
            0nat
        },
        count_completed(events.push(event)) == count_completed(events) + if event
            == UpdateView::Completed {
            1nat
        } else {
            0nat
        },
{
    assert(events.push(event).drop_last() =~= events);
    assert(events.push(event).last() == event);
}

/// An unbounded first-in, first-out queue of events. Whoever holds it may
/// send; receiving never waits.
pub struct EventChannel {
    queue: VecDeque<ConversionUpdate>,
}

impl View for EventChannel {
    type V = Seq<UpdateView>;

    /// The pending events, oldest first.
    closed spec fn view(&self) -> Seq<UpdateView> {
        update_views(self.queue@)
    }
}

impl EventChannel {
    /// A channel with nothing pending.
    pub fn new() -> (channel: EventChannel)
        ensures
            channel@ == Seq::<UpdateView>::empty(),
    {
        let channel = EventChannel { queue: VecDeque::new() };
        assert(channel@ =~= Seq::<UpdateView>::empty());
        channel
    }

    /// Puts `update` behind everything that is pending.
    pub fn send(&mut self, update: ConversionUpdate)
        ensures
            final(self)@ == old(self)@.push(update@),
    {
        self.queue.push_back(update);
        assert(self@ =~= old(self)@.push(update@));
    }

    /// Puts the updates behind everything that is pending, in their order.
    pub fn send_all(&mut self, updates: Vec<ConversionUpdate>)
        ensures
            final(self)@ == old(self)@ + update_views(updates@),
    {
        let mut rest = updates;
        while rest.len() > 0
            invariant
                self@ + update_views(rest@) == old(self)@ + update_views(updates@),
            decreases rest.len(),
        {
            let ghost sent = self@;
            let ghost left = rest@;
            let update = rest.remove(0);
            self.send(update);
            assert(self@ + update_views(rest@) =~= sent + update_views(left));
        }
        assert(self@ =~= self@ + update_views(rest@));
    }

    /// Every pending event, oldest first. Nothing is pending afterwards.
    pub fn drain(&mut self) -> (updates: Vec<ConversionUpdate>)
        ensures
            update_views(updates@) == old(self)@,
            final(self)@ == Seq::<UpdateView>::empty(),
    {
        let mut updates: Vec<ConversionUpdate> = Vec::new();
        loop
            invariant
                update_views(updates@) + self@ == old(self)@,
            ensures
                update_views(updates@) == old(self)@,
                self@ == Seq::<UpdateView>::empty(),
            decreases self@.len(),
        {
            let ghost got = update_views(updates@);
            let ghost pending = self@;
            match self.try_recv() {
                Some(update) => {
                    updates.push(update);
                    assert(update_views(updates@) + self@ =~= got + pending);
                },
                None => {
                    assert(update_views(updates@) =~= update_views(updates@) + self@);
                    assert(self@ =~= Seq::<UpdateView>::empty());
                    break ;
                },
            }
        }
        updates
    }

    /// The oldest pending event, if there is one. Returns at once either way.
    pub fn try_recv(&mut self) -> (update: Option<ConversionUpdate>)
        ensures
            match update {
                Some(u) => old(self)@.len() > 0 && u@ == old(self)@[0] && final(self)@ == old(
                    self,
                )@.drop_first(),
                None => old(self)@.len() == 0 && final(self)@ == old(self)@,
            },
    {
        let update = self.queue.pop_front();
        proof {
            if update is Some {
                assert(self@ =~= old(self)@.drop_first());
            }
        }
        update
    }

    /// The number of pending events.
    pub fn len(&self) -> (n: usize)
        ensures
            n == self@.len(),
    {
        self.queue.len()
    }
}

} // verus!
