//! The shared progress state of one batch: the records of its items, the
//! aggregate counters and the events that each change of state issues.
//!
//! The state is a plain value. Workers and the consumer share it behind one
//! lock; every method is one critical section, and hands back the events to
//! send once the lock is released.

use crate::codec::{ConversionError, ErrorKind};
use crate::events::{
    count_completed, count_terminal_updates, count_terminal_updates_of, lemma_counts_push,
    update_views, ConversionUpdate, UpdateView,
};
use crate::job::{fresh_details, fresh_records, source_views, SourceFile, SourceFileView};
use crate::progress::{
    count_terminal, detail_views, succeeded_compressed_bytes, succeeded_original_bytes,
    CompressionRatio, ConversionProgress, ImageDetail, ImageDetailView, ItemStatus,
};
use crate::text::{decimal, decimal_digits};
use vstd::prelude::*;
use vstd::string::StringExecFns;

verus! {

/// How one job ended.
#[derive(Debug)]
pub enum JobOutcome {
    /// The output was written; the two sizes were read afterwards.
    Succeeded { original_size: u64, compressed_size: u64 },
    /// The job was given up.
    Failed { error: ConversionError },
}

/// The mathematical content of an outcome.
pub enum OutcomeView {
    Succeeded { original_size: u64, compressed_size: u64 },
    Failed { kind: ErrorKind, message: Seq<char> },
}

impl View for JobOutcome {
    type V = OutcomeView;

    open spec fn view(&self) -> OutcomeView {
        match *self {
            JobOutcome::Succeeded { original_size, compressed_size } => OutcomeView::Succeeded {
                original_size,
                compressed_size,
            },
            JobOutcome::Failed { error } => OutcomeView::Failed {
                kind: error.kind,
                message: error.message@,
            },
        }
    }
}

impl OutcomeView {
    /// The terminal status that the outcome gives its item.
    pub open spec fn status(self) -> ItemStatus {
        match self {
            OutcomeView::Succeeded { .. } => ItemStatus::Succeeded,
            OutcomeView::Failed { .. } => ItemStatus::Failed,
        }
    }
}

/// A change of the shared state.
pub enum BatchOp {
    /// A worker takes up the item at the index.
    Start(nat),
    /// The worker of the item at the index reports how it ended.
    Complete(nat, OutcomeView),
    /// The scheduler closes the batch.
    Finish,
}

impl BatchOp {
    /// The change reports the end of the item at `index`.
    pub open spec fn completes(self, index: nat) -> bool {
        match self {
            BatchOp::Complete(i, _) => i == index,
            _ => false,
        }
    }
}

/// The mathematical content of the shared state.
pub struct BatchView {
    /// The number of jobs in the batch.
    pub total: nat,
    /// The number of jobs that reached a terminal status.
    pub completed: nat,
    /// The summary for the user.
    pub status_text: Seq<char>,
    /// One record for each job, at the job's index.
    pub details: Seq<ImageDetailView>,
    /// Whether the batch was closed.
    pub finished: bool,
    /// Every event issued since the batch began, in the order of issue.
    pub issued: Seq<UpdateView>,
}

/// The summary while items complete.
pub open spec fn progress_text(completed: nat, total: nat) -> Seq<char> {
    "Converting image "@ + decimal_digits(completed) + " of "@ + decimal_digits(total)
}

/// The record of a processing item after it ended with `outcome`. Name and
/// original size stay as they were set at submission; the ratio of a success
/// is made of the two sizes that were read when the item was done.
pub open spec fn completed_detail(detail: ImageDetailView, outcome: OutcomeView) -> ImageDetailView {
    match outcome {
        OutcomeView::Succeeded { original_size, compressed_size } => ImageDetailView {
            name: detail.name,
            original_size: detail.original_size,
            compressed_size: Some(compressed_size),
            compression_rate: Some(CompressionRatio { original_size, compressed_size }),
            status: ItemStatus::Succeeded,
            error_message: None,
        },
        OutcomeView::Failed { kind, message } => ImageDetailView {
            name: detail.name,
            original_size: detail.original_size,
            compressed_size: None,
            compression_rate: None,
            status: ItemStatus::Failed,
            error_message: Some(message),
        },
    }
}

impl BatchView {
    /// The state at the start of a batch of the given files.
    pub open spec fn begun(sources: Seq<SourceFileView>) -> BatchView {
        BatchView {
            total: sources.len(),
            completed: 0,
            status_text: "Starting conversion..."@,
            details: fresh_details(sources),
            finished: false,
            issued: Seq::empty(),
        }
    }

    /// The invariant of the shared state.
    pub open spec fn wf(self) -> bool {
        &&& self.total == self.details.len()
        &&& self.total <= usize::MAX
        &&& self.completed == count_terminal(self.details)
        &&& self.completed <= self.total
        &&& forall|i: int| 0 <= i < self.details.len() ==> (#[trigger] self.details[i]).consistent()
        &&& forall|i: nat|
            i < self.total ==> #[trigger] count_terminal_updates_of(self.issued, i) == if self.details[i as int].status.is_terminal() {
                1nat
            } else {
                0nat
            }
        &&& count_terminal_updates(self.issued) == self.completed
        &&& count_completed(self.issued) == if self.finished {
            1nat
        } else {
            0nat
        }
        &&& self.finished ==> self.completed == self.total && self.issued.len() > 0
            && self.issued.last() == UpdateView::Completed
    }

    /// A worker has the item in hand.
    pub open spec fn is_active(self, index: nat) -> bool {
        index < self.details.len() && self.details[index as int].status == ItemStatus::Processing
    }

    /// A loaded item of an open batch can be taken up.
    pub open spec fn can_start(self, index: nat) -> bool {
        &&& !self.finished
        &&& index < self.details.len()
        &&& self.details[index as int].status == ItemStatus::Loaded
    }

    /// A processing item of an open batch can complete.
    pub open spec fn can_complete(self, index: nat) -> bool {
        &&& !self.finished
        &&& index < self.details.len()
        &&& self.details[index as int].status == ItemStatus::Processing
    }

    /// An open batch can be closed once every item has completed.
    pub open spec fn can_finish(self) -> bool {
        !self.finished && self.completed == self.total
    }

    /// Whether the change applies in this state. One that does not leaves
    /// the state as it is and issues nothing.
    pub open spec fn enabled(self, op: BatchOp) -> bool {
        match op {
            BatchOp::Start(index) => self.can_start(index),
            BatchOp::Complete(index, _) => self.can_complete(index),
            BatchOp::Finish => self.can_finish(),
        }
    }

    /// The events that the change issues, in order.
    pub open spec fn events_of(self, op: BatchOp) -> Seq<UpdateView> {
        if !self.enabled(op) {
            Seq::empty()
        } else {
            match op {
                BatchOp::Start(index) => seq![
                    UpdateView::StatusUpdate(index as usize, ItemStatus::Processing, None),
                ],
                BatchOp::Complete(index, outcome) => match outcome {
                    OutcomeView::Succeeded { original_size, compressed_size } => seq![
                        UpdateView::ImageProcessed(
                            index as usize,
                            Some(compressed_size),
                            Some(CompressionRatio { original_size, compressed_size }),
                        ),
                        UpdateView::StatusUpdate(index as usize, ItemStatus::Succeeded, None),
                        UpdateView::Progress((self.completed + 1) as usize, self.total as usize),
                    ],
                    OutcomeView::Failed { kind, message } => seq![
                        UpdateView::StatusUpdate(index as usize, ItemStatus::Failed, Some(message)),
                        UpdateView::Progress((self.completed + 1) as usize, self.total as usize),
                    ],
                },
                BatchOp::Finish => if self.total == 0 {
                    seq![UpdateView::Completed]
                } else {
                    seq![
                        UpdateView::ResultsUpdate(
                            succeeded_original_bytes(self.details) as u128,
                            succeeded_compressed_bytes(self.details) as u128,
                        ),
                        UpdateView::Completed,
                    ]
                },
            }
        }
    }

    /// The state after the change.
    pub open spec fn apply(self, op: BatchOp) -> BatchView {
        if !self.enabled(op) {
            self
        } else {
            match op {
                BatchOp::Start(index) => BatchView {
                    details: self.details.update(
                        index as int,
                        ImageDetailView {
                            status: ItemStatus::Processing,
                            ..self.details[index as int]
                        },
                    ),
                    issued: self.issued + self.events_of(op),
                    ..self
                },
                BatchOp::Complete(index, outcome) => BatchView {
                    completed: self.completed + 1,
                    status_text: progress_text(self.completed + 1, self.total),
                    details: self.details.update(
                        index as int,
                        completed_detail(self.details[index as int], outcome),
                    ),
                    issued: self.issued + self.events_of(op),
                    ..self
                },
                BatchOp::Finish => BatchView {
                    status_text: "Conversion complete!"@,
                    finished: true,
                    issued: self.issued + self.events_of(op),
                    ..self
                },
            }
        }
    }

    /// The state after the changes, applied in order.
    pub open spec fn apply_all(self, ops: Seq<BatchOp>) -> BatchView
        decreases ops.len(),
    {
        if ops.len() == 0 {
            self
        } else {
            self.apply_all(ops.drop_last()).apply(ops.last())
        }
    }
}

/// The count of terminal records never exceeds the number of records, and
/// reaches it only where every record is terminal.
pub proof fn lemma_count_terminal_bounds(details: Seq<ImageDetailView>)
    ensures
        count_terminal(details) <= details.len(),
        count_terminal(details) == details.len() ==> forall|i: int|
            0 <= i < details.len() ==> (#[trigger] details[i]).status.is_terminal(),
    decreases details.len(),
{
    if details.len() > 0 {
        lemma_count_terminal_bounds(details.drop_last());
        if count_terminal(details) == details.len() {
            assert forall|i: int| 0 <= i < details.len() implies (#[trigger] details[i]).status.is_terminal() by {
                if i < details.len() - 1 {
                    assert(details.drop_last()[i] == details[i]);
                }
            }
        }
    }
}

/// Replacing one record changes the count of terminal records by what the
/// record's own status changes.
pub proof fn lemma_count_terminal_update(
    details: Seq<ImageDetailView>,
    index: int,
    detail: ImageDetailView,
)
    requires
        0 <= index < details.len(),
    ensures
        count_terminal(details.update(index, detail)) + (if details[index].status.is_terminal() {
            1nat
        } else {
            0nat
        }) == count_terminal(details) + (if detail.status.is_terminal() {
            1nat
        } else {
            0nat
        }),
    decreases details.len(),
{
    let updated = details.update(index, detail);
    if index == details.len() - 1 {
        assert(updated.drop_last() =~= details.drop_last());
    } else {
        assert(updated.drop_last() =~= details.drop_last().update(index, detail));
        lemma_count_terminal_update(details.drop_last(), index, detail);
    }
}

/// A fresh batch has no terminal record.
proof fn lemma_count_terminal_none(details: Seq<ImageDetailView>)
    requires
        forall|i: int| 0 <= i < details.len() ==> !(#[trigger] details[i]).status.is_terminal(),
    ensures
        count_terminal(details) == 0,
    decreases details.len(),
{
    if details.len() > 0 {
        assert forall|i: int| 0 <= i < details.drop_last().len() implies !(
        #[trigger] details.drop_last()[i]).status.is_terminal() by {
            assert(details.drop_last()[i] == details[i]);
        }
        lemma_count_terminal_none(details.drop_last());
    }
}

/// The state at the start of a batch meets the invariant.
pub proof fn lemma_begun_wf(sources: Seq<SourceFileView>)
    requires
        sources.len() <= usize::MAX,
    ensures
        BatchView::begun(sources).wf(),
{
    let v = BatchView::begun(sources);
    lemma_count_terminal_none(v.details);
}

/// What the three counts of a stream become when events are issued.
proof fn lemma_counts_append(events: Seq<UpdateView>, more: Seq<UpdateView>, index: nat)
    ensures
        count_terminal_updates(events + more) == count_terminal_updates(events)
            + count_terminal_updates(more),
        count_terminal_updates_of(events + more, index) == count_terminal_updates_of(events, index)
            + count_terminal_updates_of(more, index),
        count_completed(events + more) == count_completed(events) + count_completed(more),
    decreases more.len(),
{
    if more.len() == 0 {
        assert(events + more =~= events);
    } else {
        assert((events + more).drop_last() =~= events + more.drop_last());
        assert((events + more).last() == more.last());
        lemma_counts_append(events, more.drop_last(), index);
    }
}

/// The three counts of the events that one change issues.
proof fn lemma_counts_of_issue(v: BatchView, op: BatchOp, index: nat)
    requires
        v.wf(),
    ensures
        count_terminal_updates(v.events_of(op)) == if v.enabled(op) && op is Complete {
            1nat
        } else {
            0nat
        },
        count_terminal_updates_of(v.events_of(op), index) == if v.enabled(op) && op.completes(index) {
            1nat
        } else {
            0nat
        },
        count_completed(v.events_of(op)) == if v.enabled(op) && op is Finish {
            1nat
        } else {
            0nat
        },
{
    let events = v.events_of(op);
    let none = Seq::<UpdateView>::empty();
    if events.len() == 1 {
        assert(events =~= none.push(events[0]));
        lemma_counts_push(none, events[0], index);
    } else if events.len() == 2 {
        assert(events =~= none.push(events[0]).push(events[1]));
        lemma_counts_push(none, events[0], index);
        lemma_counts_push(none.push(events[0]), events[1], index);
    } else if events.len() == 3 {
        assert(events =~= none.push(events[0]).push(events[1]).push(events[2]));
        lemma_counts_push(none, events[0], index);
        lemma_counts_push(none.push(events[0]), events[1], index);
        lemma_counts_push(none.push(events[0]).push(events[1]), events[2], index);
    }
}

/// Every change keeps the invariant.
pub proof fn lemma_apply_preserves_wf(v: BatchView, op: BatchOp)
    requires
        v.wf(),
    ensures
        v.apply(op).wf(),
{
    let w = v.apply(op);
    if v.enabled(op) {
        lemma_counts_append(v.issued, v.events_of(op), 0);
        lemma_counts_of_issue(v, op, 0);
        assert forall|i: nat| i < w.total implies #[trigger] count_terminal_updates_of(w.issued, i)
            == if w.details[i as int].status.is_terminal() {
            1nat
        } else {
            0nat
        } by {
            lemma_counts_append(v.issued, v.events_of(op), i);
            lemma_counts_of_issue(v, op, i);
            assert(count_terminal_updates_of(v.issued, i) == if v.details[i as int].status.is_terminal() {
                1nat
            } else {
                0nat
            });
        }
        match op {
            BatchOp::Start(index) => {
                lemma_count_terminal_update(v.details, index as int, w.details[index as int]);
            },
            BatchOp::Complete(index, outcome) => {
                lemma_count_terminal_update(v.details, index as int, w.details[index as int]);
                lemma_count_terminal_bounds(w.details);
            },
            BatchOp::Finish => {
                let events = v.events_of(op);
                assert(w.issued.last() == events[events.len() - 1]);
            },
        }
    }
}

/// Any run of changes keeps the invariant.
pub proof fn lemma_run_preserves_wf(v: BatchView, ops: Seq<BatchOp>)
    requires
        v.wf(),
    ensures
        v.apply_all(ops).wf(),
    decreases ops.len(),
{
    if ops.len() > 0 {
        lemma_run_preserves_wf(v, ops.drop_last());
        lemma_apply_preserves_wf(v.apply_all(ops.drop_last()), ops.last());
    }
}

/// The count of completed items grows by exactly one with each item that
/// completes, stays as it is under every other change, and never exceeds the
/// number of jobs.
pub proof fn lemma_completed_advances(v: BatchView, op: BatchOp)
    requires
        v.wf(),
    ensures
        v.apply(op).total == v.total,
        v.apply(op).completed <= v.total,
        v.apply(op).completed == if v.enabled(op) && op is Complete {
            v.completed + 1
        } else {
            v.completed
        },
{
    lemma_apply_preserves_wf(v, op);
}

/// Over any run of changes the count of completed items does not fall and
/// stays within the number of jobs, which does not change.
pub proof fn lemma_completed_monotone(v: BatchView, ops: Seq<BatchOp>)
    requires
        v.wf(),
    ensures
        v.apply_all(ops).total == v.total,
        v.completed <= v.apply_all(ops).completed <= v.total,
    decreases ops.len(),
{
    if ops.len() > 0 {
        lemma_completed_monotone(v, ops.drop_last());
        lemma_run_preserves_wf(v, ops.drop_last());
        lemma_completed_advances(v.apply_all(ops.drop_last()), ops.last());
    }
}

/// A change moves the status of an item one step along
/// loaded, processing, terminal, or leaves it; a record in a terminal status
/// is never touched again.
pub proof fn lemma_status_only_advances(v: BatchView, op: BatchOp, index: int)
    requires
        v.wf(),
        0 <= index < v.total,
    ensures
        v.apply(op).details.len() == v.details.len(),
        v.apply(op).details[index].status == v.details[index].status || v.details[index].status.may_become(
            v.apply(op).details[index].status,
        ),
        v.details[index].status.is_terminal() ==> v.apply(op).details[index] == v.details[index],
{
}

/// Over any run of changes the status of an item never goes back: its rank
/// does not fall, and a terminal record stays as it is.
pub proof fn lemma_status_never_regresses(v: BatchView, ops: Seq<BatchOp>, index: int)
    requires
        v.wf(),
        0 <= index < v.total,
    ensures
        v.apply_all(ops).details.len() == v.details.len(),
        v.details[index].status.rank() <= v.apply_all(ops).details[index].status.rank(),
        v.details[index].status.is_terminal() ==> v.apply_all(ops).details[index] == v.details[index],
    decreases ops.len(),
{
    if ops.len() > 0 {
        let before = v.apply_all(ops.drop_last());
        lemma_status_never_regresses(v, ops.drop_last(), index);
        lemma_run_preserves_wf(v, ops.drop_last());
        lemma_status_only_advances(before, ops.last(), index);
    }
}

/// In a closed batch every job has issued exactly one terminal status
/// event, there are as many of them as jobs, and the one `Completed` event
/// comes after them all, as the last event of the stream.
pub proof fn lemma_closed_batch_stream(v: BatchView)
    requires
        v.wf(),
        v.finished,
    ensures
        v.completed == v.total,
        count_terminal_updates(v.issued) == v.total,
        forall|i: nat| i < v.total ==> #[trigger] count_terminal_updates_of(v.issued, i) == 1,
        forall|i: int| 0 <= i < v.total ==> (#[trigger] v.details[i]).status.is_terminal(),
        count_completed(v.issued) == 1,
        v.issued.last() == UpdateView::Completed,
        count_terminal_updates(v.issued.drop_last()) == v.total,
        count_completed(v.issued.drop_last()) == 0,
{
    lemma_count_terminal_bounds(v.details);
    assert(v.issued =~= v.issued.drop_last().push(v.issued.last()));
    lemma_counts_push(v.issued.drop_last(), v.issued.last(), 0);
    assert forall|i: nat| i < v.total implies #[trigger] count_terminal_updates_of(v.issued, i)
        == 1 by {
        assert(v.details[i as int].status.is_terminal());
    }
}

/// A batch of N jobs that was closed, whatever the workers did and in
/// whatever order, has issued exactly N terminal status events, one for each
/// job, and then exactly one `Completed`, as its last event. Along the way
/// the count of completed items never exceeded N, and it is N at the end.
pub proof fn lemma_submitted_batch_stream(sources: Seq<SourceFileView>, ops: Seq<BatchOp>)
    requires
        sources.len() <= usize::MAX,
        BatchView::begun(sources).apply_all(ops).finished,
    ensures
        ({
            let end = BatchView::begun(sources).apply_all(ops);
            &&& end.total == sources.len()
            &&& end.completed == sources.len()
            &&& count_terminal_updates(end.issued) == sources.len()
            &&& forall|i: nat|
                i < sources.len() ==> #[trigger] count_terminal_updates_of(end.issued, i) == 1
            &&& count_completed(end.issued) == 1
            &&& end.issued.last() == UpdateView::Completed
            &&& count_terminal_updates(end.issued.drop_last()) == sources.len()
        }),
{
    let begun = BatchView::begun(sources);
    lemma_begun_wf(sources);
    lemma_run_preserves_wf(begun, ops);
    lemma_completed_monotone(begun, ops);
    lemma_closed_batch_stream(begun.apply_all(ops));
}

/// Once a batch is closed, no change applies any more: the stream has ended.
pub proof fn lemma_closed_batch_is_final(v: BatchView, ops: Seq<BatchOp>)
    requires
        v.finished,
    ensures
        v.apply_all(ops) == v,
    decreases ops.len(),
{
    if ops.len() > 0 {
        lemma_closed_batch_is_final(v, ops.drop_last());
    }
}

/// The sums over the succeeded records fit in 128 bits: each size is below
/// 2^64, and so is the number of records.
proof fn lemma_succeeded_bytes_bounds(details: Seq<ImageDetailView>)
    ensures
        succeeded_original_bytes(details) <= details.len() * 0xFFFF_FFFF_FFFF_FFFF,
        succeeded_compressed_bytes(details) <= details.len() * 0xFFFF_FFFF_FFFF_FFFF,
    decreases details.len(),
{
    if details.len() > 0 {
        lemma_succeeded_bytes_bounds(details.drop_last());
        assert((details.len() - 1) * 0xFFFF_FFFF_FFFF_FFFF + 0xFFFF_FFFF_FFFF_FFFF == details.len()
            * 0xFFFF_FFFF_FFFF_FFFF) by (nonlinear_arith);
    }
}

/// The shared progress state of the current batch.
pub struct BatchState {
    progress: ConversionProgress,
    details: Vec<ImageDetail>,
    finished: bool,
    issued: Ghost<Seq<UpdateView>>,
}

impl View for BatchState {
    type V = BatchView;

    closed spec fn view(&self) -> BatchView {
        BatchView {
            total: self.progress.total as nat,
            completed: self.progress.completed as nat,
            status_text: self.progress.status@,
            details: detail_views(self.details@),
            finished: self.finished,
            issued: self.issued@,
        }
    }
}

impl BatchState {
    /// The state before any batch: no jobs, nothing issued, no summary.
    pub fn new() -> (state: BatchState)
        ensures
            state@ == (BatchView {
                status_text: Seq::empty(),
                ..BatchView::begun(Seq::empty())
            }),
            state@.wf(),
    {
        let state = BatchState {
            progress: ConversionProgress { total: 0, completed: 0, status: String::new() },
            details: Vec::new(),
            finished: false,
            issued: Ghost(Seq::empty()),
        };
        assert(state@.details =~= BatchView::begun(Seq::empty()).details);
        proof {
            lemma_begun_wf(Seq::empty());
        }
        state
    }

    /// Starts a batch of the given files: the records of any earlier batch
    /// are replaced as a whole by one loaded record for each file, and the
    /// counters are reset with them.
    pub fn begin(&mut self, sources: &Vec<SourceFile>)
        ensures
            final(self)@ == BatchView::begun(source_views(sources@)),
            final(self)@.wf(),
    {
        let details = fresh_records(sources);
        self.progress = ConversionProgress {
            total: sources.len(),
            completed: 0,
            status: String::from_str("Starting conversion..."),
        };
        self.details = details;
        self.finished = false;
        self.issued = Ghost(Seq::empty());
        assert(self@.details =~= BatchView::begun(source_views(sources@)).details);
        proof {
            lemma_begun_wf(source_views(sources@));
        }
    }

    /// A worker takes up the item at `index`: a loaded item of an open batch
    /// starts processing. On any other item, or
    /// an index that is no job's, nothing changes and nothing is issued.
    pub fn start_item(&mut self, index: usize) -> (events: Vec<ConversionUpdate>)
        requires
            old(self)@.wf(),
        ensures
            final(self)@ == old(self)@.apply(BatchOp::Start(index as nat)),
            update_views(events@) == old(self)@.events_of(BatchOp::Start(index as nat)),
            final(self)@.wf(),
    {
        let ghost op = BatchOp::Start(index as nat);
        proof {
            lemma_apply_preserves_wf(self@, op);
        }
        let mut events: Vec<ConversionUpdate> = Vec::new();
        if self.finished || index >= self.details.len() {
            assert(update_views(events@) =~= old(self)@.events_of(op));
            return events;
        }
        if self.details[index].status != ItemStatus::Loaded {
            assert(self.details@[index as int]@.status != ItemStatus::Loaded);
            assert(update_views(events@) =~= old(self)@.events_of(op));
            return events;
        }
        self.details[index].status = ItemStatus::Processing;
        events.push(ConversionUpdate::StatusUpdate(index, ItemStatus::Processing, None));
        assert(update_views(events@) =~= old(self)@.events_of(op));
        self.issued = Ghost(self.issued@ + update_views(events@));
        assert(self@.details =~= old(self)@.apply(op).details);
        events
    }
    /// The worker of the item at `index` reports how it ended: a processing
    /// item of an open batch takes the outcome's terminal status, the count
    /// of completed items grows by one and the summary is rewritten. The
    /// record keeps the original size of its submission. On any other item,
    /// or an index that is no job's,
    /// nothing changes and nothing is issued.
    pub fn complete_item(&mut self, index: usize, outcome: JobOutcome) -> (events: Vec<
        ConversionUpdate,
    >)
        requires
            old(self)@.wf(),
        ensures
            final(self)@ == old(self)@.apply(BatchOp::Complete(index as nat, outcome@)),
            update_views(events@) == old(self)@.events_of(
                BatchOp::Complete(index as nat, outcome@),
            ),
            final(self)@.wf(),
    {
        let ghost op = BatchOp::Complete(index as nat, outcome@);
        proof {
            lemma_apply_preserves_wf(self@, op);
        }
        let mut events: Vec<ConversionUpdate> = Vec::new();
        if self.finished || index >= self.details.len() {
            assert(update_views(events@) =~= old(self)@.events_of(op));
            return events;
        }
        if self.details[index].status != ItemStatus::Processing {
            assert(self.details@[index as int]@.status != ItemStatus::Processing);
            assert(update_views(events@) =~= old(self)@.events_of(op));
            return events;
        }
        assert(old(self)@.enabled(op));
        assert(old(self)@.apply(op).completed <= old(self)@.total);
        let completed: usize = self.progress.completed + 1;
        let total: usize = self.progress.total;
        match outcome {
            JobOutcome::Succeeded { original_size, compressed_size } => {
                let ratio = CompressionRatio::of(original_size, compressed_size);
                self.details[index].compressed_size = Some(compressed_size);
                self.details[index].compression_rate = Some(ratio);
                self.details[index].status = ItemStatus::Succeeded;
                self.details[index].error_message = None;
                events.push(
                    ConversionUpdate::ImageProcessed(index, Some(compressed_size), Some(ratio)),
                );
                events.push(ConversionUpdate::StatusUpdate(index, ItemStatus::Succeeded, None));
            },
            JobOutcome::Failed { error } => {
                let message = error.message;
                self.details[index].compressed_size = None;
                self.details[index].compression_rate = None;
                self.details[index].status = ItemStatus::Failed;
                self.details[index].error_message = Some(message.clone());
                events.push(
                    ConversionUpdate::StatusUpdate(index, ItemStatus::Failed, Some(message)),
                );
            },
        }
        events.push(ConversionUpdate::Progress(completed, total));
        let mut status = String::from_str("Converting image ");
        status.append(decimal(completed as u64).as_str());
        status.append(" of ");
        status.append(decimal(total as u64).as_str());
        assert(status@ =~= progress_text(completed as nat, total as nat));
        self.progress.completed = completed;
        self.progress.status = status;
        assert(update_views(events@) =~= old(self)@.events_of(op));
        self.issued = Ghost(self.issued@ + update_views(events@));
        assert(self@.details =~= old(self)@.apply(op).details);
        events
    }

    /// The totals over the succeeded records: original bytes, compressed
    /// bytes.
    pub fn totals(&self) -> (sums: (u128, u128))
        ensures
            sums.0 == succeeded_original_bytes(self@.details),
            sums.1 == succeeded_compressed_bytes(self@.details),
    {
        let ghost all = detail_views(self.details@);
        let mut original: u128 = 0;
        let mut compressed: u128 = 0;
        let mut index: usize = 0;
        assert(all.take(0) =~= Seq::<ImageDetailView>::empty());
        while index < self.details.len()
            invariant
                index <= self.details@.len(),
                all == detail_views(self.details@),
                original == succeeded_original_bytes(all.take(index as int)),
                compressed == succeeded_compressed_bytes(all.take(index as int)),
            decreases self.details@.len() - index,
        {
            proof {
                assert(all.take(index + 1).drop_last() =~= all.take(index as int));
                assert(all.take(index + 1).last() == all[index as int]);
                lemma_succeeded_bytes_bounds(all.take(index + 1));
                assert(all.take(index + 1).len() * 0xFFFF_FFFF_FFFF_FFFF <= 0xFFFF_FFFF_FFFF_FFFF
                    * 0xFFFF_FFFF_FFFF_FFFF) by (nonlinear_arith)
                    requires
                        all.take(index + 1).len() <= 0xFFFF_FFFF_FFFF_FFFF,
                ;
            }
            let detail = &self.details[index];
            if detail.status == ItemStatus::Succeeded {
                original = original + detail.original_size as u128;
                match detail.compressed_size {
                    Some(size) => {
                        compressed = compressed + size as u128;
                    },
                    None => {},
                }
            }
            index = index + 1;
        }
        assert(all.take(index as int) =~= all);
        (original, compressed)
    }

    /// Closes the batch once every item has completed: the totals over the
    /// succeeded items are issued, then `Completed`; a batch without jobs
    /// issues `Completed` alone. While an item is still open, or once the
    /// batch is closed, nothing changes and nothing is issued.
    pub fn finish(&mut self) -> (events: Vec<ConversionUpdate>)
        requires
            old(self)@.wf(),
        ensures
            final(self)@ == old(self)@.apply(BatchOp::Finish),
            update_views(events@) == old(self)@.events_of(BatchOp::Finish),
            final(self)@.wf(),
    {
        let ghost op = BatchOp::Finish;
        proof {
            lemma_apply_preserves_wf(self@, op);
        }
        let mut events: Vec<ConversionUpdate> = Vec::new();
        if self.finished || self.progress.completed != self.progress.total {
            assert(update_views(events@) =~= old(self)@.events_of(op));
            return events;
        }
        if self.progress.total > 0 {
            let (original, compressed) = self.totals();
            events.push(ConversionUpdate::ResultsUpdate(original, compressed));
        }
        events.push(ConversionUpdate::Completed);
        self.progress.status = String::from_str("Conversion complete!");
        self.finished = true;
        assert(update_views(events@) =~= old(self)@.events_of(op));
        self.issued = Ghost(self.issued@ + update_views(events@));
        events
    }

    /// The aggregate progress.
    pub fn progress(&self) -> (progress: &ConversionProgress)
        ensures
            progress.total == self@.total,
            progress.completed == self@.completed,
            progress.status@ == self@.status_text,
    {
        &self.progress
    }

    /// The records, one for each job, in the order of submission.
    pub fn details(&self) -> (details: &Vec<ImageDetail>)
        ensures
            detail_views(details@) == self@.details,
    {
        &self.details
    }

    /// Whether a worker has the item at `index` in hand: it was taken up and
    /// has not completed. Every worker's own item is marked so, from the
    /// moment it starts until it ends, however it ends.
    pub fn is_active(&self, index: usize) -> (active: bool)
        ensures
            active == self@.is_active(index as nat),
    {
        if index < self.details.len() {
            let active = self.details[index].status == ItemStatus::Processing;
            assert(self.details@[index as int]@.status == self@.details[index as int].status);
            active
        } else {
            false
        }
    }

    /// Whether the batch was closed.
    pub fn is_finished(&self) -> (finished: bool)
        ensures
            finished == self@.finished,
    {
        self.finished
    }
}

} // verus!
