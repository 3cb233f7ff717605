//! The state of the application that the user drives: the files and
//! settings of the next batch, and the consumer's own picture of the batch
//! that runs, kept up to date from the events it drains.

use crate::batch::{lemma_apply_preserves_wf, lemma_begun_wf, lemma_run_preserves_wf, BatchOp, BatchView};
use crate::events::{update_views, ConversionUpdate, UpdateView};
use crate::job::{
    fresh_details, fresh_records, plan_jobs, planned_job, resolve_output_directory,
    resolved_output_directory, source_views, ConversionSettings, JobUnit, SettingsView, SourceFile,
    SourceFileView,
};
use crate::progress::{
    detail_views, succeeded_compressed_bytes, succeeded_original_bytes, text_view, ImageDetail,
    ImageDetailView, ItemStatus,
};
use vstd::prelude::*;

verus! {

/// The application state.
#[derive(Debug)]
pub struct App {
    /// The files selected for the next batch.
    pub input_files: Vec<SourceFile>,
    /// The directory chosen for the outputs, if one was chosen.
    pub output_directory: Option<String>,
    /// Resize, quality and rename settings.
    pub settings: ConversionSettings,
    /// The number of jobs of the batch, as last reported.
    pub total: usize,
    /// The number of completed jobs, as last reported.
    pub completed: usize,
    /// One record for each selected file.
    pub image_details: Vec<ImageDetail>,
    /// The original bytes of the succeeded items, once reported.
    pub original_size: Option<u128>,
    /// The compressed bytes of the succeeded items, once reported.
    pub compressed_size: Option<u128>,
    /// Whether a batch is under way and its events are still to be drained.
    pub converting: bool,
}

/// The mathematical content of the application state.
pub struct AppView {
    pub input_files: Seq<SourceFileView>,
    pub output_directory: Option<Seq<char>>,
    pub settings: SettingsView,
    pub total: usize,
    pub completed: usize,
    pub image_details: Seq<ImageDetailView>,
    pub original_size: Option<u128>,
    pub compressed_size: Option<u128>,
    pub converting: bool,
}

impl View for App {
    type V = AppView;

    open spec fn view(&self) -> AppView {
        AppView {
            input_files: source_views(self.input_files@),
            output_directory: text_view(self.output_directory),
            settings: self.settings@,
            total: self.total,
            completed: self.completed,
            image_details: detail_views(self.image_details@),
            original_size: self.original_size,
            compressed_size: self.compressed_size,
            converting: self.converting,
        }
    }
}

/// What draining a run of events amounts to for the caller.
#[derive(Clone, Copy, Debug, PartialEq, Eq, Structural)]
pub struct DrainSummary {
    /// `Completed` was among the events: the channel can be let go.
    pub completed: bool,
    /// There was at least one event: the picture has to be drawn again.
    pub needs_redraw: bool,
}

/// Whether `Completed` is among the events.
pub open spec fn has_completed(updates: Seq<UpdateView>) -> bool {
    exists|i: int| 0 <= i < updates.len() && updates[i] == UpdateView::Completed
}

impl AppView {
    /// The state of a fresh application.
    pub open spec fn initial() -> AppView {
        AppView {
            input_files: Seq::empty(),
            output_directory: None,
            settings: SettingsView {
                resize_enabled: false,
                width: 800,
                height: 600,
                quality_enabled: false,
                compression_quality: 80,
                rename_enabled: false,
                output_filename: "output"@,
            },
            total: 0,
            completed: 0,
            image_details: Seq::empty(),
            original_size: None,
            compressed_size: None,
            converting: false,
        }
    }

    /// The state after the user has selected the files: they replace the
    /// earlier selection, and each gets a fresh record.
    pub open spec fn selected(self, files: Seq<SourceFileView>) -> AppView {
        AppView {
            input_files: files,
            image_details: fresh_details(files),
            ..self
        }
    }

    /// The state after the selected files were submitted: a batch is under
    /// way, every file has a fresh record, and nothing is completed or
    /// totalled yet.
    pub open spec fn submitted(self) -> AppView {
        AppView {
            total: self.input_files.len() as usize,
            completed: 0,
            image_details: fresh_details(self.input_files),
            original_size: None,
            compressed_size: None,
            converting: true,
            ..self
        }
    }

    /// Whether a status event moves the record at `index` forward: there is
    /// such a record, it is not in a terminal status, and the status that
    /// arrives is not behind the one it has.
    pub open spec fn takes_status(self, index: usize, status: ItemStatus) -> bool {
        &&& index < self.image_details.len()
        &&& !self.image_details[index as int].status.is_terminal()
        &&& status.rank() >= self.image_details[index as int].status.rank()
    }

    /// The state after one event was taken in. Events may arrive in another
    /// order than they were issued in, so the picture only moves forward: a
    /// count of completed items that is behind the one shown is passed over,
    /// a status that is behind the one shown is passed over, and a record in
    /// a terminal status keeps its status and message. A converted item's
    /// event sets the compressed size and the ratio and nothing else. An
    /// event for an index that has no record changes nothing.
    pub open spec fn applied(self, update: UpdateView) -> AppView {
        match update {
            UpdateView::Progress(completed, total) => if completed >= self.completed {
                AppView { completed, total, ..self }
            } else {
                self
            },
            UpdateView::ImageProcessed(index, compressed_size, compression_rate) => if index
                < self.image_details.len() {
                AppView {
                    image_details: self.image_details.update(
                        index as int,
                        ImageDetailView {
                            compressed_size,
                            compression_rate,
                            ..self.image_details[index as int]
                        },
                    ),
                    ..self
                }
            } else {
                self
            },
            UpdateView::StatusUpdate(index, status, error_message) => if self.takes_status(
                index,
                status,
            ) {
                AppView {
                    image_details: self.image_details.update(
                        index as int,
                        ImageDetailView {
                            status,
                            error_message,
                            ..self.image_details[index as int]
                        },
                    ),
                    ..self
                }
            } else {
                self
            },
            UpdateView::ResultsUpdate(original, compressed) => AppView {
                original_size: Some(original),
                compressed_size: Some(compressed),
                ..self
            },
            UpdateView::Completed => AppView { converting: false, ..self },
        }
    }

    /// The state after the events were taken in, in order.
    pub open spec fn applied_all(self, updates: Seq<UpdateView>) -> AppView
        decreases updates.len(),
    {
        if updates.len() == 0 {
            self
        } else {
            self.applied_all(updates.drop_last()).applied(updates.last())
        }
    }
}

impl Default for App {
    fn default() -> (app: App)
        ensures
            app@ == AppView::initial(),
    {
        let app = App {
            input_files: Vec::new(),
            output_directory: None,
            settings: ConversionSettings::default(),
            total: 0,
            completed: 0,
            image_details: Vec::new(),
            original_size: None,
            compressed_size: None,
            converting: false,
        };
        assert(app@.input_files =~= Seq::<SourceFileView>::empty());
        assert(app@.image_details =~= Seq::<ImageDetailView>::empty());
        app
    }
}

impl App {
    /// Takes the files that the user selected.
    pub fn select_images(&mut self, files: Vec<SourceFile>)
        ensures
            final(self)@ == old(self)@.selected(source_views(files@)),
    {
        let details = fresh_records(&files);
        self.input_files = files;
        self.image_details = details;
        assert(self@.image_details =~= old(self)@.selected(source_views(files@)).image_details);
    }

    /// Takes the output directory that the user selected.
    pub fn select_output_directory(&mut self, directory: String)
        ensures
            final(self)@ == (AppView { output_directory: Some(directory@), ..old(self)@ }),
    {
        self.output_directory = Some(directory);
    }

    /// The directory that the next batch writes to: the selected one, or
    /// else the directory of the first selected file. `None` stands for the
    /// working directory.
    pub fn output_directory_for_batch(&self) -> (directory: Option<String>)
        ensures
            text_view(directory) == resolved_output_directory(
                self@.output_directory,
                self@.input_files,
            ),
    {
        let chosen = match &self.output_directory {
            Some(directory) => Some(directory.clone()),
            None => None,
        };
        resolve_output_directory(chosen, &self.input_files)
    }

    /// Submits the selected files with the current settings: one job for
    /// each file, in order, all writing to `output_directory`. The picture
    /// of the earlier batch is replaced as a whole.
    pub fn start_conversion(&mut self, output_directory: &str) -> (jobs: Vec<JobUnit>)
        ensures
            final(self)@ == old(self)@.submitted(),
            jobs@.len() == old(self)@.input_files.len(),
            forall|i: int|
                0 <= i < jobs@.len() ==> (#[trigger] jobs@[i])@ == planned_job(
                    old(self)@.settings,
                    output_directory@,
                    old(self)@.input_files[i],
                    i as nat,
                ),
    {
        let jobs = plan_jobs(&self.input_files, output_directory, &self.settings);
        self.image_details = fresh_records(&self.input_files);
        self.total = self.input_files.len();
        self.completed = 0;
        self.original_size = None;
        self.compressed_size = None;
        self.converting = true;
        assert(self@.image_details =~= old(self)@.submitted().image_details);
        jobs
    }

    /// Takes one event in.
    pub fn apply_update(&mut self, update: ConversionUpdate)
        ensures
            final(self)@ == old(self)@.applied(update@),
    {
        match update {
            ConversionUpdate::Progress(completed, total) => {
                if completed >= self.completed {
                    self.completed = completed;
                    self.total = total;
                }
            },
            ConversionUpdate::ImageProcessed(index, compressed_size, compression_rate) => {
                if index < self.image_details.len() {
                    self.image_details[index].compressed_size = compressed_size;
                    self.image_details[index].compression_rate = compression_rate;
                    assert(self@.image_details =~= old(self)@.applied(update@).image_details);
                }
            },
            ConversionUpdate::StatusUpdate(index, status, error_message) => {
                if index < self.image_details.len() && !self.image_details[index].status.terminal()
                    && status.position() >= self.image_details[index].status.position() {
                    self.image_details[index].status = status;
                    self.image_details[index].error_message = error_message;
                    assert(self@.image_details =~= old(self)@.applied(update@).image_details);
                }
            },
            ConversionUpdate::ResultsUpdate(original, compressed) => {
                self.original_size = Some(original);
                self.compressed_size = Some(compressed);
            },
            ConversionUpdate::Completed => {
                self.converting = false;
            },
        }
    }

    /// Takes in the events that one poll of the channel drained, in order.
    pub fn apply_updates(&mut self, updates: Vec<ConversionUpdate>) -> (summary: DrainSummary)
        ensures
            final(self)@ == old(self)@.applied_all(update_views(updates@)),
            summary.needs_redraw == (updates@.len() > 0),
            summary.completed == has_completed(update_views(updates@)),
    {
        let ghost all = update_views(updates@);
        let needs_redraw = updates.len() > 0;
        let mut completed = false;
        let mut rest = updates;
        let ghost mut taken: Seq<UpdateView> = Seq::empty();
        while rest.len() > 0
            invariant
                taken + update_views(rest@) == all,
                self@ == old(self)@.applied_all(taken),
                completed == has_completed(taken),
            decreases rest.len(),
        {
            let ghost left = update_views(rest@);
            let update = rest.remove(0);
            let is_completed = match &update {
                ConversionUpdate::Completed => true,
                _ => false,
            };
            proof {
                let next = taken.push(update@);
                assert(next.drop_last() =~= taken);
                assert(next + update_views(rest@) =~= taken + left);
                if has_completed(taken) {
                    let i = choose|i: int| 0 <= i < taken.len() && taken[i] == UpdateView::Completed;
                    assert(next[i] == UpdateView::Completed);
                } else if is_completed {
                    assert(next[next.len() - 1] == UpdateView::Completed);
                } else {
                    assert forall|i: int| 0 <= i < next.len() implies next[i]
                        != UpdateView::Completed by {
                        if i < taken.len() {
                            assert(taken[i] == next[i]);
                        }
                    }
                }
                taken = next;
            }
            self.apply_update(update);
            completed = completed || is_completed;
        }
        assert(taken =~= all);
        DrainSummary { completed, needs_redraw }
    }
}

/// The consumer's picture shows what the shared state holds: the same
/// records and counters, a batch under way exactly while the shared one is
/// open, and the totals once a batch that had jobs is closed.
pub open spec fn mirrors(app: AppView, batch: BatchView) -> bool {
    &&& app.image_details == batch.details
    &&& app.total == batch.total
    &&& app.completed == batch.completed
    &&& app.converting == !batch.finished
    &&& app.original_size == if batch.finished && batch.total > 0 {
        Some(succeeded_original_bytes(batch.details) as u128)
    } else {
        None
    }
    &&& app.compressed_size == if batch.finished && batch.total > 0 {
        Some(succeeded_compressed_bytes(batch.details) as u128)
    } else {
        None
    }
}

/// Taking in one run of events after another is taking in both in order.
pub proof fn lemma_applied_all_append(app: AppView, first: Seq<UpdateView>, second: Seq<UpdateView>)
    ensures
        app.applied_all(first + second) == app.applied_all(first).applied_all(second),
    decreases second.len(),
{
    if second.len() == 0 {
        assert(first + second =~= first);
    } else {
        assert((first + second).drop_last() =~= first + second.drop_last());
        lemma_applied_all_append(app, first, second.drop_last());
    }
}

/// The events that a change of the shared state issues carry the change: a
/// picture that showed the state before shows the state after, once it has
/// taken them in.
pub proof fn lemma_events_carry_the_change(app: AppView, batch: BatchView, op: BatchOp)
    requires
        batch.wf(),
        mirrors(app, batch),
    ensures
        mirrors(app.applied_all(batch.events_of(op)), batch.apply(op)),
{
    let events = batch.events_of(op);
    let after = batch.apply(op);
    lemma_apply_preserves_wf(batch, op);
    let none = Seq::<UpdateView>::empty();
    assert(app.applied_all(none) == app);
    if batch.enabled(op) {
        match op {
            BatchOp::Start(index) => {
                assert(batch.details[index as int].consistent());
                assert(events.drop_last() =~= none);
                assert(app.applied_all(events).image_details =~= after.details);
            },
            BatchOp::Complete(index, outcome) => {
                assert(batch.details[index as int].consistent());
                let one = events.drop_last();
                assert(one.last() == events[events.len() - 2]);
                if events.len() == 3 {
                    let two = one.drop_last();
                    assert(two.drop_last() =~= none);
                    assert(two.last() == events[0]);
                    assert(app.applied_all(two) == app.applied(events[0]));
                    assert(app.applied_all(events).image_details =~= after.details);
                } else {
                    assert(one.drop_last() =~= none);
                    assert(app.applied_all(one) == app.applied(events[0]));
                    assert(app.applied_all(events).image_details =~= after.details);
                }
            },
            BatchOp::Finish => {
                let one = events.drop_last();
                if events.len() == 2 {
                    assert(one.drop_last() =~= none);
                    assert(one.last() == events[0]);
                } else {
                    assert(one =~= none);
                }
            },
        }
    }
}

/// Every event of a run is issued by one of its changes, in order.
proof fn lemma_run_issues_in_order(batch: BatchView, ops: Seq<BatchOp>)
    requires
        ops.len() > 0,
    ensures
        batch.apply_all(ops).issued == batch.apply_all(ops.drop_last()).issued + batch.apply_all(
            ops.drop_last(),
        ).events_of(ops.last()),
{
    let before = batch.apply_all(ops.drop_last());
    assert(before.issued + Seq::<UpdateView>::empty() =~= before.issued);
}

/// Whatever the workers do, in whatever order, a consumer that submitted
/// the batch and has taken in every event issued so far has a picture of
/// exactly the shared state.
pub proof fn lemma_replay_mirrors_batch(app: AppView, ops: Seq<BatchOp>)
    requires
        app.input_files.len() <= usize::MAX,
    ensures
        mirrors(
            app.submitted().applied_all(BatchView::begun(app.input_files).apply_all(ops).issued),
            BatchView::begun(app.input_files).apply_all(ops),
        ),
    decreases ops.len(),
{
    let begun = BatchView::begun(app.input_files);
    lemma_begun_wf(app.input_files);
    if ops.len() == 0 {
        assert(app.submitted().image_details =~= begun.details);
        assert(begun.issued =~= Seq::<UpdateView>::empty());
    } else {
        let before = begun.apply_all(ops.drop_last());
        lemma_replay_mirrors_batch(app, ops.drop_last());
        lemma_run_preserves_wf(begun, ops.drop_last());
        lemma_run_issues_in_order(begun, ops);
        lemma_applied_all_append(app.submitted(), before.issued, before.events_of(ops.last()));
        lemma_events_carry_the_change(app.submitted().applied_all(before.issued), before, ops.last());
    }
}

/// Every `Progress` event of the run counts no more completed items than
/// there are jobs.
pub open spec fn well_counted(updates: Seq<UpdateView>) -> bool {
    forall|i: int|
        0 <= i < updates.len() ==> (#[trigger] updates[i] matches UpdateView::Progress(
            completed,
            total,
        ) ==> completed <= total)
}

/// The picture after `later` events is not behind the picture before: it
/// has the same records under the same names and original sizes, the count
/// of completed items has not fallen, no status has gone back, and a record
/// that was in a terminal status has the status and message it had.
pub open spec fn not_behind(earlier: AppView, later: AppView) -> bool {
    &&& later.image_details.len() == earlier.image_details.len()
    &&& later.input_files == earlier.input_files
    &&& later.completed >= earlier.completed
    &&& forall|i: int|
        0 <= i < earlier.image_details.len() ==> {
            let before = #[trigger] earlier.image_details[i];
            let after = later.image_details[i];
            &&& after.name == before.name
            &&& after.original_size == before.original_size
            &&& after.status.rank() >= before.status.rank()
            &&& before.status.is_terminal() ==> after.status == before.status
                && after.error_message == before.error_message
        }
}

/// Whatever event arrives, and whether or not it is the next one that was
/// issued, the picture does not go back; and a count that was within the
/// number of jobs stays within it.
pub proof fn lemma_event_never_takes_the_picture_back(app: AppView, update: UpdateView)
    ensures
        not_behind(app, app.applied(update)),
        app.completed <= app.total && well_counted(seq![update]) ==> app.applied(update).completed
            <= app.applied(update).total,
{
    assert(seq![update][0] == update);
}

/// Whatever events arrive, in whatever order, the picture does not go
/// back: the count of completed items never falls and stays within the
/// number of jobs, a status only moves forward, and a record in a terminal
/// status is never replaced.
pub proof fn lemma_events_never_take_the_picture_back(app: AppView, updates: Seq<UpdateView>)
    ensures
        not_behind(app, app.applied_all(updates)),
        app.completed <= app.total && well_counted(updates) ==> app.applied_all(updates).completed
            <= app.applied_all(updates).total,
    decreases updates.len(),
{
    if updates.len() > 0 {
        let before = app.applied_all(updates.drop_last());
        lemma_events_never_take_the_picture_back(app, updates.drop_last());
        lemma_event_never_takes_the_picture_back(before, updates.last());
        if well_counted(updates) {
            assert forall|i: int| 0 <= i < updates.drop_last().len() implies (
            #[trigger] updates.drop_last()[i] matches UpdateView::Progress(completed, total)
                ==> completed <= total) by {
                assert(updates.drop_last()[i] == updates[i]);
            }
            assert(seq![updates.last()][0] == updates[updates.len() - 1]);
            assert(well_counted(seq![updates.last()]));
        }
        assert forall|i: int| 0 <= i < app.image_details.len() implies {
            let first = #[trigger] app.image_details[i];
            let last = app.applied_all(updates).image_details[i];
            &&& last.name == first.name
            &&& last.original_size == first.original_size
            &&& last.status.rank() >= first.status.rank()
            &&& first.status.is_terminal() ==> last.status == first.status && last.error_message
                == first.error_message
        } by {
            let middle = before.image_details[i];
        }
    }
}

} // verus!
