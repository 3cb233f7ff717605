use webp_converter::batch::{BatchState, JobOutcome};
use webp_converter::codec::{ConversionError, ErrorKind};
use webp_converter::events::{ConversionUpdate, EventChannel};
use webp_converter::job::SourceFile;
use webp_converter::progress::{CompressionRatio, ImageDetail, ItemStatus};

fn source(name: &str, size: u64) -> SourceFile {
    SourceFile {
        path: format!("/in/{}", name),
        name: name.to_string(),
        stem: name.trim_end_matches(".jpg").to_string(),
        parent: Some("/in".to_string()),
        extension: Some("jpg".to_string()),
        original_size: size,
    }
}

fn batch_of(sizes: &[u64]) -> BatchState {
    let sources: Vec<SourceFile> =
        sizes.iter().enumerate().map(|(i, s)| source(&format!("{}.jpg", i), *s)).collect();
    let mut state = BatchState::new();
    state.begin(&sources);
    state
}

fn failure(kind: ErrorKind, message: &str) -> JobOutcome {
    JobOutcome::Failed { error: ConversionError { kind, message: message.to_string() } }
}

fn succeeded(original_size: u64, compressed_size: u64) -> JobOutcome {
    JobOutcome::Succeeded { original_size, compressed_size }
}

fn is_terminal_status(update: &ConversionUpdate) -> bool {
    matches!(update, ConversionUpdate::StatusUpdate(_, ItemStatus::Succeeded, _))
        || matches!(update, ConversionUpdate::StatusUpdate(_, ItemStatus::Failed, _))
}

#[test]
fn new_state_is_an_empty_batch() {
    let state = BatchState::new();
    assert_eq!(state.progress().total, 0);
    assert_eq!(state.progress().completed, 0);
    assert_eq!(state.progress().status, "");
    assert!(state.details().is_empty());
    assert!(!state.is_active(0));
    assert!(!state.is_finished());
}

#[test]
fn begin_resets_counters_and_loads_one_record_per_file() {
    let state = batch_of(&[100, 200, 300]);
    assert_eq!(state.progress().total, 3);
    assert_eq!(state.progress().completed, 0);
    assert_eq!(state.progress().status, "Starting conversion...");
    assert_eq!(state.details().len(), 3);
    for (i, detail) in state.details().iter().enumerate() {
        assert_eq!(detail.name, format!("{}.jpg", i));
        assert_eq!(detail.original_size, 100 * (i as u64 + 1));
        assert_eq!(detail.status, ItemStatus::Loaded);
        assert_eq!(detail.compressed_size, None);
        assert_eq!(detail.compression_rate, None);
        assert_eq!(detail.error_message, None);
    }
}

#[test]
fn begin_replaces_the_records_of_the_earlier_batch_as_a_whole() {
    let mut state = batch_of(&[100, 200]);
    state.start_item(0);
    state.complete_item(0, succeeded(100, 40));
    state.begin(&vec![source("new.jpg", 7)]);
    assert_eq!(state.progress().total, 1);
    assert_eq!(state.progress().completed, 0);
    assert_eq!(state.details().len(), 1);
    assert_eq!(state.details()[0].name, "new.jpg");
    assert_eq!(state.details()[0].status, ItemStatus::Loaded);
    assert!(!state.is_finished());
}

#[test]
fn start_item_marks_processing_and_issues_one_status_event() {
    let mut state = batch_of(&[100, 200]);
    let events = state.start_item(1);
    assert_eq!(events.len(), 1);
    assert!(matches!(events[0], ConversionUpdate::StatusUpdate(1, ItemStatus::Processing, None)));
    assert_eq!(state.details()[1].status, ItemStatus::Processing);
    assert_eq!(state.details()[0].status, ItemStatus::Loaded);
    assert!(state.is_active(1));
    assert!(!state.is_active(0));
    assert!(!state.is_active(2));
    assert_eq!(state.progress().completed, 0);
}

#[test]
fn start_item_twice_or_out_of_range_changes_nothing() {
    let mut state = batch_of(&[100]);
    assert_eq!(state.start_item(0).len(), 1);
    assert!(state.start_item(0).is_empty());
    assert!(state.start_item(1).is_empty());
    assert!(state.start_item(usize::MAX).is_empty());
    assert_eq!(state.details()[0].status, ItemStatus::Processing);
}

#[test]
fn complete_item_with_success_updates_record_counters_and_events() {
    let mut state = batch_of(&[1000, 2000]);
    state.start_item(0);
    let events = state.complete_item(0, succeeded(1000, 250));
    assert_eq!(events.len(), 3);
    let ratio = CompressionRatio { original_size: 1000, compressed_size: 250 };
    match &events[0] {
        ConversionUpdate::ImageProcessed(0, Some(250), Some(r)) => assert_eq!(*r, ratio),
        other => panic!("unexpected event {:?}", other),
    }
    assert!(matches!(events[1], ConversionUpdate::StatusUpdate(0, ItemStatus::Succeeded, None)));
    assert!(matches!(events[2], ConversionUpdate::Progress(1, 2)));
    let detail = &state.details()[0];
    assert_eq!(detail.status, ItemStatus::Succeeded);
    assert_eq!(detail.compressed_size, Some(250));
    assert_eq!(detail.compression_rate, Some(ratio));
    assert_eq!(detail.error_message, None);
    assert_eq!(state.progress().completed, 1);
    assert_eq!(state.progress().status, "Converting image 1 of 2");
    assert!(!state.is_active(0));
}

#[test]
fn complete_item_keeps_the_original_size_of_the_submission() {
    let mut state = batch_of(&[1000]);
    state.start_item(0);
    state.complete_item(0, succeeded(900, 300));
    let detail = &state.details()[0];
    assert_eq!(detail.original_size, 1000);
    assert_eq!(detail.compressed_size, Some(300));
    assert_eq!(
        detail.compression_rate,
        Some(CompressionRatio { original_size: 900, compressed_size: 300 })
    );
    assert!(detail.compression_rate.unwrap().is_fraction(2, 3));
}

#[test]
fn complete_item_with_failure_records_the_message() {
    let mut state = batch_of(&[1000, 2000]);
    state.start_item(1);
    let events = state.complete_item(1, failure(ErrorKind::Decode, "no such file"));
    assert_eq!(events.len(), 2);
    match &events[0] {
        ConversionUpdate::StatusUpdate(1, ItemStatus::Failed, Some(message)) => {
            assert_eq!(message, "no such file")
        }
        other => panic!("unexpected event {:?}", other),
    }
    assert!(matches!(events[1], ConversionUpdate::Progress(1, 2)));
    let detail = &state.details()[1];
    assert_eq!(detail.status, ItemStatus::Failed);
    assert_eq!(detail.error_message.as_deref(), Some("no such file"));
    assert_eq!(detail.compressed_size, None);
    assert_eq!(detail.compression_rate, None);
    assert_eq!(detail.original_size, 2000);
    assert_eq!(state.progress().completed, 1);
}

#[test]
fn complete_item_needs_a_processing_item() {
    let mut state = batch_of(&[1000]);
    assert!(state.complete_item(0, succeeded(1000, 10)).is_empty());
    assert_eq!(state.details()[0].status, ItemStatus::Loaded);
    assert_eq!(state.progress().completed, 0);
    assert!(state.complete_item(5, succeeded(1000, 10)).is_empty());
}

#[test]
fn a_terminal_status_is_never_left() {
    let mut state = batch_of(&[1000]);
    state.start_item(0);
    state.complete_item(0, failure(ErrorKind::Encode, "rejected"));
    assert!(state.complete_item(0, succeeded(1000, 10)).is_empty());
    assert!(state.start_item(0).is_empty());
    let detail = &state.details()[0];
    assert_eq!(detail.status, ItemStatus::Failed);
    assert_eq!(detail.error_message.as_deref(), Some("rejected"));
    assert_eq!(state.progress().completed, 1);
}

#[test]
fn completed_grows_by_one_with_each_item_and_stops_at_total() {
    let mut state = batch_of(&[10, 20, 30, 40]);
    let order = [2usize, 0, 3, 1];
    let mut seen = 0;
    for index in order {
        state.start_item(index);
    }
    for index in order {
        assert_eq!(state.progress().completed, seen);
        state.complete_item(index, succeeded(10, 5));
        seen += 1;
        assert_eq!(state.progress().completed, seen);
        assert!(state.progress().completed <= state.progress().total);
    }
    assert_eq!(state.progress().completed, 4);
    assert_eq!(state.progress().status, "Converting image 4 of 4");
}

#[test]
fn finish_waits_for_every_item() {
    let mut state = batch_of(&[10, 20]);
    assert!(state.finish().is_empty());
    state.start_item(0);
    state.complete_item(0, succeeded(10, 4));
    assert!(state.finish().is_empty());
    assert!(!state.is_finished());
    state.start_item(1);
    state.complete_item(1, failure(ErrorKind::Io, "disk full"));
    let events = state.finish();
    assert_eq!(events.len(), 2);
    assert!(matches!(events[0], ConversionUpdate::ResultsUpdate(10, 4)));
    assert!(matches!(events[1], ConversionUpdate::Completed));
    assert!(state.is_finished());
    assert_eq!(state.progress().status, "Conversion complete!");
}

#[test]
fn finish_issues_completed_exactly_once() {
    let mut state = batch_of(&[10]);
    state.start_item(0);
    state.complete_item(0, succeeded(10, 4));
    assert_eq!(state.finish().len(), 2);
    assert!(state.finish().is_empty());
    assert!(state.finish().is_empty());
}

#[test]
fn an_empty_batch_still_completes() {
    let mut state = BatchState::new();
    state.begin(&Vec::new());
    let events = state.finish();
    assert_eq!(events.len(), 1);
    assert!(matches!(events[0], ConversionUpdate::Completed));
    assert_eq!(state.progress().completed, 0);
    assert_eq!(state.progress().total, 0);
    assert!(state.is_finished());
    assert!(state.finish().is_empty());
    let mut fresh = BatchState::new();
    let events = fresh.finish();
    assert_eq!(events.len(), 1);
    assert!(matches!(events[0], ConversionUpdate::Completed));
}

#[test]
fn totals_count_succeeded_items_only() {
    let mut state = batch_of(&[1000, 2000, 3000]);
    for i in 0..3 {
        state.start_item(i);
    }
    state.complete_item(0, succeeded(1000, 100));
    state.complete_item(1, failure(ErrorKind::Decode, "bad"));
    assert_eq!(state.totals(), (1000, 100));
    state.complete_item(2, succeeded(3000, 4000));
    assert_eq!(state.totals(), (4000, 4100));
}

#[test]
fn totals_do_not_overflow_sixty_four_bits() {
    let mut state = batch_of(&[u64::MAX, u64::MAX]);
    state.start_item(0);
    state.start_item(1);
    state.complete_item(0, succeeded(u64::MAX, u64::MAX));
    state.complete_item(1, succeeded(u64::MAX, 1));
    assert_eq!(state.totals(), (2 * (u64::MAX as u128), u64::MAX as u128 + 1));
}

#[test]
fn nothing_changes_once_the_batch_is_closed() {
    let mut state = batch_of(&[10]);
    state.start_item(0);
    state.complete_item(0, succeeded(10, 4));
    state.finish();
    assert!(state.start_item(0).is_empty());
    assert!(state.complete_item(0, succeeded(10, 4)).is_empty());
    assert_eq!(state.progress().completed, 1);
    assert!(state.is_finished());
}

#[test]
fn n_jobs_issue_n_terminal_events_and_then_one_completed() {
    let n = 5usize;
    let mut state = batch_of(&[10, 20, 30, 40, 50]);
    let mut channel = EventChannel::new();
    for i in [4usize, 1, 3, 0, 2] {
        channel.send_all(state.start_item(i));
        let outcome = if i % 2 == 0 { succeeded(10, 5) } else { failure(ErrorKind::Encode, "no") };
        channel.send_all(state.complete_item(i, outcome));
        channel.send_all(state.complete_item(i, succeeded(1, 1)));
    }
    channel.send_all(state.finish());
    channel.send_all(state.finish());
    let stream = channel.drain();
    assert_eq!(stream.iter().filter(|u| is_terminal_status(u)).count(), n);
    assert_eq!(stream.iter().filter(|u| matches!(u, ConversionUpdate::Completed)).count(), 1);
    assert!(matches!(stream.last(), Some(ConversionUpdate::Completed)));
    for i in 0..n {
        let of_item = stream
            .iter()
            .filter(|u| match u {
                ConversionUpdate::StatusUpdate(index, status, _) => {
                    *index == i && status.terminal()
                }
                _ => false,
            })
            .count();
        assert_eq!(of_item, 1);
    }
    assert_eq!(state.progress().completed, state.progress().total);
}

#[test]
fn image_detail_loaded_has_no_results() {
    let detail = ImageDetail::loaded("a.png".to_string(), 12);
    assert_eq!(detail.name, "a.png");
    assert_eq!(detail.original_size, 12);
    assert_eq!(detail.status, ItemStatus::Loaded);
    assert!(detail.compressed_size.is_none() && detail.compression_rate.is_none());
    assert!(detail.error_message.is_none());
}

#[test]
fn item_status_labels_and_terminality() {
    assert_eq!(ItemStatus::Loaded.label(), "Load successful");
    assert_eq!(ItemStatus::Processing.label(), "Processing...");
    assert_eq!(ItemStatus::Succeeded.label(), "Conversion successful");
    assert_eq!(ItemStatus::Failed.label(), "Conversion failed");
    assert!(!ItemStatus::Loaded.terminal());
    assert!(!ItemStatus::Processing.terminal());
    assert!(ItemStatus::Succeeded.terminal());
    assert!(ItemStatus::Failed.terminal());
}

#[test]
fn compression_ratio_is_one_less_the_quotient_of_the_sizes() {
    let ratio = CompressionRatio::of(1000, 250);
    assert_eq!(ratio.saved_bytes(), 750);
    assert!(ratio.is_fraction(3, 4));
    assert!(ratio.is_fraction(75, 100));
    assert!(!ratio.is_fraction(1, 4));
    assert!(!ratio.is_fraction(3, 0));
}

#[test]
fn compression_ratio_is_negative_where_the_output_is_larger() {
    let ratio = CompressionRatio::of(100, 150);
    assert_eq!(ratio.saved_bytes(), -50);
    assert!(ratio.is_fraction(-1, 2));
    assert!(ratio.is_fraction(1, -2));
    assert!(!ratio.is_fraction(1, 2));
}

#[test]
fn compression_ratio_of_an_empty_original_is_no_fraction() {
    let ratio = CompressionRatio::of(0, 10);
    assert_eq!(ratio.saved_bytes(), -10);
    assert!(!ratio.is_fraction(0, 1));
    assert!(!ratio.is_fraction(-10, 1));
}

#[test]
fn compression_ratio_at_the_limits_of_the_sizes() {
    assert_eq!(CompressionRatio::of(u64::MAX, 0).saved_bytes(), u64::MAX as i128);
    assert_eq!(CompressionRatio::of(0, u64::MAX).saved_bytes(), -(u64::MAX as i128));
    assert!(CompressionRatio::of(u64::MAX, 0).is_fraction(i64::MIN, i64::MIN));
    assert!(CompressionRatio::of(u64::MAX, u64::MAX).is_fraction(0, i64::MAX));
}

#[test]
fn event_channel_is_first_in_first_out_and_never_waits() {
    let mut channel = EventChannel::new();
    assert_eq!(channel.len(), 0);
    assert!(channel.try_recv().is_none());
    channel.send(ConversionUpdate::Progress(1, 3));
    channel.send(ConversionUpdate::Progress(2, 3));
    channel.send_all(vec![ConversionUpdate::Progress(3, 3), ConversionUpdate::Completed]);
    assert_eq!(channel.len(), 4);
    assert!(matches!(channel.try_recv(), Some(ConversionUpdate::Progress(1, 3))));
    assert!(matches!(channel.try_recv(), Some(ConversionUpdate::Progress(2, 3))));
    let rest = channel.drain();
    assert_eq!(rest.len(), 2);
    assert!(matches!(rest[0], ConversionUpdate::Progress(3, 3)));
    assert!(matches!(rest[1], ConversionUpdate::Completed));
    assert_eq!(channel.len(), 0);
    assert!(channel.try_recv().is_none());
    assert!(channel.drain().is_empty());
}

#[test]
fn every_worker_has_its_own_item_marked_until_it_ends() {
    let mut state = batch_of(&[10, 20, 30]);
    state.start_item(0);
    state.start_item(2);
    assert!(state.is_active(0) && state.is_active(2) && !state.is_active(1));
    state.complete_item(2, succeeded(30, 3));
    assert!(state.is_active(0));
    assert!(!state.is_active(2));
    state.complete_item(0, failure(ErrorKind::Io, "no"));
    assert!(!state.is_active(0));
    assert!(!state.is_active(3));
}

#[test]
fn the_ratio_of_a_success_is_made_of_the_sizes_read_at_the_end() {
    let mut state = batch_of(&[1000]);
    state.start_item(0);
    let events = state.complete_item(0, succeeded(800, 200));
    let ratio = CompressionRatio { original_size: 800, compressed_size: 200 };
    assert_eq!(state.details()[0].compression_rate, Some(ratio));
    assert!(ratio.is_fraction(3, 4));
    match &events[0] {
        ConversionUpdate::ImageProcessed(0, Some(200), Some(r)) => assert_eq!(*r, ratio),
        other => panic!("unexpected event {:?}", other),
    }
}
