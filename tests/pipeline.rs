use azure_blob::{
    default_exec_interval_secs, AzureBlobConfig, AzureBlobStreamer, BatchAction, BatchNotifier,
    BatchOutcome, BatchPhase, BatchRun, ConfigError, DecodedEvent, DecodedItem, DeliveryStatus,
    LoopAction, LoopEvent, LoopState, QueueConfig, Strategy,
};
use azure_blob::{generated_rows, MAX_RFC3339_MICROS};

fn decode(row: &[u8]) -> Option<Vec<DecodedItem>> {
    if row == b"<malformed>" {
        None
    } else {
        Some(vec![DecodedItem::Log(row.to_vec())])
    }
}

fn feed(run: &mut BatchRun, rows: &[&str]) -> Vec<DecodedEvent> {
    let mut out = Vec::new();
    for row in rows {
        out.extend(run.on_row(row.len(), decode(row.as_bytes())));
    }
    out
}

fn queue_config() -> AzureBlobConfig {
    AzureBlobConfig {
        log_namespace: None,
        exec_interval_secs: 1,
        strategy: Strategy::StorageQueue,
        queue: Some(QueueConfig { queue_name: "events".to_string() }),
        connection_string: None,
        storage_account: Some("mylogstorage".to_string()),
        endpoint: None,
        container_name: "my-logs".to_string(),
        acknowledgements: true,
    }
}

#[test]
fn default_interval_is_one_second() {
    assert_eq!(default_exec_interval_secs(), 1);
}

#[test]
fn valid_queue_config_passes() {
    assert_eq!(queue_config().validate(), Ok(()));
    assert!(queue_config().can_acknowledge());
}

#[test]
fn queue_strategy_needs_queue_name() {
    let mut c = queue_config();
    c.queue = None;
    assert_eq!(c.validate(), Err(ConfigError::QueueNotSet));
    c.queue = Some(QueueConfig { queue_name: String::new() });
    assert_eq!(c.validate(), Err(ConfigError::QueueNotSet));
    assert_eq!(ConfigError::QueueNotSet.message(), "Azure event grid queue must be set.");
}

#[test]
fn queue_strategy_needs_account_or_connection_string() {
    let mut c = queue_config();
    c.storage_account = Some(String::new());
    c.connection_string = None;
    assert_eq!(c.validate(), Err(ConfigError::AccountNotSet));
    c.connection_string = Some("DefaultEndpointsProtocol=https".to_string());
    assert_eq!(c.validate(), Ok(()));
    assert_eq!(
        ConfigError::AccountNotSet.message(),
        "Azure Storage Account or Connection String must be set."
    );
}

#[test]
fn queue_strategy_needs_container() {
    let mut c = queue_config();
    c.container_name = String::new();
    assert_eq!(c.validate(), Err(ConfigError::ContainerNotSet));
    assert_eq!(ConfigError::ContainerNotSet.message(), "Azure Container must be set.");
}

#[test]
fn test_strategy_needs_positive_interval() {
    let mut c = queue_config();
    c.strategy = Strategy::Test;
    c.queue = None;
    c.container_name = String::new();
    assert_eq!(c.validate(), Ok(()));
    c.exec_interval_secs = 0;
    assert_eq!(c.validate(), Err(ConfigError::ZeroInterval));
    assert_eq!(ConfigError::ZeroInterval.message(), "exec_interval_secs must be greater than 0");
}

#[test]
fn statuses_merge_by_precedence() {
    let (d, e, r) = (DeliveryStatus::Delivered, DeliveryStatus::Errored, DeliveryStatus::Rejected);
    assert_eq!(d.merge(d), d);
    assert_eq!(d.merge(e), e);
    assert_eq!(e.merge(d), e);
    assert_eq!(e.merge(r), r);
    assert_eq!(r.merge(d), r);
}

#[test]
fn notifier_is_terminal_only_when_released_and_settled() {
    let mut n = BatchNotifier::new();
    assert_eq!(n.terminal(), None);
    n.attach();
    n.attach();
    n.release();
    assert_eq!(n.terminal(), None);
    n.resolve(DeliveryStatus::Delivered);
    assert_eq!(n.pending(), 1);
    n.resolve(DeliveryStatus::Errored);
    assert_eq!(n.terminal(), Some(DeliveryStatus::Errored));
}

#[test]
fn scenario_one_malformed_row_of_four() {
    let mut run = BatchRun::new(7, true);
    let events = feed(&mut run, &["a", "b", "<malformed>", "c"]);
    assert_eq!(events.len(), 3);
    let messages: Vec<&[u8]> = events.iter().map(|e| e.message.as_slice()).collect();
    assert_eq!(messages, vec![&b"a"[..], &b"b"[..], &b"c"[..]]);
    for w in events.windows(2) {
        assert!(w[0].ingest_timestamp <= w[1].ingest_timestamp);
    }
    assert!(events.iter().all(|e| e.batch == Some(7) && e.ingest_timestamp >= 0));
    assert_eq!(run.decode_failures(), 1);
    assert_eq!(run.bytes_received(), 14);
    assert_eq!(run.on_rows_exhausted(), BatchAction::Continue);
    assert_eq!(run.phase(), BatchPhase::AwaitingStatus);
    assert_eq!(run.on_event_status(DeliveryStatus::Delivered), BatchAction::Continue);
    assert_eq!(run.on_event_status(DeliveryStatus::Delivered), BatchAction::Continue);
    assert_eq!(run.on_event_status(DeliveryStatus::Delivered), BatchAction::RunCallback);
    assert_eq!(run.phase(), BatchPhase::Finished(BatchOutcome::Completed));
}

#[test]
fn scenario_empty_batch_is_vacuously_delivered() {
    let mut run = BatchRun::new(0, true);
    assert_eq!(run.on_rows_exhausted(), BatchAction::RunCallback);
    assert_eq!(run.events_emitted(), 0);
    assert_eq!(run.phase(), BatchPhase::Finished(BatchOutcome::Completed));
    let mut run = BatchRun::new(1, false);
    assert_eq!(run.on_rows_exhausted(), BatchAction::RunCallback);
}

#[test]
fn malformed_rows_interleaved_are_skipped() {
    let mut run = BatchRun::new(3, true);
    let rows = ["<malformed>", "x", "<malformed>", "<malformed>", "y", "z", "<malformed>"];
    let events = feed(&mut run, &rows);
    assert_eq!(events.len(), 3);
    assert_eq!(run.events_emitted(), 3);
    assert_eq!(run.decode_failures(), 4);
    assert_eq!(run.pending(), 3);
    assert_eq!(run.on_event_status(DeliveryStatus::Delivered), BatchAction::Continue);
    assert_eq!(run.on_rows_exhausted(), BatchAction::Continue);
    assert_eq!(run.on_event_status(DeliveryStatus::Delivered), BatchAction::Continue);
    assert_eq!(run.on_event_status(DeliveryStatus::Delivered), BatchAction::RunCallback);
}

#[test]
fn unacknowledged_batch_runs_callback_at_once() {
    let mut run = BatchRun::new(5, false);
    let events = feed(&mut run, &["a", "b"]);
    assert!(events.iter().all(|e| e.batch.is_none()));
    assert_eq!(run.pending(), 0);
    assert_eq!(run.on_rows_exhausted(), BatchAction::RunCallback);
    assert_eq!(run.phase(), BatchPhase::Finished(BatchOutcome::Completed));
}

#[test]
fn errored_batch_skips_callback() {
    let mut run = BatchRun::new(1, true);
    feed(&mut run, &["a", "b"]);
    assert_eq!(run.on_event_status(DeliveryStatus::Errored), BatchAction::Continue);
    assert_eq!(run.on_rows_exhausted(), BatchAction::Continue);
    assert_eq!(run.on_event_status(DeliveryStatus::Delivered), BatchAction::SkipCallback);
    assert_eq!(run.phase(), BatchPhase::Finished(BatchOutcome::Failed(DeliveryStatus::Errored)));
}

#[test]
fn rejected_batch_skips_callback() {
    let mut run = BatchRun::new(2, true);
    feed(&mut run, &["a"]);
    assert_eq!(run.on_rows_exhausted(), BatchAction::Continue);
    assert_eq!(run.on_event_status(DeliveryStatus::Rejected), BatchAction::SkipCallback);
    assert_eq!(run.phase(), BatchPhase::Finished(BatchOutcome::Failed(DeliveryStatus::Rejected)));
}

#[test]
fn already_failed_batch_skips_callback_on_exhaustion() {
    let mut run = BatchRun::new(2, true);
    feed(&mut run, &["a"]);
    assert_eq!(run.on_event_status(DeliveryStatus::Rejected), BatchAction::Continue);
    assert_eq!(run.on_rows_exhausted(), BatchAction::SkipCallback);
}

#[test]
fn refused_stream_abandons_batch_and_loop_goes_on() {
    let mut streamer = AzureBlobStreamer::new(true);
    assert_eq!(streamer.on_event(LoopEvent::BatchArrived), LoopAction::ProcessBatch);
    let mut run = streamer.open_batch();
    feed(&mut run, &["a", "b"]);
    assert_eq!(run.on_send_failed(1), BatchAction::SkipCallback);
    assert_eq!(run.phase(), BatchPhase::Finished(BatchOutcome::Abandoned(1)));
    assert_eq!(streamer.on_event(LoopEvent::BatchFinished), LoopAction::PullNext);
    assert_eq!(streamer.state(), LoopState::AwaitingNextBatch);
    assert_eq!(streamer.on_event(LoopEvent::BatchArrived), LoopAction::ProcessBatch);
}

#[test]
fn shutdown_between_batches_stops_loop() {
    let mut streamer = AzureBlobStreamer::new(false);
    assert_eq!(streamer.on_event(LoopEvent::ShutdownFired), LoopAction::Stop);
    assert_eq!(streamer.state(), LoopState::Terminated);
    assert_eq!(streamer.on_event(LoopEvent::BatchArrived), LoopAction::Stop);
    assert_eq!(streamer.state(), LoopState::Terminated);
}

#[test]
fn shutdown_during_batch_waits_for_it() {
    let mut streamer = AzureBlobStreamer::new(false);
    assert_eq!(streamer.on_event(LoopEvent::BatchArrived), LoopAction::ProcessBatch);
    let mut run = streamer.open_batch();
    assert_eq!(streamer.on_event(LoopEvent::ShutdownFired), LoopAction::Proceed);
    assert_eq!(streamer.state(), LoopState::ProcessingBatch);
    feed(&mut run, &["a"]);
    assert_eq!(run.on_rows_exhausted(), BatchAction::RunCallback);
    assert_eq!(streamer.on_event(LoopEvent::BatchFinished), LoopAction::Stop);
    assert_eq!(streamer.state(), LoopState::Terminated);
}

#[test]
fn upstream_end_stops_loop() {
    let mut streamer = AzureBlobStreamer::new(true);
    assert_eq!(streamer.on_event(LoopEvent::UpstreamEnded), LoopAction::Stop);
    assert_eq!(streamer.state(), LoopState::Terminated);
}

#[test]
fn batches_get_fresh_identifiers() {
    let mut streamer = AzureBlobStreamer::new(true);
    let mut a = streamer.open_batch();
    let mut b = streamer.open_batch();
    let ea = a.on_row_at(1, decode(b"a"), 5);
    let eb = b.on_row_at(1, decode(b"b"), 5);
    assert_eq!(ea[0].batch, Some(0));
    assert_eq!(eb[0].batch, Some(1));
}

#[test]
fn stamps_follow_the_clock() {
    let mut run = BatchRun::new(0, false);
    let first = run.on_row_at(1, decode(b"a"), 10);
    let second = run.on_row_at(1, decode(b"b"), 4);
    let third = run.on_row_at(1, decode(b"c"), 12);
    assert_eq!(first[0].ingest_timestamp, 10);
    assert_eq!(second[0].ingest_timestamp, 4);
    assert_eq!(third[0].ingest_timestamp, 12);
}

#[test]
fn non_log_items_are_dropped_and_counted() {
    let mut run = BatchRun::new(0, true);
    let items = vec![
        DecodedItem::Metric,
        DecodedItem::Log(b"one".to_vec()),
        DecodedItem::Trace,
        DecodedItem::Log(b"two".to_vec()),
    ];
    let events = run.on_row_at(9, Some(items), 100);
    assert_eq!(events.len(), 2);
    assert_eq!(events[0].message, b"one".to_vec());
    assert_eq!(events[1].message, b"two".to_vec());
    assert_eq!(run.invalid_items(), 2);
    assert_eq!(run.pending(), 2);
    assert_eq!(run.bytes_received(), 9);
}

#[test]
fn timestamp_renders_as_rfc3339() {
    let mut run = BatchRun::new(0, false);
    let events = run.on_row_at(1, decode(b"a"), 1_662_921_288_000_000);
    assert_eq!(
        events[0].ingest_timestamp_rfc3339(),
        Some("2022-09-11T18:34:48+00:00".to_string())
    );
    let epoch = run.on_row_at(1, decode(b"b"), 0);
    assert_eq!(epoch[0].ingest_timestamp, 0);
    assert_eq!(epoch[0].ingest_timestamp_rfc3339(), Some("1970-01-01T00:00:00+00:00".to_string()));
    let far = DecodedEvent { message: Vec::new(), batch: None, ingest_timestamp: i64::MAX };
    assert_eq!(far.ingest_timestamp_rfc3339(), None);
}

#[test]
fn reports_for_other_batches_are_ignored() {
    let mut run = BatchRun::new(4, true);
    feed(&mut run, &["a"]);
    assert_eq!(run.on_rows_exhausted(), BatchAction::Continue);
    assert_eq!(run.on_report(5, DeliveryStatus::Rejected), BatchAction::Continue);
    assert_eq!(run.pending(), 1);
    assert_eq!(run.on_report(4, DeliveryStatus::Delivered), BatchAction::RunCallback);
    assert_eq!(run.on_report(4, DeliveryStatus::Delivered), BatchAction::Continue);
    assert_eq!(run.phase(), BatchPhase::Finished(BatchOutcome::Completed));
}

#[test]
fn reports_without_acknowledgements_are_ignored() {
    let mut run = BatchRun::new(4, false);
    feed(&mut run, &["a"]);
    assert_eq!(run.on_report(4, DeliveryStatus::Errored), BatchAction::Continue);
    assert_eq!(run.on_rows_exhausted(), BatchAction::RunCallback);
}

#[test]
fn generated_rows_count_up_to_the_counter() {
    let rows = generated_rows(12);
    assert_eq!(rows.len(), 13);
    assert_eq!(rows[0], b"12:0".to_vec());
    assert_eq!(rows[7], b"12:7".to_vec());
    assert_eq!(rows[12], b"12:12".to_vec());
    assert_eq!(generated_rows(0), vec![b"0:0".to_vec()]);
}

#[test]
fn timestamps_up_to_year_9999_render() {
    let last = DecodedEvent { message: Vec::new(), batch: None, ingest_timestamp: MAX_RFC3339_MICROS };
    assert_eq!(last.ingest_timestamp_rfc3339(), Some("9999-12-31T23:59:59.999999+00:00".to_string()));
    let epoch = DecodedEvent { message: Vec::new(), batch: None, ingest_timestamp: 0 };
    assert_eq!(epoch.ingest_timestamp_rfc3339(), Some("1970-01-01T00:00:00+00:00".to_string()));
}

#[test]
fn every_event_of_a_row_gets_the_same_stamp() {
    let mut run = BatchRun::new(0, true);
    let items = vec![DecodedItem::Log(b"x".to_vec()), DecodedItem::Log(b"y".to_vec())];
    let events = run.on_row_at(2, Some(items), 77);
    assert!(events.iter().all(|e| e.ingest_timestamp == 77 && e.batch == Some(0)));
}

#[test]
fn finished_batch_ignores_late_reports() {
    let mut run = BatchRun::new(9, true);
    feed(&mut run, &["a"]);
    assert_eq!(run.on_send_failed(1), BatchAction::SkipCallback);
    assert_eq!(run.on_report(9, DeliveryStatus::Delivered), BatchAction::Continue);
    assert_eq!(run.phase(), BatchPhase::Finished(BatchOutcome::Abandoned(1)));
}
