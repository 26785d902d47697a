//! An acknowledgement-gated ingestion core for blobs read out of Azure Storage.
//!
//! Batches of raw rows are decoded into events, tagged with their batch and an
//! ingest timestamp, forwarded downstream, and the batch's completion callback
//! is run only once delivery of the whole batch is confirmed.
mod batch;
mod clock;
mod config;
mod generated;
mod laws;
mod notifier;
mod streamer;

pub use config::{
    default_exec_interval_secs, AzureBlobConfig, ConfigError, QueueConfig, Strategy,
};
pub use notifier::{combine, lemma_empty_batch_is_delivered, terminal_of, BatchNotifier, DeliveryStatus, NotifierView};
pub use batch::{
    abandon, batch_wf, callbacks, report_step, exhaust, fresh_batch, resolve_step, row_events, row_step, tag_items,
    BatchAction, BatchOutcome, BatchPhase, BatchRun, BatchView, DecodedEvent, DecodedItem, EventView,
};
pub use clock::{rfc3339_of_micros, MAX_RFC3339_MICROS};
pub use streamer::{loop_step, AzureBlobStreamer, LoopAction, LoopEvent, LoopState, StreamerView};
pub use laws::{
    completes_once_delivered, count_well_formed, deliver_n, lemma_acknowledged_batch_completes_when_delivered,
    lemma_delivered_batch_runs_callback, lemma_empty_batch_completes, lemma_failed_batch_skips_callback,
    lemma_failed_reports_never_complete, lemma_finished_batch_is_final, lemma_loop_takes_every_batch,
    lemma_malformed_rows_are_skipped, lemma_mixed_batch_completes_when_delivered, lemma_refused_stream_abandons_batch,
    lemma_rows_keep_status, lemma_shutdown_between_batches, lemma_shutdown_during_batch, lemma_stamps_follow_clock,
    lemma_unacknowledged_batch_completes, report_all, run_rows, well_formed, RowInput,
};
pub use generated::{decimal, generated_row, generated_rows};
