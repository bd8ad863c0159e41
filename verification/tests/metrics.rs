use prometheus::{exponential_buckets, HistogramOpts, HistogramVec, IntCounterVec, Opts};
use std::cell::RefCell;
use std::collections::HashMap;
use std::time::Duration;
use tikv_telemetry::command::{CommandKind, CommandPriority};
use tikv_telemetry::metrics::{
    tls_collect_command_count, tls_collect_read_flow, tls_collect_scan_details, tls_flush,
    tls_processing_read_observe_duration, FlowStatsReporter, ScanDetail, StorageLocalMetrics,
};
use tikv_telemetry::registry::CounterFamily;
use tikv_telemetry::statistics::{ColumnFamily, DetailTag, FlowStatistics, Statistics};

struct RecordingReporter {
    batches: RefCell<Vec<HashMap<u64, FlowStatistics>>>,
}

impl RecordingReporter {
    fn new() -> Self {
        RecordingReporter { batches: RefCell::new(Vec::new()) }
    }

    fn calls(&self) -> usize {
        self.batches.borrow().len()
    }
}

impl FlowStatsReporter for RecordingReporter {
    fn report_read_stats(&self, read_stats: HashMap<u64, FlowStatistics>) {
        self.batches.borrow_mut().push(read_stats);
    }
}

fn family(name: &str, labels: &[&str]) -> CounterFamily {
    CounterFamily { vec: IntCounterVec::new(Opts::new(name, "a counter"), labels).unwrap() }
}

fn scan_detail_family() -> CounterFamily {
    family("scheduler_kv_scan_details", &["req", "cf", "tag"])
}

fn counted(family: &CounterFamily, labels: &[&str]) -> u64 {
    family.vec.with_label_values(labels).get()
}

fn read_bytes(write_path: usize, data_path: usize) -> Statistics {
    let mut stats = Statistics::default();
    stats.write.flow_stats.read_bytes = write_path;
    stats.data.flow_stats.read_bytes = data_path;
    stats
}

#[test]
fn read_flow_of_a_region_is_reported_as_one_sum() {
    let mut m = StorageLocalMetrics::new();
    let reporter = RecordingReporter::new();
    let counters = scan_detail_family();
    tls_collect_read_flow(&mut m, 7, &read_bytes(0, 100));
    tls_collect_read_flow(&mut m, 7, &read_bytes(0, 100));
    tls_flush(&mut m, &counters, &reporter);

    let batches = reporter.batches.borrow();
    assert_eq!(batches.len(), 1);
    let mut expected = HashMap::new();
    expected.insert(7u64, FlowStatistics { read_keys: 0, read_bytes: 200 });
    assert_eq!(batches[0], expected);
}

#[test]
fn read_flow_takes_the_write_path_and_the_data_path() {
    let mut m = StorageLocalMetrics::new();
    let mut stats = Statistics::default();
    stats.write.flow_stats = FlowStatistics { read_keys: 1, read_bytes: 10 };
    stats.data.flow_stats = FlowStatistics { read_keys: 2, read_bytes: 20 };
    stats.lock.flow_stats = FlowStatistics { read_keys: 4, read_bytes: 40 };
    tls_collect_read_flow(&mut m, 1, &stats);
    tls_collect_read_flow(&mut m, 2, &stats);
    tls_collect_read_flow(&mut m, 1, &stats);
    let taken = m.take_read_flow().unwrap();
    assert_eq!(taken.len(), 2);
    assert_eq!(taken[&1], FlowStatistics { read_keys: 6, read_bytes: 60 });
    assert_eq!(taken[&2], FlowStatistics { read_keys: 3, read_bytes: 30 });
}

#[test]
fn read_flow_stops_at_the_largest_count() {
    let mut m = StorageLocalMetrics::new();
    tls_collect_read_flow(&mut m, 9, &read_bytes(usize::MAX, 1));
    let taken = m.take_read_flow().unwrap();
    assert_eq!(taken[&9].read_bytes, usize::MAX);
}

#[test]
fn a_flush_drains_exactly_once() {
    let mut m = StorageLocalMetrics::new();
    let reporter = RecordingReporter::new();
    let counters = scan_detail_family();
    let mut stats = Statistics::default();
    stats.data.seek = 3;
    tls_collect_scan_details(&mut m, CommandKind::scan, &stats);
    tls_collect_read_flow(&mut m, 7, &read_bytes(5, 5));

    tls_flush(&mut m, &counters, &reporter);
    assert_eq!(reporter.calls(), 1);
    assert_eq!(counted(&counters, &["scan", "default", "seek"]), 3);

    tls_flush(&mut m, &counters, &reporter);
    assert_eq!(reporter.calls(), 1);
    assert_eq!(counted(&counters, &["scan", "default", "seek"]), 3);
    assert_eq!(m.drain_scan_details(), Vec::<ScanDetail>::new());
    assert!(m.take_read_flow().is_none());
}

#[test]
fn a_flush_with_nothing_to_report_calls_nobody() {
    let mut m = StorageLocalMetrics::new();
    let reporter = RecordingReporter::new();
    let counters = scan_detail_family();
    tls_flush(&mut m, &counters, &reporter);
    assert_eq!(reporter.calls(), 0);
    assert_eq!(counted(&counters, &["get", "default", "get"]), 0);
}

#[test]
fn scan_details_without_read_flow_do_not_reach_the_reporter() {
    let mut m = StorageLocalMetrics::new();
    let reporter = RecordingReporter::new();
    let counters = scan_detail_family();
    let mut stats = Statistics::default();
    stats.lock.get = 1;
    tls_collect_scan_details(&mut m, CommandKind::get, &stats);
    tls_flush(&mut m, &counters, &reporter);
    assert_eq!(reporter.calls(), 0);
    assert_eq!(counted(&counters, &["get", "lock", "get"]), 1);
}

#[test]
fn what_the_flushes_add_is_what_was_recorded() {
    let mut m = StorageLocalMetrics::new();
    let reporter = RecordingReporter::new();
    let counters = scan_detail_family();

    let mut first = Statistics::default();
    first.data.get = 2;
    first.write.next = 10;
    let mut second = Statistics::default();
    second.data.get = 5;
    second.write.seek_for_prev = 1;
    let mut third = Statistics::default();
    third.data.get = 100;

    tls_collect_scan_details(&mut m, CommandKind::get, &first);
    tls_collect_scan_details(&mut m, CommandKind::get, &second);
    tls_collect_scan_details(&mut m, CommandKind::batch_get, &third);
    tls_flush(&mut m, &counters, &reporter);
    assert_eq!(counted(&counters, &["get", "default", "get"]), 7);
    assert_eq!(counted(&counters, &["get", "write", "next"]), 10);
    assert_eq!(counted(&counters, &["get", "write", "seek_for_prev"]), 1);
    assert_eq!(counted(&counters, &["batch_get", "default", "get"]), 100);
    assert_eq!(counted(&counters, &["batch_get", "write", "next"]), 0);

    tls_collect_scan_details(&mut m, CommandKind::get, &first);
    tls_flush(&mut m, &counters, &reporter);
    tls_flush(&mut m, &counters, &reporter);
    assert_eq!(counted(&counters, &["get", "default", "get"]), 2 + 5 + 2);
    assert_eq!(counted(&counters, &["get", "write", "next"]), 20);
    assert_eq!(counted(&counters, &["batch_get", "default", "get"]), 100);
}

#[test]
fn draining_lists_the_kinds_in_order_with_every_count() {
    let mut m = StorageLocalMetrics::new();
    let mut scanned = Statistics::default();
    scanned.write.seek = 4;
    let mut got = Statistics::default();
    got.data.processed = 9;
    tls_collect_scan_details(&mut m, CommandKind::scan, &scanned);
    tls_collect_scan_details(&mut m, CommandKind::get, &got);

    let details = m.drain_scan_details();
    assert_eq!(details.len(), 42);
    assert_eq!(
        details[0],
        ScanDetail {
            kind: CommandKind::get,
            cf: ColumnFamily::Default,
            tag: DetailTag::Processed,
            count: 9
        }
    );
    assert!(details[..21].iter().all(|d| d.kind == CommandKind::get));
    assert!(details[21..].iter().all(|d| d.kind == CommandKind::scan));
    assert_eq!(
        details[21 + 14 + 4],
        ScanDetail { kind: CommandKind::scan, cf: ColumnFamily::Write, tag: DetailTag::Seek, count: 4 }
    );
    assert_eq!(details.iter().map(|d| d.count).sum::<usize>(), 13);
    assert!(m.drain_scan_details().is_empty());
}

#[test]
fn an_addition_is_labelled_by_kind_column_family_and_tag() {
    let detail = ScanDetail {
        kind: CommandKind::raw_scan,
        cf: ColumnFamily::Lock,
        tag: DetailTag::OverSeekBound,
        count: 1,
    };
    assert_eq!(detail.label_values(), ["raw_scan", "lock", "over_seek_bound"]);
}

#[test]
fn an_addition_reaches_the_counter_of_its_label_values() {
    let counters = scan_detail_family();
    counters.add(&["get", "write", "seek"], 5);
    counters.add(&["get", "write", "seek"], 2);
    counters.add(&["get", "write", "next"], 1);
    assert_eq!(counted(&counters, &["get", "write", "seek"]), 7);
    assert_eq!(counted(&counters, &["get", "write", "next"]), 1);
    counters.add(&["get", "write"], 1);
    counters.add(&[], 1);
    assert_eq!(counted(&counters, &["get", "write", "seek"]), 7);
}

#[test]
fn a_counter_family_with_other_labels_drops_the_additions() {
    let mut m = StorageLocalMetrics::new();
    let reporter = RecordingReporter::new();
    let counters = family("two_labels", &["req", "cf"]);
    let mut stats = Statistics::default();
    stats.data.get = 1;
    tls_collect_scan_details(&mut m, CommandKind::get, &stats);
    tls_collect_read_flow(&mut m, 1, &read_bytes(1, 1));
    tls_flush(&mut m, &counters, &reporter);
    assert_eq!(counted(&counters, &["get", "default"]), 0);
    assert_eq!(reporter.calls(), 1);
    assert!(m.drain_scan_details().is_empty());
}

#[test]
fn a_command_is_counted_under_its_kind_and_its_priority() {
    let command_total = family("command_total", &["type"]);
    let priority_total = family("scheduler_commands_pri_total", &["priority"]);
    tls_collect_command_count(&command_total, &priority_total, CommandKind::prewrite, CommandPriority::high);
    tls_collect_command_count(&command_total, &priority_total, CommandKind::prewrite, CommandPriority::low);
    tls_collect_command_count(&command_total, &priority_total, CommandKind::commit, CommandPriority::high);
    assert_eq!(counted(&command_total, &["prewrite"]), 2);
    assert_eq!(counted(&command_total, &["commit"]), 1);
    assert_eq!(counted(&command_total, &["get"]), 0);
    assert_eq!(counted(&priority_total, &["high"]), 2);
    assert_eq!(counted(&priority_total, &["low"]), 1);
    assert_eq!(counted(&priority_total, &["normal"]), 0);
}

#[test]
fn timed_work_returns_its_result_unchanged() {
    let (ret, timing) =
        tls_processing_read_observe_duration(CommandKind::scan, || String::from("rows"));
    assert_eq!(ret, "rows");
    assert_eq!(timing.kind, CommandKind::scan);
    assert!(timing.elapsed < Duration::from_secs(15));
}

#[test]
fn command_durations_are_observed_under_the_kind_label() {
    let durations = HistogramVec::new(
        HistogramOpts::new(
            "scheduler_command_duration_seconds",
            "Bucketed histogram of command execution",
        )
        .buckets(exponential_buckets(0.0005, 2.0, 20).unwrap()),
        &["type"],
    )
    .unwrap();
    let mut local = durations.local();
    for millis in [1u64, 2, 4] {
        local
            .with_label_values(&[CommandKind::get.get_str()])
            .observe(Duration::from_millis(millis).as_secs_f64());
    }
    local.flush();
    let observed = durations.with_label_values(&["get"]);
    assert_eq!(observed.get_sample_count(), 3);
    assert!((observed.get_sample_sum() - 0.007).abs() < 1e-9);
}
