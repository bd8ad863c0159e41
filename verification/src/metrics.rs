//! The per-thread metric aggregator.
//!
//! Each worker owns one [`StorageLocalMetrics`]. Recording merges into it
//! without touching anything shared; [`tls_flush`] is the only point at which
//! what was accumulated leaves the thread, and it leaves whole: the scan
//! details as additions to the process-wide scan-detail counters, the read
//! flow as one batch handed to the reporter.

use crate::clock::{elapsed_since, now};
use crate::command::{CommandKind, CommandPriority, COMMAND_KIND_COUNT};
use crate::registry::{added_to_family, label_texts, CounterFamily};
use crate::statistics::{ColumnFamily, DetailTag, FlowStatistics, Statistics, DETAIL_COUNT};
use std::collections::HashMap;
use std::time::Duration;
use vstd::prelude::*;

verus! {

broadcast use vstd::std_specs::hash::group_hash_axioms;

/// One addition to the scan-detail counters: `count` more under the labels
/// of a command kind, a column family and a tag.
#[derive(Clone, Copy, Debug, PartialEq, Eq, Structural)]
pub struct ScanDetail {
    pub kind: CommandKind,
    pub cf: ColumnFamily,
    pub tag: DetailTag,
    pub count: usize,
}

impl ScanDetail {
    /// The texts of the label values under which the addition is made: the
    /// command kind as `req`, then `cf`, then `tag`.
    pub open spec fn labels(self) -> Seq<Seq<char>> {
        seq![self.kind.label(), self.cf.label(), self.tag.label()]
    }

    /// The label values under which the addition is made.
    pub fn label_values(&self) -> (labels: [&'static str; 3])
        ensures
            label_texts(labels@) == self.labels(),
    {
        let labels: [&'static str; 3] = [self.kind.get_str(), self.cf.get_str(), self.tag.get_str()];
        assert(label_texts(labels@) =~= self.labels());
        labels
    }
}

/// How long one piece of read processing took, for the histogram of
/// read-processing durations.
pub struct ReadTiming {
    pub kind: CommandKind,
    pub elapsed: Duration,
}

/// What a worker has accumulated and not yet flushed.
pub ghost struct LocalState {
    pub scan_details: Map<CommandKind, Statistics>,
    pub read_flow: Map<u64, FlowStatistics>,
}

/// The additions that the statistics of one command kind amount to: one per
/// column family and tag, in reporting order.
pub open spec fn kind_details(kind: CommandKind, stats: Statistics) -> Seq<ScanDetail> {
    Seq::new(
        DETAIL_COUNT as nat,
        |i: int|
            ScanDetail {
                kind,
                cf: ColumnFamily::of_index(i / 7),
                tag: DetailTag::of_index(i % 7),
                count: stats.count_of(ColumnFamily::of_index(i / 7), DetailTag::of_index(i % 7)),
            },
    )
}

impl LocalState {
    /// The state of a worker that has recorded nothing.
    pub open spec fn empty() -> LocalState {
        LocalState { scan_details: Map::empty(), read_flow: Map::empty() }
    }

    /// The statistics accumulated for a command kind; zero where none were.
    pub open spec fn scan_details_of(self, kind: CommandKind) -> Statistics {
        if self.scan_details.contains_key(kind) {
            self.scan_details[kind]
        } else {
            Statistics::zero()
        }
    }

    /// The flow accumulated for a region; zero where none was.
    pub open spec fn read_flow_of(self, region_id: u64) -> FlowStatistics {
        if self.read_flow.contains_key(region_id) {
            self.read_flow[region_id]
        } else {
            FlowStatistics::zero()
        }
    }

    /// The state after the statistics of one command were recorded.
    pub open spec fn with_scan_details(self, kind: CommandKind, stats: Statistics) -> LocalState {
        LocalState {
            scan_details: self.scan_details.insert(kind, self.scan_details_of(kind).merged(stats)),
            read_flow: self.read_flow,
        }
    }

    /// The state after the read flow of one command on a region was
    /// recorded: the flow of its write path, then of its data path.
    pub open spec fn with_read_flow(self, region_id: u64, stats: Statistics) -> LocalState {
        LocalState {
            scan_details: self.scan_details,
            read_flow: self.read_flow.insert(
                region_id,
                self.read_flow_of(region_id).merged(stats.write.flow_stats).merged(
                    stats.data.flow_stats,
                ),
            ),
        }
    }

    /// The additions owed for the command kinds at positions below `n`.
    pub open spec fn pending_upto(self, n: nat) -> Seq<ScanDetail>
        decreases n,
    {
        if n == 0 {
            Seq::empty()
        } else {
            let before = self.pending_upto((n - 1) as nat);
            match CommandKind::of_index((n - 1) as nat) {
                Some(kind) => if self.scan_details.contains_key(kind) {
                    before + kind_details(kind, self.scan_details[kind])
                } else {
                    before
                },
                None => before,
            }
        }
    }

    /// The additions that a flush makes to the scan-detail counters: for
    /// every command kind with accumulated statistics, in the order of the
    /// kinds, every count of those statistics.
    pub open spec fn pending_scan_details(self) -> Seq<ScanDetail> {
        self.pending_upto(COMMAND_KIND_COUNT as nat)
    }

    /// The batch that a flush hands to the reporter: the whole read flow
    /// map, or nothing where the map is empty.
    pub open spec fn pending_read_flow(self) -> Option<Map<u64, FlowStatistics>> {
        if self.read_flow.dom() =~= Set::empty() {
            None
        } else {
            Some(self.read_flow)
        }
    }

    /// The state after a flush.
    pub open spec fn flushed(self) -> LocalState {
        LocalState::empty()
    }
}

/// The accumulator that one worker thread owns. Scan details are kept under
/// the position of their command kind, read flow under the region's id.
pub struct StorageLocalMetrics {
    local_scan_details: HashMap<u64, Statistics>,
    local_read_flow_stats: HashMap<u64, FlowStatistics>,
}

impl View for StorageLocalMetrics {
    type V = LocalState;

    closed spec fn view(&self) -> LocalState {
        LocalState {
            scan_details: Map::new(
                |kind: CommandKind| self.local_scan_details@.contains_key(kind.index() as u64),
                |kind: CommandKind| self.local_scan_details@[kind.index() as u64],
            ),
            read_flow: self.local_read_flow_stats@,
        }
    }
}

/// The consumer of read flow: it forwards each batch to the placement
/// service. A batch is complete in itself and is handed over for good.
pub trait FlowStatsReporter {
    fn report_read_stats(&self, read_stats: HashMap<u64, FlowStatistics>);
}

impl StorageLocalMetrics {
    /// An accumulator that has recorded nothing.
    pub fn new() -> (m: StorageLocalMetrics)
        ensures
            m@ == LocalState::empty(),
    {
        let m = StorageLocalMetrics {
            local_scan_details: HashMap::new(),
            local_read_flow_stats: HashMap::new(),
        };
        assert(m@.scan_details =~= Map::empty());
        m
    }

    /// Empties the scan details and returns the additions they amount to.
    pub fn drain_scan_details(&mut self) -> (out: Vec<ScanDetail>)
        ensures
            out@ == old(self)@.pending_scan_details(),
            final(self)@.scan_details == Map::<CommandKind, Statistics>::empty(),
            final(self)@.read_flow == old(self)@.read_flow,
    {
        let mut out: Vec<ScanDetail> = Vec::new();
        let mut i: u64 = 0;
        while i < COMMAND_KIND_COUNT
            invariant
                i <= COMMAND_KIND_COUNT,
                out@ == self@.pending_upto(i as nat),
            decreases COMMAND_KIND_COUNT - i,
        {
            match CommandKind::from_ordinal(i) {
                Some(kind) => {
                    match self.local_scan_details.get(&i) {
                        Some(stats) => {
                            append_details(&mut out, kind, stats);
                        },
                        None => {},
                    }
                },
                None => {},
            }
            i += 1;
        }
        self.local_scan_details.clear();
        assert(self@.scan_details =~= Map::<CommandKind, Statistics>::empty());
        out
    }

    /// Takes the read flow map out, leaving an empty one; nothing is taken
    /// where the map is empty already.
    pub fn take_read_flow(&mut self) -> (out: Option<HashMap<u64, FlowStatistics>>)
        ensures
            match out {
                Some(read_stats) => old(self)@.pending_read_flow() == Some(read_stats@),
                None => old(self)@.pending_read_flow() is None,
            },
            final(self)@.read_flow == Map::<u64, FlowStatistics>::empty(),
            final(self)@.scan_details == old(self)@.scan_details,
    {
        if self.local_read_flow_stats.is_empty() {
            assert(self@.read_flow =~= Map::<u64, FlowStatistics>::empty());
            return None;
        }
        let mut read_stats: HashMap<u64, FlowStatistics> = HashMap::new();
        std::mem::swap(&mut read_stats, &mut self.local_read_flow_stats);
        Some(read_stats)
    }
}

/// Appends the additions that the statistics of one command kind amount to.
fn append_details(out: &mut Vec<ScanDetail>, kind: CommandKind, stats: &Statistics)
    ensures
        final(out)@ == old(out)@ + kind_details(kind, *stats),
{
    let details = stats.details();
    let mut j: usize = 0;
    while j < details.len()
        invariant
            j <= details.len(),
            details@ == stats.details_of(),
            out@.len() == old(out)@.len() + j,
            forall|k: int| 0 <= k < old(out)@.len() ==> out@[k] == old(out)@[k],
            forall|k: int| 0 <= k < j ==> out@[old(out)@.len() + k] == kind_details(kind, *stats)[k],
        decreases details.len() - j,
    {
        let detail: (ColumnFamily, DetailTag, usize) = details[j];
        out.push(ScanDetail { kind, cf: detail.0, tag: detail.1, count: detail.2 });
        j += 1;
    }
    assert(out@ =~= old(out)@ + kind_details(kind, *stats));
}

/// Merges the statistics of one command into what the thread has
/// accumulated for its kind.
pub fn tls_collect_scan_details(m: &mut StorageLocalMetrics, cmd: CommandKind, stats: &Statistics)
    ensures
        final(m)@ == old(m)@.with_scan_details(cmd, *stats),
{
    let key: u64 = cmd.ordinal();
    let mut entry: Statistics = match m.local_scan_details.get(&key) {
        Some(found) => *found,
        None => Statistics::default(),
    };
    entry.add(stats);
    m.local_scan_details.insert(key, entry);
    assert(m@.scan_details =~= old(m)@.with_scan_details(cmd, *stats).scan_details);
}

/// Merges the read flow of one command into what the thread has accumulated
/// for the region: the flow of the write path and of the data path.
pub fn tls_collect_read_flow(m: &mut StorageLocalMetrics, region_id: u64, statistics: &Statistics)
    ensures
        final(m)@ == old(m)@.with_read_flow(region_id, *statistics),
{
    let mut flow_stats: FlowStatistics = match m.local_read_flow_stats.get(&region_id) {
        Some(found) => *found,
        None => FlowStatistics::default(),
    };
    flow_stats.add(&statistics.write.flow_stats);
    flow_stats.add(&statistics.data.flow_stats);
    m.local_read_flow_stats.insert(region_id, flow_stats);
}

/// Counts one command under its kind and under its priority, directly in
/// the process-wide counters: one more under the label of `cmd` in
/// `command_total`, one more under the label of `priority` in
/// `priority_total`. Both additions are made; what the counters hold
/// afterwards is beyond any contract here.
pub fn tls_collect_command_count(
    command_total: &CounterFamily,
    priority_total: &CounterFamily,
    cmd: CommandKind,
    priority: CommandPriority,
)
    ensures
        added_to_family(command_total, seq![cmd.label()], 1),
        added_to_family(priority_total, seq![priority.label()], 1),
{
    let kind_label: [&'static str; 1] = [cmd.get_str()];
    let kind_values: &[&'static str] = &kind_label;
    assert(label_texts(kind_values@) =~= seq![cmd.label()]);
    command_total.add(kind_values, 1);
    let priority_label: [&'static str; 1] = [priority.get_str()];
    let priority_values: &[&'static str] = &priority_label;
    assert(label_texts(priority_values@) =~= seq![priority.label()]);
    priority_total.add(priority_values, 1);
}

/// Runs `f` and returns what it returned, together with the wall-clock time
/// it took, to be observed under the kind of the command.
pub fn tls_processing_read_observe_duration<F, R>(cmd: CommandKind, f: F) -> (out: (R, ReadTiming))
    where F: FnOnce() -> R
    requires
        f.requires(()),
    ensures
        f.ensures((), out.0),
        out.1.kind == cmd,
{
    let start = now();
    let ret = f();
    let elapsed = elapsed_since(&start);
    (ret, ReadTiming { kind: cmd, elapsed })
}

/// Flushes what the thread has accumulated.
///
/// Every accumulated scan-detail count is added to the process-wide counter
/// under its command kind, column family and tag, and the scan details are
/// emptied. Where any read flow was accumulated, the whole map is handed to
/// the reporter and an empty one is left; where none was, the reporter is
/// not called.
///
/// The additions made are those that
/// [`StorageLocalMetrics::drain_scan_details`] returns for the state, each
/// under its [`ScanDetail::label_values`]; the batch handed over is the one
/// that [`StorageLocalMetrics::take_read_flow`] returns for it, and the
/// reporter's `report_read_stats` has returned for it. What the counters
/// hold afterwards and what the reporter does with the batch is beyond any
/// contract here.
pub fn tls_flush<R: FlowStatsReporter>(
    m: &mut StorageLocalMetrics,
    scan_details: &CounterFamily,
    reporter: &R,
)
    ensures
        final(m)@ == old(m)@.flushed(),
        forall|i: int|
            0 <= i < old(m)@.pending_scan_details().len() ==> added_to_family(
                scan_details,
                (#[trigger] old(m)@.pending_scan_details()[i]).labels(),
                old(m)@.pending_scan_details()[i].count as u64,
            ),
        old(m)@.pending_read_flow() matches Some(batch) ==> exists|
            read_stats: HashMap<u64, FlowStatistics>,
        |
            read_stats@ == batch && #[trigger] call_ensures(
                R::report_read_stats,
                (reporter, read_stats),
                (),
            ),
{
    let additions = m.drain_scan_details();
    let mut i: usize = 0;
    while i < additions.len()
        invariant
            i <= additions.len(),
            forall|k: int|
                0 <= k < i ==> added_to_family(
                    scan_details,
                    (#[trigger] additions@[k]).labels(),
                    additions@[k].count as u64,
                ),
        decreases additions.len() - i,
    {
        let addition: ScanDetail = additions[i];
        let labels = addition.label_values();
        let values: &[&'static str] = &labels;
        assert(label_texts(values@) =~= addition.labels());
        scan_details.add(values, addition.count as u64);
        i += 1;
    }
    match m.take_read_flow() {
        Some(read_stats) => {
            reporter.report_read_stats(read_stats);
        },
        None => {},
    }
}

/// A state that holds no scan details owes no additions.
proof fn lemma_nothing_pending(state: LocalState, n: nat)
    requires
        state.scan_details == Map::<CommandKind, Statistics>::empty(),
    ensures
        state.pending_upto(n) == Seq::<ScanDetail>::empty(),
    decreases n,
{
    if n > 0 {
        lemma_nothing_pending(state, (n - 1) as nat);
    }
}

/// A flush drains exactly once. Whatever the state, after a flush nothing is
/// accumulated; another flush right after it adds nothing to the counters,
/// has no batch for the reporter, and leaves the state as it is.
pub proof fn lemma_flush_drains_once(state: LocalState)
    ensures
        state.flushed().scan_details == Map::<CommandKind, Statistics>::empty(),
        state.flushed().read_flow == Map::<u64, FlowStatistics>::empty(),
        state.flushed().pending_scan_details() == Seq::<ScanDetail>::empty(),
        state.flushed().pending_read_flow() is None,
        state.flushed().flushed() == state.flushed(),
{
    lemma_nothing_pending(state.flushed(), COMMAND_KIND_COUNT as nat);
}

} // verus!
