//! Nothing recorded is lost or counted twice: what the flushes of a worker
//! add to the scan-detail counters is what the worker recorded.

use crate::command::{lemma_kind_index_bijection, CommandKind, COMMAND_KIND_COUNT};
use crate::metrics::{kind_details, LocalState, ScanDetail};
use crate::statistics::{lemma_merged_count, ColumnFamily, DetailTag, Statistics, DETAIL_COUNT};
use vstd::prelude::*;

verus! {

/// What a worker does to its scan details.
pub ghost enum ScanEvent {
    /// It records the statistics of one command of a kind.
    Record { kind: CommandKind, stats: Statistics },
    /// It flushes.
    Flush,
}

/// The sum of the counts that a sequence of additions holds for one command
/// kind, column family and tag.
pub open spec fn detail_total(
    details: Seq<ScanDetail>,
    kind: CommandKind,
    cf: ColumnFamily,
    tag: DetailTag,
) -> nat
    decreases details.len(),
{
    if details.len() == 0 {
        0
    } else {
        let last = details.last();
        let rest: nat = detail_total(details.drop_last(), kind, cf, tag);
        if last.kind == kind && last.cf == cf && last.tag == tag {
            rest + last.count as nat
        } else {
            rest
        }
    }
}

/// The state of a worker that started with nothing and went through the
/// events in order.
pub open spec fn state_after(events: Seq<ScanEvent>) -> LocalState
    decreases events.len(),
{
    if events.len() == 0 {
        LocalState::empty()
    } else {
        let before = state_after(events.drop_last());
        match events.last() {
            ScanEvent::Record { kind, stats } => before.with_scan_details(kind, stats),
            ScanEvent::Flush => before.flushed(),
        }
    }
}

/// What all the flushes among the events together added to the counter of
/// one command kind, column family and tag.
pub open spec fn flushed_total(
    events: Seq<ScanEvent>,
    kind: CommandKind,
    cf: ColumnFamily,
    tag: DetailTag,
) -> nat
    decreases events.len(),
{
    if events.len() == 0 {
        0
    } else {
        let before: nat = flushed_total(events.drop_last(), kind, cf, tag);
        match events.last() {
            ScanEvent::Record { .. } => before,
            ScanEvent::Flush => before + detail_total(
                state_after(events.drop_last()).pending_scan_details(),
                kind,
                cf,
                tag,
            ),
        }
    }
}

/// The sum of the counts that all the recorded statistics of one command
/// kind hold under a column family and tag.
pub open spec fn recorded_total(
    events: Seq<ScanEvent>,
    kind: CommandKind,
    cf: ColumnFamily,
    tag: DetailTag,
) -> nat
    decreases events.len(),
{
    if events.len() == 0 {
        0
    } else {
        let before: nat = recorded_total(events.drop_last(), kind, cf, tag);
        match events.last() {
            ScanEvent::Record { kind: recorded, stats } => if recorded == kind {
                before + stats.count_of(cf, tag) as nat
            } else {
                before
            },
            ScanEvent::Flush => before,
        }
    }
}

/// The part of `recorded_total` that was recorded after the last flush.
pub open spec fn unflushed_total(
    events: Seq<ScanEvent>,
    kind: CommandKind,
    cf: ColumnFamily,
    tag: DetailTag,
) -> nat
    decreases events.len(),
{
    if events.len() == 0 {
        0
    } else {
        match events.last() {
            ScanEvent::Record { kind: recorded, stats } => {
                let before: nat = unflushed_total(events.drop_last(), kind, cf, tag);
                if recorded == kind {
                    before + stats.count_of(cf, tag) as nat
                } else {
                    before
                }
            },
            ScanEvent::Flush => 0,
        }
    }
}

/// Whether, at every moment, what was recorded since the last flush under
/// one command kind, column family and tag was a count that fits: whether no
/// merge along the way was held at the cap.
pub open spec fn never_capped(
    events: Seq<ScanEvent>,
    kind: CommandKind,
    cf: ColumnFamily,
    tag: DetailTag,
) -> bool {
    forall|n: int|
        0 <= n <= events.len() ==> #[trigger] unflushed_total(events.take(n), kind, cf, tag)
            <= usize::MAX
}

/// The total over two runs of additions is the sum of their totals.
pub proof fn lemma_detail_total_concat(
    a: Seq<ScanDetail>,
    b: Seq<ScanDetail>,
    kind: CommandKind,
    cf: ColumnFamily,
    tag: DetailTag,
)
    ensures
        detail_total(a + b, kind, cf, tag) == detail_total(a, kind, cf, tag) + detail_total(
            b,
            kind,
            cf,
            tag,
        ),
    decreases b.len(),
{
    if b.len() == 0 {
        assert(a + b =~= a);
    } else {
        assert((a + b).drop_last() =~= a + b.drop_last());
        assert((a + b).last() == b.last());
        lemma_detail_total_concat(a, b.drop_last(), kind, cf, tag);
    }
}

/// Among the first `n` additions of a command kind's statistics, the one
/// under a given column family and tag occurs once, at its place in the
/// reporting order, and under no other kind.
proof fn lemma_kind_details_prefix(
    of: CommandKind,
    stats: Statistics,
    n: int,
    kind: CommandKind,
    cf: ColumnFamily,
    tag: DetailTag,
)
    requires
        0 <= n <= DETAIL_COUNT,
    ensures
        detail_total(kind_details(of, stats).take(n), kind, cf, tag) == (if of == kind && cf.index()
            * 7 + tag.index() < n {
            stats.count_of(cf, tag) as nat
        } else {
            0
        }),
    decreases n,
{
    let all = kind_details(of, stats);
    if n > 0 {
        lemma_kind_details_prefix(of, stats, n - 1, kind, cf, tag);
        assert(all.take(n).drop_last() =~= all.take(n - 1));
        assert(all.take(n).last() == all[n - 1]);
    }
}

/// The additions of a command kind's statistics hold, for that kind, each
/// count once, and nothing for any other kind.
pub proof fn lemma_kind_details_total(
    of: CommandKind,
    stats: Statistics,
    kind: CommandKind,
    cf: ColumnFamily,
    tag: DetailTag,
)
    ensures
        detail_total(kind_details(of, stats), kind, cf, tag) == (if of == kind {
            stats.count_of(cf, tag) as nat
        } else {
            0
        }),
{
    let all = kind_details(of, stats);
    lemma_kind_details_prefix(of, stats, DETAIL_COUNT as int, kind, cf, tag);
    assert(all.take(DETAIL_COUNT as int) =~= all);
}

proof fn lemma_pending_upto_total(
    state: LocalState,
    n: nat,
    kind: CommandKind,
    cf: ColumnFamily,
    tag: DetailTag,
)
    ensures
        detail_total(state.pending_upto(n), kind, cf, tag) == (if kind.index() < n {
            state.scan_details_of(kind).count_of(cf, tag) as nat
        } else {
            0
        }),
    decreases n,
{
    if n > 0 {
        let before = state.pending_upto((n - 1) as nat);
        lemma_pending_upto_total(state, (n - 1) as nat, kind, cf, tag);
        lemma_kind_index_bijection(kind, (n - 1) as nat);
        match CommandKind::of_index((n - 1) as nat) {
            Some(of) => {
                if state.scan_details.contains_key(of) {
                    lemma_detail_total_concat(
                        before,
                        kind_details(of, state.scan_details[of]),
                        kind,
                        cf,
                        tag,
                    );
                    lemma_kind_details_total(of, state.scan_details[of], kind, cf, tag);
                }
            },
            None => {},
        }
    }
}

/// What a flush adds to the counter of a command kind, column family and
/// tag is the count accumulated under them.
pub proof fn lemma_flush_reports_what_is_pending(
    state: LocalState,
    kind: CommandKind,
    cf: ColumnFamily,
    tag: DetailTag,
)
    ensures
        detail_total(state.pending_scan_details(), kind, cf, tag) == state.scan_details_of(
            kind,
        ).count_of(cf, tag),
{
    lemma_pending_upto_total(state, COMMAND_KIND_COUNT as nat, kind, cf, tag);
    lemma_kind_index_bijection(kind, 0);
}

/// Conservation of scan details. For a worker that started with nothing,
/// and for every command kind, column family and tag: what its flushes have
/// added to the counter, plus the count it still holds, is the sum of the
/// counts it recorded. After a flush it holds nothing, so the flushes have
/// added exactly what was recorded.
///
/// This is stated for the histories in which no count recorded between two
/// flushes outgrew the largest count: past that point a merge keeps the cap
/// and the excess is not counted.
pub proof fn lemma_scan_details_conserved(
    events: Seq<ScanEvent>,
    kind: CommandKind,
    cf: ColumnFamily,
    tag: DetailTag,
)
    requires
        never_capped(events, kind, cf, tag),
    ensures
        state_after(events).scan_details_of(kind).count_of(cf, tag) == unflushed_total(
            events,
            kind,
            cf,
            tag,
        ),
        flushed_total(events, kind, cf, tag) + unflushed_total(events, kind, cf, tag)
            == recorded_total(events, kind, cf, tag),
        events.len() > 0 && events.last() is Flush ==> flushed_total(events, kind, cf, tag)
            == recorded_total(events, kind, cf, tag),
    decreases events.len(),
{
    if events.len() > 0 {
        let earlier = events.drop_last();
        assert forall|n: int| 0 <= n <= earlier.len() implies #[trigger] unflushed_total(
            earlier.take(n),
            kind,
            cf,
            tag,
        ) <= usize::MAX by {
            assert(earlier.take(n) =~= events.take(n));
        }
        lemma_scan_details_conserved(earlier, kind, cf, tag);
        let before = state_after(earlier);
        assert(events.take(events.len() as int) =~= events);
        match events.last() {
            ScanEvent::Record { kind: recorded, stats } => {
                if recorded == kind {
                    lemma_merged_count(before.scan_details_of(kind), stats, cf, tag);
                }
            },
            ScanEvent::Flush => {
                lemma_flush_reports_what_is_pending(before, kind, cf, tag);
            },
        }
    }
}

} // verus!
