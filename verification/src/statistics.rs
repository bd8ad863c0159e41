//! Per-command read statistics and per-region flow statistics.
//!
//! Both are plain counters that the aggregator only ever merges. A merge adds
//! field by field and stops at the largest representable count instead of
//! wrapping, so that merging never fails.

use vstd::prelude::*;

verus! {

/// Number of column families.
pub const COLUMN_FAMILY_COUNT: usize = 3;

/// Number of detail tags kept per column family.
pub const DETAIL_TAG_COUNT: usize = 7;

/// Number of `(column family, tag)` counters in one [`Statistics`].
pub const DETAIL_COUNT: usize = 21;

/// The column families that read statistics are partitioned by, used as the
/// `cf` label.
#[derive(Clone, Copy, Debug, PartialEq, Eq, Hash, Structural)]
pub enum ColumnFamily {
    Default,
    Lock,
    Write,
}

/// The operations counted per column family, used as the `tag` label.
#[derive(Clone, Copy, Debug, PartialEq, Eq, Hash, Structural)]
pub enum DetailTag {
    Processed,
    Get,
    Next,
    Prev,
    Seek,
    SeekForPrev,
    OverSeekBound,
}

impl ColumnFamily {
    /// The label value of the column family.
    pub open spec fn label(self) -> Seq<char> {
        match self {
            ColumnFamily::Default => "default"@,
            ColumnFamily::Lock => "lock"@,
            ColumnFamily::Write => "write"@,
        }
    }

    /// The label value, as the metrics registry takes it.
    pub fn get_str(&self) -> (s: &'static str)
        ensures
            s@ == self.label(),
    {
        match self {
            ColumnFamily::Default => "default",
            ColumnFamily::Lock => "lock",
            ColumnFamily::Write => "write",
        }
    }

    /// The column family at a position of the reporting order.
    pub open spec fn of_index(i: int) -> ColumnFamily {
        if i == 0 {
            ColumnFamily::Default
        } else if i == 1 {
            ColumnFamily::Lock
        } else {
            ColumnFamily::Write
        }
    }

    /// Position of the column family in the reporting order.
    pub open spec fn index(self) -> int {
        match self {
            ColumnFamily::Default => 0,
            ColumnFamily::Lock => 1,
            ColumnFamily::Write => 2,
        }
    }

    /// The column family at a position, if the position is below the number
    /// of column families.
    pub fn from_ordinal(i: usize) -> (cf: Option<ColumnFamily>)
        ensures
            cf == (if i < COLUMN_FAMILY_COUNT {
                Some(Self::of_index(i as int))
            } else {
                None
            }),
    {
        if i == 0 {
            Some(ColumnFamily::Default)
        } else if i == 1 {
            Some(ColumnFamily::Lock)
        } else if i == 2 {
            Some(ColumnFamily::Write)
        } else {
            None
        }
    }
}

impl DetailTag {
    /// The label value of the tag.
    pub open spec fn label(self) -> Seq<char> {
        match self {
            DetailTag::Processed => "processed"@,
            DetailTag::Get => "get"@,
            DetailTag::Next => "next"@,
            DetailTag::Prev => "prev"@,
            DetailTag::Seek => "seek"@,
            DetailTag::SeekForPrev => "seek_for_prev"@,
            DetailTag::OverSeekBound => "over_seek_bound"@,
        }
    }

    /// The label value, as the metrics registry takes it.
    pub fn get_str(&self) -> (s: &'static str)
        ensures
            s@ == self.label(),
    {
        match self {
            DetailTag::Processed => "processed",
            DetailTag::Get => "get",
            DetailTag::Next => "next",
            DetailTag::Prev => "prev",
            DetailTag::Seek => "seek",
            DetailTag::SeekForPrev => "seek_for_prev",
            DetailTag::OverSeekBound => "over_seek_bound",
        }
    }

    /// The tag at a position of the reporting order.
    pub open spec fn of_index(i: int) -> DetailTag {
        if i == 0 {
            DetailTag::Processed
        } else if i == 1 {
            DetailTag::Get
        } else if i == 2 {
            DetailTag::Next
        } else if i == 3 {
            DetailTag::Prev
        } else if i == 4 {
            DetailTag::Seek
        } else if i == 5 {
            DetailTag::SeekForPrev
        } else {
            DetailTag::OverSeekBound
        }
    }

    /// Position of the tag in the reporting order.
    pub open spec fn index(self) -> int {
        match self {
            DetailTag::Processed => 0,
            DetailTag::Get => 1,
            DetailTag::Next => 2,
            DetailTag::Prev => 3,
            DetailTag::Seek => 4,
            DetailTag::SeekForPrev => 5,
            DetailTag::OverSeekBound => 6,
        }
    }

    /// The tag at a position, if the position is below the number of tags.
    pub fn from_ordinal(i: usize) -> (tag: Option<DetailTag>)
        ensures
            tag == (if i < DETAIL_TAG_COUNT {
                Some(Self::of_index(i as int))
            } else {
                None
            }),
    {
        if i == 0 {
            Some(DetailTag::Processed)
        } else if i == 1 {
            Some(DetailTag::Get)
        } else if i == 2 {
            Some(DetailTag::Next)
        } else if i == 3 {
            Some(DetailTag::Prev)
        } else if i == 4 {
            Some(DetailTag::Seek)
        } else if i == 5 {
            Some(DetailTag::SeekForPrev)
        } else if i == 6 {
            Some(DetailTag::OverSeekBound)
        } else {
            None
        }
    }
}

/// The sum of two counts, held at the largest count that fits.
pub open spec fn capped_sum(a: usize, b: usize) -> usize {
    if a + b > usize::MAX {
        usize::MAX
    } else {
        (a + b) as usize
    }
}

/// Read flow of one region: how many keys and bytes were read.
#[derive(Clone, Copy, Debug, PartialEq, Eq, Structural)]
pub struct FlowStatistics {
    pub read_keys: usize,
    pub read_bytes: usize,
}

impl FlowStatistics {
    /// The flow of a region nothing was read from.
    pub open spec fn zero() -> FlowStatistics {
        FlowStatistics { read_keys: 0, read_bytes: 0 }
    }

    /// The field-wise capped sum of two flows.
    pub open spec fn merged(self, other: FlowStatistics) -> FlowStatistics {
        FlowStatistics {
            read_keys: capped_sum(self.read_keys, other.read_keys),
            read_bytes: capped_sum(self.read_bytes, other.read_bytes),
        }
    }

    /// Merges `other` into `self`.
    pub fn add(&mut self, other: &FlowStatistics)
        ensures
            *final(self) == old(self).merged(*other),
    {
        self.read_bytes = self.read_bytes.saturating_add(other.read_bytes);
        self.read_keys = self.read_keys.saturating_add(other.read_keys);
    }
}

impl Default for FlowStatistics {
    fn default() -> (s: FlowStatistics)
        ensures
            s == FlowStatistics::zero(),
    {
        FlowStatistics { read_keys: 0, read_bytes: 0 }
    }
}

/// Read statistics of one column family.
#[derive(Clone, Copy, Debug, PartialEq, Eq, Structural)]
pub struct CfStatistics {
    pub processed: usize,
    pub get: usize,
    pub next: usize,
    pub prev: usize,
    pub seek: usize,
    pub seek_for_prev: usize,
    pub over_seek_bound: usize,
    pub flow_stats: FlowStatistics,
}

impl CfStatistics {
    /// The statistics of a column family nothing was read from.
    pub open spec fn zero() -> CfStatistics {
        CfStatistics {
            processed: 0,
            get: 0,
            next: 0,
            prev: 0,
            seek: 0,
            seek_for_prev: 0,
            over_seek_bound: 0,
            flow_stats: FlowStatistics::zero(),
        }
    }

    /// The count kept under a tag.
    pub open spec fn count_of(self, tag: DetailTag) -> usize {
        match tag {
            DetailTag::Processed => self.processed,
            DetailTag::Get => self.get,
            DetailTag::Next => self.next,
            DetailTag::Prev => self.prev,
            DetailTag::Seek => self.seek,
            DetailTag::SeekForPrev => self.seek_for_prev,
            DetailTag::OverSeekBound => self.over_seek_bound,
        }
    }

    /// The field-wise capped sum of two column family statistics.
    pub open spec fn merged(self, other: CfStatistics) -> CfStatistics {
        CfStatistics {
            processed: capped_sum(self.processed, other.processed),
            get: capped_sum(self.get, other.get),
            next: capped_sum(self.next, other.next),
            prev: capped_sum(self.prev, other.prev),
            seek: capped_sum(self.seek, other.seek),
            seek_for_prev: capped_sum(self.seek_for_prev, other.seek_for_prev),
            over_seek_bound: capped_sum(self.over_seek_bound, other.over_seek_bound),
            flow_stats: self.flow_stats.merged(other.flow_stats),
        }
    }

    /// The count kept under a tag.
    pub fn count(&self, tag: DetailTag) -> (n: usize)
        ensures
            n == self.count_of(tag),
    {
        match tag {
            DetailTag::Processed => self.processed,
            DetailTag::Get => self.get,
            DetailTag::Next => self.next,
            DetailTag::Prev => self.prev,
            DetailTag::Seek => self.seek,
            DetailTag::SeekForPrev => self.seek_for_prev,
            DetailTag::OverSeekBound => self.over_seek_bound,
        }
    }

    /// Merges `other` into `self`.
    pub fn add(&mut self, other: &CfStatistics)
        ensures
            *final(self) == old(self).merged(*other),
    {
        self.processed = self.processed.saturating_add(other.processed);
        self.get = self.get.saturating_add(other.get);
        self.next = self.next.saturating_add(other.next);
        self.prev = self.prev.saturating_add(other.prev);
        self.seek = self.seek.saturating_add(other.seek);
        self.seek_for_prev = self.seek_for_prev.saturating_add(other.seek_for_prev);
        self.over_seek_bound = self.over_seek_bound.saturating_add(other.over_seek_bound);
        self.flow_stats.add(&other.flow_stats);
    }
}

impl Default for CfStatistics {
    fn default() -> (s: CfStatistics)
        ensures
            s == CfStatistics::zero(),
    {
        CfStatistics {
            processed: 0,
            get: 0,
            next: 0,
            prev: 0,
            seek: 0,
            seek_for_prev: 0,
            over_seek_bound: 0,
            flow_stats: FlowStatistics { read_keys: 0, read_bytes: 0 },
        }
    }
}

/// Read statistics of one command, partitioned by column family.
#[derive(Clone, Copy, Debug, PartialEq, Eq, Structural)]
pub struct Statistics {
    pub lock: CfStatistics,
    pub write: CfStatistics,
    pub data: CfStatistics,
}

impl Statistics {
    /// The statistics of a command that read nothing.
    pub open spec fn zero() -> Statistics {
        Statistics { lock: CfStatistics::zero(), write: CfStatistics::zero(), data: CfStatistics::zero() }
    }

    /// The part kept for a column family. The default column family holds the data.
    pub open spec fn of_cf(self, cf: ColumnFamily) -> CfStatistics {
        match cf {
            ColumnFamily::Default => self.data,
            ColumnFamily::Lock => self.lock,
            ColumnFamily::Write => self.write,
        }
    }

    /// The count kept under a column family and a tag.
    pub open spec fn count_of(self, cf: ColumnFamily, tag: DetailTag) -> usize {
        self.of_cf(cf).count_of(tag)
    }

    /// The field-wise capped sum of two statistics.
    pub open spec fn merged(self, other: Statistics) -> Statistics {
        Statistics {
            lock: self.lock.merged(other.lock),
            write: self.write.merged(other.write),
            data: self.data.merged(other.data),
        }
    }

    /// Every count with its column family and tag: column families in
    /// reporting order, and within each the tags in reporting order, so that
    /// the count of column family `c` and tag `t` stands at position
    /// `7 * c + t`.
    pub open spec fn details_of(self) -> Seq<(ColumnFamily, DetailTag, usize)> {
        Seq::new(
            DETAIL_COUNT as nat,
            |i: int|
                (
                    ColumnFamily::of_index(i / 7),
                    DetailTag::of_index(i % 7),
                    self.count_of(ColumnFamily::of_index(i / 7), DetailTag::of_index(i % 7)),
                ),
        )
    }

    /// The part kept for a column family.
    pub fn cf(&self, cf: ColumnFamily) -> (part: &CfStatistics)
        ensures
            *part == self.of_cf(cf),
    {
        match cf {
            ColumnFamily::Default => &self.data,
            ColumnFamily::Lock => &self.lock,
            ColumnFamily::Write => &self.write,
        }
    }

    /// Lists every count with its column family and tag.
    pub fn details(&self) -> (out: Vec<(ColumnFamily, DetailTag, usize)>)
        ensures
            out@ == self.details_of(),
    {
        let mut out: Vec<(ColumnFamily, DetailTag, usize)> = Vec::new();
        let mut c: usize = 0;
        while c < COLUMN_FAMILY_COUNT
            invariant
                c <= COLUMN_FAMILY_COUNT,
                out@.len() == c * 7,
                forall|k: int| 0 <= k < out@.len() ==> out@[k] == self.details_of()[k],
            decreases COLUMN_FAMILY_COUNT - c,
        {
            if let Some(cf) = ColumnFamily::from_ordinal(c) {
                let part = self.cf(cf);
                let mut t: usize = 0;
                while t < DETAIL_TAG_COUNT
                    invariant
                        c < COLUMN_FAMILY_COUNT,
                        t <= DETAIL_TAG_COUNT,
                        cf == ColumnFamily::of_index(c as int),
                        *part == self.of_cf(cf),
                        out@.len() == c * 7 + t,
                        forall|k: int| 0 <= k < out@.len() ==> out@[k] == self.details_of()[k],
                    decreases DETAIL_TAG_COUNT - t,
                {
                    if let Some(tag) = DetailTag::from_ordinal(t) {
                        out.push((cf, tag, part.count(tag)));
                    }
                    t += 1;
                }
            }
            c += 1;
        }
        assert(out@ =~= self.details_of());
        out
    }

    /// Merges `other` into `self`.
    pub fn add(&mut self, other: &Statistics)
        ensures
            *final(self) == old(self).merged(*other),
    {
        self.lock.add(&other.lock);
        self.write.add(&other.write);
        self.data.add(&other.data);
    }
}

impl Default for Statistics {
    fn default() -> (s: Statistics)
        ensures
            s == Statistics::zero(),
    {
        Statistics {
            lock: CfStatistics::default(),
            write: CfStatistics::default(),
            data: CfStatistics::default(),
        }
    }
}

/// Merging flow statistics does not depend on the order of the two sides or
/// on how three are grouped, and merging with the zero flow changes nothing.
pub proof fn lemma_flow_merge(a: FlowStatistics, b: FlowStatistics, c: FlowStatistics)
    ensures
        a.merged(b) == b.merged(a),
        a.merged(b).merged(c) == a.merged(b.merged(c)),
        a.merged(FlowStatistics::zero()) == a,
        FlowStatistics::zero().merged(a) == a,
{
}

/// Merging the statistics of a column family does not depend on the order
/// of the two sides or on how three are grouped, and merging with the zero
/// statistics changes nothing.
pub proof fn lemma_cf_statistics_merge(a: CfStatistics, b: CfStatistics, c: CfStatistics)
    ensures
        a.merged(b) == b.merged(a),
        a.merged(b).merged(c) == a.merged(b.merged(c)),
        a.merged(CfStatistics::zero()) == a,
        CfStatistics::zero().merged(a) == a,
{
    lemma_flow_merge(a.flow_stats, b.flow_stats, c.flow_stats);
}

/// Merging read statistics does not depend on the order of the two sides or
/// on how three are grouped, and merging with the zero statistics changes
/// nothing.
pub proof fn lemma_statistics_merge(a: Statistics, b: Statistics, c: Statistics)
    ensures
        a.merged(b) == b.merged(a),
        a.merged(b).merged(c) == a.merged(b.merged(c)),
        a.merged(Statistics::zero()) == a,
        Statistics::zero().merged(a) == a,
{
    lemma_cf_statistics_merge(a.lock, b.lock, c.lock);
    lemma_cf_statistics_merge(a.write, b.write, c.write);
    lemma_cf_statistics_merge(a.data, b.data, c.data);
}

/// A merged count is the sum of the two counts wherever that sum fits, and
/// the largest count otherwise: nothing is lost below the cap.
pub proof fn lemma_merged_count(a: Statistics, b: Statistics, cf: ColumnFamily, tag: DetailTag)
    ensures
        a.merged(b).count_of(cf, tag) == capped_sum(a.count_of(cf, tag), b.count_of(cf, tag)),
        a.count_of(cf, tag) + b.count_of(cf, tag) <= usize::MAX ==> a.merged(b).count_of(cf, tag)
            == a.count_of(cf, tag) + b.count_of(cf, tag),
{
}

/// No two column families share a label: a label names its column family.
pub proof fn lemma_column_family_labels_distinct(a: ColumnFamily, b: ColumnFamily)
    ensures
        a.label() == b.label() <==> a == b,
{
    reveal_strlit("default");
    reveal_strlit("lock");
    reveal_strlit("write");
    assert("default"@.len() == 7);
    assert("lock"@.len() == 4);
    assert("write"@.len() == 5);
}

/// No two tags share a label: a label names its tag.
pub proof fn lemma_tag_labels_distinct(a: DetailTag, b: DetailTag)
    ensures
        a.label() == b.label() <==> a == b,
{
    reveal_strlit("processed");
    reveal_strlit("get");
    reveal_strlit("next");
    reveal_strlit("prev");
    reveal_strlit("seek");
    reveal_strlit("seek_for_prev");
    reveal_strlit("over_seek_bound");
    assert("processed"@.len() == 9 && "processed"@[0] == 'p');
    assert("get"@.len() == 3 && "get"@[0] == 'g');
    assert("next"@.len() == 4 && "next"@[0] == 'n');
    assert("prev"@.len() == 4 && "prev"@[0] == 'p');
    assert("seek"@.len() == 4 && "seek"@[0] == 's');
    assert("seek_for_prev"@.len() == 13 && "seek_for_prev"@[0] == 's');
    assert("over_seek_bound"@.len() == 15 && "over_seek_bound"@[0] == 'o');
}

} // verus!
