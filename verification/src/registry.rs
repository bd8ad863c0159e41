//! The process-wide counters of the metrics registry that this layer writes
//! to directly.

use vstd::prelude::*;

verus! {

/// A family of process-wide integer counters that share a name and differ in
/// their label values: a prometheus `IntCounterVec`.
///
/// The vector is generic over a builder type that prometheus keeps private,
/// so its type cannot be declared to Verus; it is held here as an opaque
/// value. Any thread may add to the same counters at any time, so no
/// contract speaks of the values they hold.
#[verifier::external_body]
pub struct CounterFamily {
    pub vec: prometheus::IntCounterVec,
}

/// Calls `MetricVec::get_metric_with_label_values` on the family's vector
/// and, where that returns a counter, `GenericCounter::inc_by` on it.
///
/// The first call returns the counter of the given label values, creating it
/// at zero on first use; it returns an error instead where the number of
/// label values is not the number of label names of the family. The second
/// adds `count` atomically. Where the first fails nothing is added. Neither
/// call panics. Nothing is claimed of the counter's value.
#[verifier::external_body]
pub(crate) fn counter_family_add(family: &CounterFamily, labels: &[&'static str], count: u64) {
    if let Ok(counter) = family.vec.get_metric_with_label_values(labels) {
        counter.inc_by(count);
    }
}

/// The texts of a run of label values.
pub open spec fn label_texts(values: Seq<&'static str>) -> Seq<Seq<char>> {
    Seq::new(values.len(), |i: int| values[i]@)
}

/// Marks an addition that was made. It holds of a family, label texts and a
/// count once a call that adds the count to the family under label values
/// of those texts has returned, and nothing else establishes it. It says
/// nothing of what the counter holds afterwards.
pub closed spec fn added_to_family(family: &CounterFamily, labels: Seq<Seq<char>>, count: u64) -> bool {
    exists|values: &[&'static str]|
        label_texts(values@) == labels && #[trigger] call_ensures(
            counter_family_add,
            (family, values, count),
            (),
        )
}

impl CounterFamily {
    /// Adds `count` to the counter of the family under the given label
    /// values. A family with another number of label names takes nothing.
    pub fn add(&self, labels: &[&'static str], count: u64)
        ensures
            added_to_family(self, label_texts(labels@), count),
    {
        counter_family_add(self, labels, count);
    }
}

} // verus!
