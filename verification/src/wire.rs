//! The wire form of a trace: what leaves the node for the export pipeline.

use vstd::prelude::*;

verus! {

/// The causal predecessor of a wire span: exactly one of three shapes.
#[derive(Clone, Copy, Debug, PartialEq, Eq, Structural)]
pub enum Link {
    Root,
    Parent { id: u32 },
    Continue { id: u32 },
}

/// One timed unit on the wire.
#[derive(Clone, Copy, Debug, PartialEq, Eq, Structural)]
pub struct Span {
    pub id: u32,
    pub begin_cycles: u64,
    pub end_cycles: u64,
    pub event: u32,
    pub link: Link,
}

/// A batch of wire spans that share one time base.
#[derive(Clone, Debug, PartialEq, Eq)]
pub struct SpanSet {
    pub create_time_ns: u64,
    pub start_time_ns: u64,
    pub cycles_per_sec: u64,
    pub spans: Vec<Span>,
}

/// A wire span set as a mathematical value.
pub ghost struct SpanSetView {
    pub create_time_ns: u64,
    pub start_time_ns: u64,
    pub cycles_per_sec: u64,
    pub spans: Seq<Span>,
}

impl View for SpanSet {
    type V = SpanSetView;

    open spec fn view(&self) -> SpanSetView {
        SpanSetView {
            create_time_ns: self.create_time_ns,
            start_time_ns: self.start_time_ns,
            cycles_per_sec: self.cycles_per_sec,
            spans: self.spans@,
        }
    }
}

} // verus!
