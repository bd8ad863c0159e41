//! The in-memory causal span model and its transform into the wire form.
//!
//! A span names its causal predecessor through a [`Link`]. The encoder copies
//! every field and carries the link over shape for shape; it neither validates
//! that a predecessor id resolves, nor sorts, nor drops anything.

use crate::wire;
use vstd::prelude::*;

verus! {

/// The causal predecessor of a span.
///
/// `Parent` is synchronous nesting under a span that is open in the same
/// causal context. `Continue` is the resumption of work that was suspended
/// elsewhere, possibly on another worker.
#[derive(Clone, Copy, Debug, PartialEq, Eq, Structural)]
pub enum Link {
    Root,
    Parent { id: u32 },
    Continue { id: u32 },
}

/// One timed causal unit. Timestamps are CPU cycle counts.
#[derive(Clone, Copy, Debug, PartialEq, Eq, Structural)]
pub struct Span {
    pub id: u32,
    pub link: Link,
    pub begin_cycles: u64,
    pub end_cycles: u64,
    pub event: u32,
}

/// The unit of export: a time base and the spans recorded against it, in the
/// order the producer recorded them.
#[derive(Clone, Debug, PartialEq, Eq)]
pub struct SpanSet {
    pub create_time_ns: u64,
    pub start_time_ns: u64,
    pub cycles_per_sec: u64,
    pub spans: Vec<Span>,
}

/// A span set as a mathematical value.
pub ghost struct SpanSetView {
    pub create_time_ns: u64,
    pub start_time_ns: u64,
    pub cycles_per_sec: u64,
    pub spans: Seq<Span>,
}

impl View for SpanSet {
    type V = SpanSetView;

    open spec fn view(&self) -> SpanSetView {
        SpanSetView {
            create_time_ns: self.create_time_ns,
            start_time_ns: self.start_time_ns,
            cycles_per_sec: self.cycles_per_sec,
            spans: self.spans@,
        }
    }
}

/// The wire shape of a link.
pub open spec fn encoded_link(link: Link) -> wire::Link {
    match link {
        Link::Root => wire::Link::Root,
        Link::Parent { id } => wire::Link::Parent { id },
        Link::Continue { id } => wire::Link::Continue { id },
    }
}

/// The wire form of a span: every field verbatim, the link shape for shape.
pub open spec fn encoded_span(span: Span) -> wire::Span {
    wire::Span {
        id: span.id,
        begin_cycles: span.begin_cycles,
        end_cycles: span.end_cycles,
        event: span.event,
        link: encoded_link(span.link),
    }
}

/// The wire form of a span set: the time base verbatim, the spans one for
/// one in the producer's order.
pub open spec fn encoded_span_set(set: SpanSetView) -> wire::SpanSetView {
    wire::SpanSetView {
        create_time_ns: set.create_time_ns,
        start_time_ns: set.start_time_ns,
        cycles_per_sec: set.cycles_per_sec,
        spans: Seq::new(set.spans.len(), |i: int| encoded_span(set.spans[i])),
    }
}

/// The wire form of a sequence of span sets, one for one and in order.
pub open spec fn encoded_span_sets(sets: Seq<SpanSetView>) -> Seq<wire::SpanSetView> {
    Seq::new(sets.len(), |i: int| encoded_span_set(sets[i]))
}

/// The in-memory shape of a wire link.
pub open spec fn decoded_link(link: wire::Link) -> Link {
    match link {
        wire::Link::Root => Link::Root,
        wire::Link::Parent { id } => Link::Parent { id },
        wire::Link::Continue { id } => Link::Continue { id },
    }
}

/// The in-memory form of a wire span.
pub open spec fn decoded_span(span: wire::Span) -> Span {
    Span {
        id: span.id,
        link: decoded_link(span.link),
        begin_cycles: span.begin_cycles,
        end_cycles: span.end_cycles,
        event: span.event,
    }
}

/// The in-memory form of a wire span set.
pub open spec fn decoded_span_set(set: wire::SpanSetView) -> SpanSetView {
    SpanSetView {
        create_time_ns: set.create_time_ns,
        start_time_ns: set.start_time_ns,
        cycles_per_sec: set.cycles_per_sec,
        spans: Seq::new(set.spans.len(), |i: int| decoded_span(set.spans[i])),
    }
}

/// The in-memory form of a sequence of wire span sets.
pub open spec fn decoded_span_sets(sets: Seq<wire::SpanSetView>) -> Seq<SpanSetView> {
    Seq::new(sets.len(), |i: int| decoded_span_set(sets[i]))
}

/// The views of a vector of span sets, in order.
pub open spec fn span_set_views(sets: Seq<SpanSet>) -> Seq<SpanSetView> {
    Seq::new(sets.len(), |i: int| sets[i]@)
}

/// The views of a vector of wire span sets, in order.
pub open spec fn wire_span_set_views(sets: Seq<wire::SpanSet>) -> Seq<wire::SpanSetView> {
    Seq::new(sets.len(), |i: int| sets[i]@)
}

/// Encodes one link.
pub fn encode_link(link: Link) -> (out: wire::Link)
    ensures
        out == encoded_link(link),
{
    match link {
        Link::Root => wire::Link::Root,
        Link::Parent { id } => wire::Link::Parent { id },
        Link::Continue { id } => wire::Link::Continue { id },
    }
}

/// Decodes one wire link.
pub fn decode_link(link: wire::Link) -> (out: Link)
    ensures
        out == decoded_link(link),
{
    match link {
        wire::Link::Root => Link::Root,
        wire::Link::Parent { id } => Link::Parent { id },
        wire::Link::Continue { id } => Link::Continue { id },
    }
}

/// Encodes one span set.
pub fn encode_span_set(span_set: &SpanSet) -> (out: wire::SpanSet)
    ensures
        out@ == encoded_span_set(span_set@),
{
    let mut spans: Vec<wire::Span> = Vec::new();
    let mut j: usize = 0;
    while j < span_set.spans.len()
        invariant
            j <= span_set.spans.len(),
            spans@.len() == j,
            forall|k: int| 0 <= k < j ==> spans@[k] == encoded_span(span_set.spans@[k]),
        decreases span_set.spans.len() - j,
    {
        let span: Span = span_set.spans[j];
        spans.push(
            wire::Span {
                id: span.id,
                begin_cycles: span.begin_cycles,
                end_cycles: span.end_cycles,
                event: span.event,
                link: encode_link(span.link),
            },
        );
        j += 1;
    }
    let out = wire::SpanSet {
        create_time_ns: span_set.create_time_ns,
        start_time_ns: span_set.start_time_ns,
        cycles_per_sec: span_set.cycles_per_sec,
        spans,
    };
    assert(out@.spans =~= encoded_span_set(span_set@).spans);
    out
}

/// Encodes span sets into their wire form in a single pass.
///
/// The output holds one wire span set per input span set and one wire span
/// per input span, each at the position of its source.
pub fn encode_spans(span_sets: Vec<SpanSet>) -> (out: Vec<wire::SpanSet>)
    ensures
        wire_span_set_views(out@) == encoded_span_sets(span_set_views(span_sets@)),
{
    let mut out: Vec<wire::SpanSet> = Vec::new();
    let mut i: usize = 0;
    while i < span_sets.len()
        invariant
            i <= span_sets.len(),
            out@.len() == i,
            forall|k: int| 0 <= k < i ==> (#[trigger] out@[k])@ == encoded_span_set(span_sets@[k]@),
        decreases span_sets.len() - i,
    {
        let encoded = encode_span_set(&span_sets[i]);
        out.push(encoded);
        i += 1;
    }
    assert(wire_span_set_views(out@) =~= encoded_span_sets(span_set_views(span_sets@)));
    out
}

/// Decodes one wire span set.
pub fn decode_span_set(span_set: &wire::SpanSet) -> (out: SpanSet)
    ensures
        out@ == decoded_span_set(span_set@),
{
    let mut spans: Vec<Span> = Vec::new();
    let mut j: usize = 0;
    while j < span_set.spans.len()
        invariant
            j <= span_set.spans.len(),
            spans@.len() == j,
            forall|k: int| 0 <= k < j ==> spans@[k] == decoded_span(span_set.spans@[k]),
        decreases span_set.spans.len() - j,
    {
        let span: wire::Span = span_set.spans[j];
        spans.push(
            Span {
                id: span.id,
                link: decode_link(span.link),
                begin_cycles: span.begin_cycles,
                end_cycles: span.end_cycles,
                event: span.event,
            },
        );
        j += 1;
    }
    let out = SpanSet {
        create_time_ns: span_set.create_time_ns,
        start_time_ns: span_set.start_time_ns,
        cycles_per_sec: span_set.cycles_per_sec,
        spans,
    };
    assert(out@.spans =~= decoded_span_set(span_set@).spans);
    out
}

/// Decodes wire span sets back into the in-memory form in a single pass.
pub fn decode_spans(span_sets: Vec<wire::SpanSet>) -> (out: Vec<SpanSet>)
    ensures
        span_set_views(out@) == decoded_span_sets(wire_span_set_views(span_sets@)),
{
    let mut out: Vec<SpanSet> = Vec::new();
    let mut i: usize = 0;
    while i < span_sets.len()
        invariant
            i <= span_sets.len(),
            out@.len() == i,
            forall|k: int| 0 <= k < i ==> (#[trigger] out@[k])@ == decoded_span_set(span_sets@[k]@),
        decreases span_sets.len() - i,
    {
        let decoded = decode_span_set(&span_sets[i]);
        out.push(decoded);
        i += 1;
    }
    assert(span_set_views(out@) =~= decoded_span_sets(wire_span_set_views(span_sets@)));
    out
}

/// Decoding undoes encoding: every field of every span of every set comes
/// back as it was, and each link comes back in the shape it had, `Root` as
/// `Root`, `Parent` as `Parent` and `Continue` as `Continue`, with its id.
pub proof fn lemma_decode_encode(sets: Seq<SpanSetView>)
    ensures
        decoded_span_sets(encoded_span_sets(sets)) == sets,
        forall|link: Link| decoded_link(encoded_link(link)) == link,
        forall|link: Link| link is Root <==> encoded_link(link) is Root,
        forall|link: Link| link is Parent <==> encoded_link(link) is Parent,
        forall|link: Link| link is Continue <==> encoded_link(link) is Continue,
        forall|span: Span| decoded_span(encoded_span(span)) == span,
{
    assert forall|i: int| 0 <= i < sets.len() implies decoded_span_sets(encoded_span_sets(sets))[i]
        == sets[i] by {
        let back = decoded_span_set(encoded_span_set(sets[i]));
        assert(back.spans =~= sets[i].spans);
    }
    assert(decoded_span_sets(encoded_span_sets(sets)) =~= sets);
}

/// Encoding undoes decoding: no two wire values decode to the same trace.
pub proof fn lemma_encode_decode(sets: Seq<wire::SpanSetView>)
    ensures
        encoded_span_sets(decoded_span_sets(sets)) == sets,
{
    assert forall|i: int| 0 <= i < sets.len() implies encoded_span_sets(decoded_span_sets(sets))[i]
        == sets[i] by {
        let back = encoded_span_set(decoded_span_set(sets[i]));
        assert(back.spans =~= sets[i].spans);
    }
    assert(encoded_span_sets(decoded_span_sets(sets)) =~= sets);
}

/// Encoding keeps length and order: as many sets come out as went in, each
/// set keeps its number of spans, and the span at a position of the output
/// is the encoding of the span at that position of the input.
pub proof fn lemma_encode_keeps_order(sets: Seq<SpanSetView>)
    ensures
        encoded_span_sets(sets).len() == sets.len(),
        forall|i: int|
            0 <= i < sets.len() ==> (#[trigger] encoded_span_sets(sets)[i]).spans.len()
                == sets[i].spans.len(),
        forall|i: int, j: int|
            0 <= i < sets.len() && 0 <= j < sets[i].spans.len() ==> #[trigger] encoded_span_sets(
                sets,
            )[i].spans[j] == encoded_span(sets[i].spans[j]),
{
}

} // verus!
