//! The cached coprocessor request handler: it answers "cache hit"
//! from the data version of the snapshot it was built on, without running
//! the query.

use vstd::prelude::*;

verus! {

/// What the cached handler needs of a storage snapshot. Storage engines
/// implement this for their snapshots.
pub trait Snapshot {
    /// The data version of the snapshot; `None` where the snapshot has no
    /// notion of one.
    fn get_data_version(&self) -> Option<u64>;
}

/// The part of a coprocessor response that the cached handler fills in. Everything
/// else in a response keeps its default.
#[derive(Clone, Copy, Debug, PartialEq, Eq)]
pub struct Response {
    pub is_cache_hit: bool,
    pub cache_last_version: Option<u64>,
}

/// A handler for one coprocessor request whose answer was settled when it
/// was built.
pub struct CachedRequestHandler {
    data_version: Option<u64>,
}

/// The response of a handler built on a snapshot with the given data version: a
/// cache hit that carries the version, or no version where there is none.
pub open spec fn cached_response(data_version: Option<u64>) -> Response {
    Response { is_cache_hit: true, cache_last_version: data_version }
}

impl CachedRequestHandler {
    /// The data version read from the snapshot at construction.
    pub closed spec fn data_version(&self) -> Option<u64> {
        self.data_version
    }

    /// Builds the handler on a snapshot, reading its data version once: the
    /// handler holds what `get_data_version` returned for the snapshot.
    pub fn new<S: Snapshot>(snap: S) -> (handler: CachedRequestHandler)
        ensures
            call_ensures(S::get_data_version, (&snap,), handler.data_version()),
    {
        CachedRequestHandler { data_version: snap.get_data_version() }
    }

    /// The factory for cached handlers: given a snapshot and a request
    /// context, which it does not read, it builds the handler on the snapshot. It accepts every
    /// snapshot and every context.
    pub fn builder<S: Snapshot, C>() -> (build: impl FnOnce(S, &C) -> CachedRequestHandler)
        ensures
            forall|snap: S, req_ctx: &C| call_requires(build, (snap, req_ctx)),
            forall|snap: S, req_ctx: &C, handler: CachedRequestHandler|
                call_ensures(build, (snap, req_ctx), handler) ==> call_ensures(
                    S::get_data_version,
                    (&snap,),
                    handler.data_version(),
                ),
    {
        |snap: S, _req_ctx: &C| -> (handler: CachedRequestHandler)
            ensures
                call_ensures(S::get_data_version, (&snap,), handler.data_version()),
            { CachedRequestHandler::new(snap) }
    }

    /// Answers the request: always a cache hit, with the data version the
    /// handler was built on. The handler is left as it was.
    pub fn handle_request(&mut self) -> (resp: Response)
        ensures
            resp == cached_response(old(self).data_version()),
            *final(self) == *old(self),
    {
        Response { is_cache_hit: true, cache_last_version: self.data_version }
    }
}

/// The answer of a cached handler is settled by the data version of the
/// snapshot it was built on: always a cache hit; with version `v` it carries
/// `v`, and with no version it carries none.
pub proof fn lemma_cached_response(v: u64)
    ensures
        forall|data_version: Option<u64>| (#[trigger] cached_response(data_version)).is_cache_hit,
        cached_response(Some(v)) == (Response { is_cache_hit: true, cache_last_version: Some(v) }),
        cached_response(None).cache_last_version is None,
{
}

} // verus!
