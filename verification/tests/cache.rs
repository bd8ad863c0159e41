use tikv_telemetry::cache::{CachedRequestHandler, Response, Snapshot};

struct VersionedSnapshot {
    version: Option<u64>,
}

impl Snapshot for VersionedSnapshot {
    fn get_data_version(&self) -> Option<u64> {
        self.version
    }
}

struct ReqContext;

#[test]
fn cache_hit_carries_the_snapshot_version() {
    let mut handler = CachedRequestHandler::new(VersionedSnapshot { version: Some(42) });
    let resp = handler.handle_request();
    assert_eq!(resp, Response { is_cache_hit: true, cache_last_version: Some(42) });
}

#[test]
fn cache_hit_without_a_version_omits_it() {
    let mut handler = CachedRequestHandler::new(VersionedSnapshot { version: None });
    let resp = handler.handle_request();
    assert!(resp.is_cache_hit);
    assert_eq!(resp.cache_last_version, None);
}

#[test]
fn the_answer_never_changes() {
    let mut handler = CachedRequestHandler::new(VersionedSnapshot { version: Some(u64::MAX) });
    let first = handler.handle_request();
    let second = handler.handle_request();
    assert_eq!(first, second);
    assert_eq!(second, Response { is_cache_hit: true, cache_last_version: Some(u64::MAX) });
}

#[test]
fn version_zero_is_a_version() {
    let mut handler = CachedRequestHandler::new(VersionedSnapshot { version: Some(0) });
    assert_eq!(handler.handle_request().cache_last_version, Some(0));
}

#[test]
fn the_builder_builds_on_the_snapshot_and_ignores_the_context() {
    let build = CachedRequestHandler::builder::<VersionedSnapshot, ReqContext>();
    let mut handler = build(VersionedSnapshot { version: Some(7) }, &ReqContext);
    assert_eq!(
        handler.handle_request(),
        Response { is_cache_hit: true, cache_last_version: Some(7) }
    );
    let build = CachedRequestHandler::builder::<VersionedSnapshot, ReqContext>();
    let mut handler = build(VersionedSnapshot { version: None }, &ReqContext);
    assert_eq!(handler.handle_request(), Response { is_cache_hit: true, cache_last_version: None });
}
