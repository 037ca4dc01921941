use album_art::pending::QueueReason;
use album_art::record::{archive_url, RecordKind};
use album_art::resolver::{
    AlbumArtResolver, BeginStep, ProbeStep, ReleaseLookup, ResolveError, ResolveStep,
    SearchOutcome,
};
use album_art::track::TrackMetadata;

fn meta(release_id: Option<&str>) -> TrackMetadata {
    TrackMetadata {
        artist: Some("Artist".to_string()),
        album_artist: None,
        album: Some("Album".to_string()),
        title: Some("Title".to_string()),
        track_no: Some("1".to_string()),
        date: Some("1999".to_string()),
        duration_secs: Some(60),
        release_id: release_id.map(|s| s.to_string()),
        source_path: "a/b.flac".to_string(),
    }
}

#[test]
fn missing_tags_resolve_to_nothing_at_once() {
    let resolver = AlbumArtResolver::new();
    let mut m = meta(None);
    m.artist = None;
    assert!(matches!(resolver.begin(&m), BeginStep::Absent));
    let mut m2 = meta(Some("id"));
    m2.album = None;
    assert!(matches!(resolver.begin(&m2), BeginStep::Absent));
    let mut m3 = meta(None);
    m3.artist = Some(String::new());
    assert!(matches!(resolver.begin(&m3), BeginStep::Absent));
}

#[test]
fn album_artist_preferred_over_artist() {
    let resolver = AlbumArtResolver::new();
    let mut m = meta(None);
    m.album_artist = Some("Group".to_string());
    match resolver.begin(&m) {
        BeginStep::Search(artist, album) => {
            assert_eq!(artist, "Group");
            assert_eq!(album, "Album");
        }
        _ => panic!("expected the search fallback"),
    }
}

#[test]
fn explicit_identifier_selects_lookup() {
    let resolver = AlbumArtResolver::new();
    let m = meta(Some("rel-1"));
    match resolver.begin(&m) {
        BeginStep::Lookup(id) => assert_eq!(id, "rel-1"),
        _ => panic!("expected the identifier lookup"),
    }
}

#[test]
fn scenario_front_cover_confirmed() {
    let mut resolver = AlbumArtResolver::new();
    let m = meta(Some("rel-1"));
    assert!(matches!(resolver.begin(&m), BeginStep::Lookup(_)));
    let resp = Some(ReleaseLookup {
        release_id: "rel-1".to_string(),
        release_group_id: "rg-1".to_string(),
        front: true,
    });
    let rec = match resolver.on_lookup_response(&m, resp) {
        ResolveStep::Probe(rec) => rec,
        ResolveStep::Queue(_) => panic!("expected a resolved record"),
    };
    assert_eq!(rec.id, "rel-1");
    assert!(matches!(rec.kind, RecordKind::Release));
    let url = archive_url(&rec);
    assert_eq!(url, "https://coverartarchive.org/release/rel-1/front-250");
    match resolver.on_probe_response(&m, &rec, true) {
        ProbeStep::Url(u) => assert_eq!(u, url),
        ProbeStep::Queue(_) => panic!("expected the URL"),
    }
    // The cache now holds the release: a second resolution probes at
    // once instead of looking up or searching.
    match resolver.begin(&m) {
        BeginStep::Probe(cached) => {
            assert_eq!(cached.id, "rel-1");
            assert!(matches!(cached.kind, RecordKind::Release));
        }
        _ => panic!("expected a cache hit"),
    }
}

#[test]
fn scenario_no_front_cover_falls_back_to_group_and_queues() {
    let mut resolver = AlbumArtResolver::new();
    let m = meta(Some("rel-1"));
    assert!(matches!(resolver.begin(&m), BeginStep::Lookup(_)));
    let resp = Some(ReleaseLookup {
        release_id: "rel-1".to_string(),
        release_group_id: "rg-1".to_string(),
        front: false,
    });
    let rec = match resolver.on_lookup_response(&m, resp) {
        ResolveStep::Probe(rec) => rec,
        ResolveStep::Queue(_) => panic!("expected a resolved record"),
    };
    assert_eq!(rec.id, "rg-1");
    assert!(matches!(rec.kind, RecordKind::ReleaseGroup));
    match resolver.on_probe_response(&m, &rec, false) {
        ProbeStep::Queue(p) => {
            assert!(matches!(p.reason, QueueReason::MissingArchiveArt));
            assert_eq!(p.mbid.as_deref(), Some("rel-1"));
            assert_eq!(p.key, "rel-1");
        }
        ProbeStep::Url(_) => panic!("expected a pending entry"),
    }
    // The possibly-stale mapping is kept even though the probe failed.
    match resolver.begin(&m) {
        BeginStep::Probe(cached) => {
            assert_eq!(cached.id, "rg-1");
            assert!(matches!(cached.kind, RecordKind::ReleaseGroup));
        }
        _ => panic!("expected a cache hit"),
    }
}

#[test]
fn scenario_search_finds_nothing_and_queues() {
    let mut resolver = AlbumArtResolver::new();
    let m = meta(None);
    match resolver.begin(&m) {
        BeginStep::Search(a, b) => {
            assert_eq!(a, "Artist");
            assert_eq!(b, "Album");
        }
        _ => panic!("expected the search fallback"),
    }
    match resolver.on_search_response(&m, SearchOutcome::Empty) {
        Ok(ResolveStep::Queue(p)) => {
            assert!(matches!(p.reason, QueueReason::NoLookupMatch));
            assert!(p.mbid.is_none());
            assert_eq!(p.key, "nombid_Artist_Title");
        }
        _ => panic!("expected a pending entry"),
    }
    // No cache entry was created: a new resolution searches again.
    assert!(matches!(resolver.begin(&m), BeginStep::Search(_, _)));
}

#[test]
fn search_match_is_cached_as_release_group() {
    let mut resolver = AlbumArtResolver::new();
    let m = meta(None);
    assert!(matches!(resolver.begin(&m), BeginStep::Search(_, _)));
    let rec = match resolver.on_search_response(&m, SearchOutcome::Found("rg-7".to_string())) {
        Ok(ResolveStep::Probe(rec)) => rec,
        _ => panic!("expected a resolved record"),
    };
    assert_eq!(rec.id, "rg-7");
    assert!(matches!(rec.kind, RecordKind::ReleaseGroup));
    match resolver.begin(&m) {
        BeginStep::Probe(cached) => assert_eq!(cached.id, "rg-7"),
        _ => panic!("expected a cache hit"),
    }
}

#[test]
fn unreachable_lookup_queues_without_error() {
    let mut resolver = AlbumArtResolver::new();
    let m = meta(Some("rel-1"));
    match resolver.on_lookup_response(&m, None) {
        ResolveStep::Queue(p) => {
            assert!(matches!(p.reason, QueueReason::NoLookupMatch));
            assert!(p.mbid.is_none());
        }
        ResolveStep::Probe(_) => panic!("expected a pending entry"),
    }
}

#[test]
fn unavailable_search_queues_without_error() {
    let mut resolver = AlbumArtResolver::new();
    let m = meta(None);
    match resolver.on_search_response(&m, SearchOutcome::Unavailable) {
        Ok(ResolveStep::Queue(p)) => assert!(matches!(p.reason, QueueReason::NoLookupMatch)),
        _ => panic!("expected a pending entry"),
    }
}

#[test]
fn malformed_search_is_a_recoverable_error() {
    let mut resolver = AlbumArtResolver::new();
    let m = meta(None);
    match resolver.on_search_response(&m, SearchOutcome::Malformed) {
        Err(ResolveError::MalformedSearchResponse) => {}
        _ => panic!("expected the malformed-response error"),
    }
    // The failed call left the cache unchanged.
    assert!(matches!(resolver.begin(&m), BeginStep::Search(_, _)));
}
