use album_art::pending::{plan_queue, should_queue, QueuePlan, QueueReason};
use album_art::record::{archive_url, RecordKind, ResolvedRecord};
use album_art::resolver::{release_lookup_url, search_url};
use album_art::sanitize::sanitize_for_filename;
use album_art::sidecar::{build_sidecar, build_sidecar_at, join_path};
use album_art::text::push_decimal;
use album_art::track::{CacheKey, TrackMetadata};
use album_art::cache::ResolutionCache;

fn meta(
    artist: Option<&str>,
    album_artist: Option<&str>,
    album: Option<&str>,
    title: Option<&str>,
    release_id: Option<&str>,
) -> TrackMetadata {
    TrackMetadata {
        artist: artist.map(|s| s.to_string()),
        album_artist: album_artist.map(|s| s.to_string()),
        album: album.map(|s| s.to_string()),
        title: title.map(|s| s.to_string()),
        track_no: Some("7".to_string()),
        date: Some("2001".to_string()),
        duration_secs: Some(215),
        release_id: release_id.map(|s| s.to_string()),
        source_path: "Artist/Album/07 - Song.flac".to_string(),
    }
}

#[test]
fn sanitize_passes_alphanumerics() {
    assert_eq!(sanitize_for_filename("Abc123"), "Abc123");
}

#[test]
fn sanitize_maps_separators_to_underscore() {
    assert_eq!(sanitize_for_filename("Hello World-9_x"), "Hello_World_9_x");
}

#[test]
fn sanitize_drops_other_characters() {
    assert_eq!(sanitize_for_filename("h\u{e9}llo!"), "hllo");
}

#[test]
fn sanitize_unicode_whitespace() {
    assert_eq!(sanitize_for_filename("a\u{2003}b\u{00a0}c"), "a_b_c");
}

#[test]
fn sanitize_empty_gives_unknown() {
    assert_eq!(sanitize_for_filename(""), "unknown");
}

#[test]
fn sanitize_all_symbols_gives_unknown() {
    assert_eq!(sanitize_for_filename("!@#$%^&*()"), "unknown");
}

#[test]
fn kind_segments_are_exact() {
    assert_eq!(RecordKind::Release.path_segment(), "release");
    assert_eq!(RecordKind::ReleaseGroup.path_segment(), "release-group");
}

#[test]
fn archive_url_release() {
    let rec = ResolvedRecord {
        id: "abc-123".to_string(),
        kind: RecordKind::Release,
    };
    assert_eq!(
        archive_url(&rec),
        "https://coverartarchive.org/release/abc-123/front-250"
    );
}

#[test]
fn archive_url_release_group() {
    let rec = ResolvedRecord {
        id: "xyz".to_string(),
        kind: RecordKind::ReleaseGroup,
    };
    assert_eq!(
        archive_url(&rec),
        "https://coverartarchive.org/release-group/xyz/front-250"
    );
}

#[test]
fn lookup_url_is_exact() {
    assert_eq!(
        release_lookup_url("some-id"),
        "https://musicbrainz.org/ws/2/release/some-id?inc=release-groups"
    );
}

#[test]
fn search_url_is_exact() {
    assert_eq!(
        search_url("Miles Davis", "Kind of Blue"),
        "https://musicbrainz.org/ws/2/release-group/?query=artist:Miles Davis AND release:Kind of Blue&limit=1"
    );
}

#[test]
fn decimal_rendering() {
    let mut s = String::new();
    push_decimal(&mut s, 0);
    assert_eq!(s, "0");
    let mut s = String::new();
    push_decimal(&mut s, 7);
    assert_eq!(s, "7");
    let mut s = String::new();
    push_decimal(&mut s, 100230);
    assert_eq!(s, "100230");
}

#[test]
fn join_path_concatenates() {
    assert_eq!(join_path("/mnt/music", "a/b.flac"), "/mnt/music/a/b.flac");
}

#[test]
fn plan_without_identifier_uses_sanitized_key() {
    let m = meta(Some("The Artist"), None, Some("Album"), Some("A Song!"), None);
    let p: QueuePlan = plan_queue(&m, QueueReason::NoLookupMatch);
    assert!(matches!(p.reason, QueueReason::NoLookupMatch));
    assert!(p.mbid.is_none());
    assert_eq!(p.key, "nombid_The_Artist_A_Song");
    assert_eq!(p.image_name, "nombid_The_Artist_A_Song.jpg");
    assert_eq!(p.sidecar_name, "nombid_The_Artist_A_Song.json");
}

#[test]
fn plan_missing_art_uses_explicit_identifier() {
    let m = meta(Some("A"), None, Some("B"), Some("T"), Some("mbid-1"));
    let p = plan_queue(&m, QueueReason::MissingArchiveArt);
    assert!(matches!(p.reason, QueueReason::MissingArchiveArt));
    assert_eq!(p.mbid.as_deref(), Some("mbid-1"));
    assert_eq!(p.key, "mbid-1");
    assert_eq!(p.image_name, "mbid-1.jpg");
    assert_eq!(p.sidecar_name, "mbid-1.json");
}

#[test]
fn plan_no_match_never_carries_identifier() {
    let m = meta(Some("A"), None, Some("B"), Some("T"), Some("mbid-1"));
    let p = plan_queue(&m, QueueReason::NoLookupMatch);
    assert!(p.mbid.is_none());
    assert_eq!(p.key, "nombid_A_T");
}

#[test]
fn plan_without_tags_uses_unknown_tokens() {
    let m = TrackMetadata {
        artist: None,
        album_artist: None,
        album: None,
        title: None,
        track_no: None,
        date: None,
        duration_secs: None,
        release_id: None,
        source_path: "x.flac".to_string(),
    };
    let p = plan_queue(&m, QueueReason::NoLookupMatch);
    assert_eq!(p.key, "nombid_unknown_unknown");
}

#[test]
fn dedup_skips_existing_entries() {
    assert!(should_queue(false, false));
    assert!(!should_queue(true, false));
    assert!(!should_queue(false, true));
    assert!(!should_queue(true, true));
}

#[test]
fn sidecar_document_is_exact() {
    let m = meta(Some("A\"B\\"), None, Some("Album"), Some("Ti\ntle"), None);
    let p = plan_queue(&m, QueueReason::NoLookupMatch);
    let doc = build_sidecar_at(&m, &p, "/mnt/music/x.flac", "2024-05-01T10:00:00+00:00");
    assert_eq!(
        doc,
        "{\"reason\":\"no_mb_match\",\"mbid\":null,\"artist\":\"A\\\"B\\\\\",\"album\":\"Album\",\"title\":\"Ti\\u000atle\",\"trackno\":\"7\",\"date\":\"2001\",\"duration_secs\":215,\"source_path\":\"/mnt/music/x.flac\",\"added_at\":\"2024-05-01T10:00:00+00:00\"}"
    );
}

#[test]
fn sidecar_missing_art_records_identifier() {
    let m = meta(Some("A"), None, Some("B"), Some("T"), Some("mbid-9"));
    let p = plan_queue(&m, QueueReason::MissingArchiveArt);
    let doc = build_sidecar_at(&m, &p, "/m/x.flac", "ts");
    assert_eq!(
        doc,
        "{\"reason\":\"missing_caa\",\"mbid\":\"mbid-9\",\"artist\":\"A\",\"album\":\"B\",\"title\":\"T\",\"trackno\":\"7\",\"date\":\"2001\",\"duration_secs\":215,\"source_path\":\"/m/x.flac\",\"added_at\":\"ts\"}"
    );
}

#[test]
fn sidecar_unknown_duration_is_zero() {
    let mut m = meta(Some("A"), None, Some("B"), Some("T"), None);
    m.duration_secs = None;
    m.track_no = None;
    m.date = None;
    let p = plan_queue(&m, QueueReason::NoLookupMatch);
    let doc = build_sidecar_at(&m, &p, "/m/x.flac", "ts");
    assert!(doc.contains("\"duration_secs\":0"));
    assert!(doc.contains("\"trackno\":\"\""));
    assert!(doc.contains("\"date\":\"\""));
}

#[test]
fn sidecar_now_stamps_a_timestamp() {
    let m = meta(Some("A"), None, Some("B"), Some("T"), None);
    let p = plan_queue(&m, QueueReason::NoLookupMatch);
    let doc = build_sidecar(&m, &p, "/m/x.flac");
    let prefix_probe = build_sidecar_at(&m, &p, "/m/x.flac", "");
    let prefix = &prefix_probe[..prefix_probe.len() - "\"}".len()];
    assert!(doc.starts_with(prefix));
    assert!(doc.ends_with("\"}"));
    assert!(doc.len() > prefix_probe.len());
}

fn key(artist: &str, album: &str) -> CacheKey {
    CacheKey {
        artist: artist.to_string(),
        album: album.to_string(),
    }
}

#[test]
fn cache_miss_on_empty() {
    let c = ResolutionCache::new();
    assert!(c.lookup(&key("A", "B")).is_none());
}

#[test]
fn cache_store_then_lookup() {
    let mut c = ResolutionCache::new();
    c.store(
        key("A", "B"),
        ResolvedRecord {
            id: "r1".to_string(),
            kind: RecordKind::Release,
        },
    );
    let rec = c.lookup(&key("A", "B")).expect("stored entry");
    assert_eq!(rec.id, "r1");
    assert!(matches!(rec.kind, RecordKind::Release));
    assert!(c.lookup(&key("A", "C")).is_none());
}

#[test]
fn cache_store_overwrites() {
    let mut c = ResolutionCache::new();
    c.store(
        key("A", "B"),
        ResolvedRecord {
            id: "r1".to_string(),
            kind: RecordKind::Release,
        },
    );
    c.store(
        key("A", "B"),
        ResolvedRecord {
            id: "rg2".to_string(),
            kind: RecordKind::ReleaseGroup,
        },
    );
    let rec = c.lookup(&key("A", "B")).expect("overwritten entry");
    assert_eq!(rec.id, "rg2");
    assert!(matches!(rec.kind, RecordKind::ReleaseGroup));
}

#[test]
fn cache_keeps_distinct_keys_apart() {
    let mut c = ResolutionCache::new();
    c.store(
        key("A", "B"),
        ResolvedRecord {
            id: "r1".to_string(),
            kind: RecordKind::Release,
        },
    );
    c.store(
        key("A", "C"),
        ResolvedRecord {
            id: "r2".to_string(),
            kind: RecordKind::Release,
        },
    );
    assert_eq!(c.lookup(&key("A", "B")).unwrap().id, "r1");
    assert_eq!(c.lookup(&key("A", "C")).unwrap().id, "r2");
}
