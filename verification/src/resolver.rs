use vstd::prelude::*;
use vstd::string::StringExecFns;

use crate::cache::ResolutionCache;
use crate::pending::{plan_matches, plan_mbid, plan_queue, reason_code, QueuePlan, QueueReason};
use crate::record::{archive_url_spec, RecordKind, ResolvedRecord};
use crate::track::{cache_key_spec, present, TrackMetadata, TrackView};

verus! {

/// The URL of the identifier-based lookup at the metadata-lookup
/// service.
pub open spec fn lookup_url_spec(id: Seq<char>) -> Seq<char> {
    "https://musicbrainz.org/ws/2/release/"@ + id + "?inc=release-groups"@
}

/// Builds the URL of the identifier-based lookup.
pub fn release_lookup_url(id: &str) -> (r: String)
    ensures
        r@ == lookup_url_spec(id@),
{
    let mut u = String::from_str("https://musicbrainz.org/ws/2/release/");
    u.append(id);
    u.append("?inc=release-groups");
    proof {
        assert(u@ =~= lookup_url_spec(id@));
    }
    u
}

/// The structured query combining artist and album.
pub open spec fn search_query_spec(artist: Seq<char>, album: Seq<char>) -> Seq<char> {
    "artist:"@ + artist + " AND release:"@ + album
}

/// The URL of the search fallback, asking for a single candidate
/// release group.
pub open spec fn search_url_spec(artist: Seq<char>, album: Seq<char>) -> Seq<char> {
    "https://musicbrainz.org/ws/2/release-group/?query="@ + search_query_spec(artist, album)
        + "&limit=1"@
}

/// Builds the URL of the search fallback.
pub fn search_url(artist: &str, album: &str) -> (r: String)
    ensures
        r@ == search_url_spec(artist@, album@),
{
    let mut u = String::from_str("https://musicbrainz.org/ws/2/release-group/?query=");
    u.append("artist:");
    u.append(artist);
    u.append(" AND release:");
    u.append(album);
    u.append("&limit=1");
    proof {
        assert(u@ =~= search_url_spec(artist@, album@));
    }
    u
}

/// The interesting part of a successful identifier-based lookup
/// response, as plain values: the release identifier, its release
/// group's identifier, and whether the archive knows a front cover
/// for the release.
pub struct ReleaseLookup {
    pub release_id: String,
    pub release_group_id: String,
    pub front: bool,
}

/// The record a lookup response resolves to: the release itself when
/// its front-cover flag is set, otherwise its release group; nothing
/// when the response was missing or malformed, or when the chosen
/// identifier is empty.
pub open spec fn record_of_lookup(resp: Option<ReleaseLookup>) -> Option<(Seq<char>, RecordKind)> {
    match resp {
        None => None,
        Some(l) => if l.front {
            if l.release_id@.len() > 0 {
                Some((l.release_id@, RecordKind::Release))
            } else {
                None
            }
        } else {
            if l.release_group_id@.len() > 0 {
                Some((l.release_group_id@, RecordKind::ReleaseGroup))
            } else {
                None
            }
        },
    }
}

/// What the search fallback came back with, as plain values.
pub enum SearchOutcome {
    /// The service was unreachable or answered with a non-success
    /// status.
    Unavailable,
    /// The service answered, but the payload could not be understood.
    Malformed,
    /// The service answered with an empty candidate list.
    Empty,
    /// The identifier of the first (only) candidate release group.
    Found(String),
}

/// The record a search outcome resolves to: the first candidate as a
/// release group, or nothing.
pub open spec fn record_of_search(resp: SearchOutcome) -> Option<(Seq<char>, RecordKind)> {
    match resp {
        SearchOutcome::Found(id) => if id@.len() > 0 {
            Some((id@, RecordKind::ReleaseGroup))
        } else {
            None
        },
        _ => None,
    }
}

/// The recoverable errors of a resolution step.
pub enum ResolveError {
    /// The search fallback answered with a payload that could not be
    /// understood: a service-contract change, surfaced to the caller.
    MalformedSearchResponse,
}

/// The first decision of a resolution: give up without any remote
/// call, probe a cached record, look a release up by its explicit
/// identifier, or fall back to the search.
pub enum BeginStep {
    Absent,
    Probe(ResolvedRecord),
    Lookup(String),
    Search(String, String),
}

/// The ghost image of a first decision.
pub enum BeginStepView {
    Absent,
    Probe((Seq<char>, RecordKind)),
    Lookup(Seq<char>),
    Search(Seq<char>, Seq<char>),
}

pub open spec fn begin_step_view(r: BeginStep) -> BeginStepView {
    match r {
        BeginStep::Absent => BeginStepView::Absent,
        BeginStep::Probe(rec) => BeginStepView::Probe(rec@),
        BeginStep::Lookup(id) => BeginStepView::Lookup(id@),
        BeginStep::Search(a, b) => BeginStepView::Search(a@, b@),
    }
}

/// The first decision, over the mathematical cache: no derivable key
/// means no work at all; a cached record goes straight to the probe;
/// otherwise a usable explicit identifier selects the lookup, and the
/// search is the fallback.
pub open spec fn begin_spec(
    cache: Map<(Seq<char>, Seq<char>), (Seq<char>, RecordKind)>,
    t: TrackView,
) -> BeginStepView {
    match cache_key_spec(t) {
        None => BeginStepView::Absent,
        Some(k) => if cache.contains_key(k) {
            BeginStepView::Probe(cache[k])
        } else if present(t.release_id) {
            BeginStepView::Lookup(t.release_id->0)
        } else {
            BeginStepView::Search(k.0, k.1)
        },
    }
}

/// What follows an answer from the record resolver: probe the
/// resolved (and now cached) record, or queue the track as having no
/// match.
pub enum ResolveStep {
    Probe(ResolvedRecord),
    Queue(QueuePlan),
}

/// Resolves a front-cover URL for one track at a time: a cache of
/// earlier resolutions, consulted and filled as the decisions are
/// made.
pub struct AlbumArtResolver {
    pub cache: ResolutionCache,
}

impl View for AlbumArtResolver {
    type V = Map<(Seq<char>, Seq<char>), (Seq<char>, RecordKind)>;

    open spec fn view(&self) -> Map<(Seq<char>, Seq<char>), (Seq<char>, RecordKind)> {
        self.cache@
    }
}

impl AlbumArtResolver {
    pub open spec fn wf(&self) -> bool {
        self.cache.wf()
    }

    /// A resolver with an empty cache.
    pub fn new() -> (r: Self)
        ensures
            r.wf(),
            r@ == Map::<(Seq<char>, Seq<char>), (Seq<char>, RecordKind)>::empty(),
    {
        AlbumArtResolver { cache: ResolutionCache::new() }
    }

    /// Takes the first decision for a track. No derivable cache key
    /// means the answer is already final: nothing, with no remote call
    /// and no queuing.
    pub fn begin(&self, meta: &TrackMetadata) -> (r: BeginStep)
        requires
            self.wf(),
        ensures
            begin_step_view(r) == begin_spec(self@, meta@),
    {
        let key = match meta.cache_key() {
            Some(k) => k,
            None => {
                return BeginStep::Absent;
            },
        };
        match self.cache.lookup(&key) {
            Some(rec) => BeginStep::Probe(rec.clone_record()),
            None => {
                match &meta.release_id {
                    Some(id) => {
                        if !id.as_str().is_empty() {
                            BeginStep::Lookup(id.clone())
                        } else {
                            BeginStep::Search(key.artist, key.album)
                        }
                    },
                    None => BeginStep::Search(key.artist, key.album),
                }
            },
        }
    }

    /// Digests the identifier-based lookup's answer: a resolved record
    /// is stored in the cache (overwriting any earlier entry) and goes
    /// to the probe; anything else queues the track as unmatched,
    /// leaving the cache unchanged.
    pub fn on_lookup_response(&mut self, meta: &TrackMetadata, resp: Option<ReleaseLookup>) -> (r:
        ResolveStep)
        requires
            old(self).wf(),
            cache_key_spec(meta@) is Some,
        ensures
            final(self).wf(),
            match record_of_lookup(resp) {
                Some(recv) => {
                    &&& r matches ResolveStep::Probe(rec) && rec@ == recv
                    &&& final(self)@ == old(self)@.insert(cache_key_spec(meta@)->0, recv)
                },
                None => {
                    &&& r matches ResolveStep::Queue(p) && plan_matches(
                        p,
                        meta@,
                        QueueReason::NoLookupMatch,
                    )
                    &&& final(self)@ == old(self)@
                },
            },
    {
        let record = match resp {
            None => None,
            Some(l) => {
                if l.front {
                    if !l.release_id.as_str().is_empty() {
                        Some(ResolvedRecord { id: l.release_id, kind: RecordKind::Release })
                    } else {
                        None
                    }
                } else {
                    if !l.release_group_id.as_str().is_empty() {
                        Some(
                            ResolvedRecord {
                                id: l.release_group_id,
                                kind: RecordKind::ReleaseGroup,
                            },
                        )
                    } else {
                        None
                    }
                }
            },
        };
        self.finish_resolution(meta, record)
    }

    /// Digests the search fallback's answer: a malformed payload is a
    /// recoverable error; a first candidate is a release-group record,
    /// stored in the cache and probed; an unreachable service or an
    /// empty candidate list queues the track as unmatched.
    pub fn on_search_response(&mut self, meta: &TrackMetadata, resp: SearchOutcome) -> (r: Result<
        ResolveStep,
        ResolveError,
    >)
        requires
            old(self).wf(),
            cache_key_spec(meta@) is Some,
        ensures
            final(self).wf(),
            resp is Malformed ==> (r matches Err(ResolveError::MalformedSearchResponse)
                && final(self)@ == old(self)@),
            !(resp is Malformed) ==> match record_of_search(resp) {
                Some(recv) => {
                    &&& r matches Ok(ResolveStep::Probe(rec)) && rec@ == recv
                    &&& final(self)@ == old(self)@.insert(cache_key_spec(meta@)->0, recv)
                },
                None => {
                    &&& r matches Ok(ResolveStep::Queue(p)) && plan_matches(
                        p,
                        meta@,
                        QueueReason::NoLookupMatch,
                    )
                    &&& final(self)@ == old(self)@
                },
            },
    {
        let record = match resp {
            SearchOutcome::Malformed => {
                return Err(ResolveError::MalformedSearchResponse);
            },
            SearchOutcome::Found(id) => {
                if !id.as_str().is_empty() {
                    Some(ResolvedRecord { id, kind: RecordKind::ReleaseGroup })
                } else {
                    None
                }
            },
            _ => None,
        };
        Ok(self.finish_resolution(meta, record))
    }

    fn finish_resolution(&mut self, meta: &TrackMetadata, record: Option<ResolvedRecord>) -> (r:
        ResolveStep)
        requires
            old(self).wf(),
            cache_key_spec(meta@) is Some,
            record matches Some(rec0) ==> rec0.id@.len() > 0,
        ensures
            final(self).wf(),
            match record {
                Some(rec0) => {
                    &&& r matches ResolveStep::Probe(rec) && rec@ == rec0@
                    &&& final(self)@ == old(self)@.insert(cache_key_spec(meta@)->0, rec0@)
                },
                None => {
                    &&& r matches ResolveStep::Queue(p) && plan_matches(
                        p,
                        meta@,
                        QueueReason::NoLookupMatch,
                    )
                    &&& final(self)@ == old(self)@
                },
            },
    {
        match record {
            Some(rec) => {
                let key = match meta.cache_key() {
                    Some(k) => k,
                    None => {
                        proof {
                            assert(false);
                        }
                        unreached()
                    },
                };
                self.cache.store(key, rec.clone_record());
                ResolveStep::Probe(rec)
            },
            None => ResolveStep::Queue(plan_queue(meta, QueueReason::NoLookupMatch)),
        }
    }

    /// Digests the archive probe's answer for the record under probe:
    /// a confirmed image yields its URL; anything else queues the
    /// track as missing archive art, with the identifier re-derived
    /// from the track's own explicit-identifier tag.
    pub fn on_probe_response(&self, meta: &TrackMetadata, record: &ResolvedRecord, found: bool) -> (r:
        ProbeStep)
        ensures
            found ==> (r matches ProbeStep::Url(u) && u@ == archive_url_spec(record@)),
            !found ==> (r matches ProbeStep::Queue(p) && plan_matches(
                p,
                meta@,
                QueueReason::MissingArchiveArt,
            )),
    {
        if found {
            ProbeStep::Url(crate::record::archive_url(record))
        } else {
            ProbeStep::Queue(plan_queue(meta, QueueReason::MissingArchiveArt))
        }
    }
}

/// The final step of a resolution: the confirmed art URL, or the
/// queuing of a pending entry and no URL.
pub enum ProbeStep {
    Url(String),
    Queue(QueuePlan),
}

/// A track whose metadata yields no cache key resolves to nothing at
/// once: the first decision is final, so no lookup, search, probe or
/// queuing is ever reached.
pub proof fn lemma_no_key_no_work(
    cache: Map<(Seq<char>, Seq<char>), (Seq<char>, RecordKind)>,
    t: TrackView,
)
    requires
        cache_key_spec(t) is None,
    ensures
        begin_spec(cache, t) == BeginStepView::Absent,
{
}

/// An explicit identifier whose lookup reports no front cover falls
/// back one level: the resolution is the release group, that record
/// is what the cache then holds for the track's key, and when the
/// probe for it fails, the entry queued under reason `missing_caa`
/// names the track's own explicit identifier.
pub proof fn lemma_unconfirmed_group_art_queues(
    cache: Map<(Seq<char>, Seq<char>), (Seq<char>, RecordKind)>,
    t: TrackView,
    l: ReleaseLookup,
)
    requires
        cache_key_spec(t) is Some,
        present(t.release_id),
        !l.front,
        l.release_group_id@.len() > 0,
    ensures
        record_of_lookup(Some(l)) == Some((l.release_group_id@, RecordKind::ReleaseGroup)),
        cache.insert(cache_key_spec(t)->0, (l.release_group_id@, RecordKind::ReleaseGroup))[cache_key_spec(t)->0]
            == (l.release_group_id@, RecordKind::ReleaseGroup),
        plan_mbid(t, QueueReason::MissingArchiveArt) == t.release_id,
        reason_code(QueueReason::MissingArchiveArt) == "missing_caa"@,
{
}

/// Once a resolution has stored a record for a track's key, a second
/// resolution of the same key decides to probe at once: no
/// identifier lookup and no search is taken while the environment is
/// unchanged.
pub proof fn lemma_second_resolution_probes(
    cache: Map<(Seq<char>, Seq<char>), (Seq<char>, RecordKind)>,
    t: TrackView,
    rec: (Seq<char>, RecordKind),
)
    requires
        cache_key_spec(t) is Some,
    ensures
        begin_spec(cache.insert(cache_key_spec(t)->0, rec), t) == BeginStepView::Probe(rec),
{
}

} // verus!
