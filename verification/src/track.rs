use vstd::prelude::*;

verus! {

/// The metadata of the currently playing track, as plain values. All
/// tags are optional; `source_path` is the audio file's path relative
/// to the music root.
pub struct TrackMetadata {
    pub artist: Option<String>,
    pub album_artist: Option<String>,
    pub album: Option<String>,
    pub title: Option<String>,
    pub track_no: Option<String>,
    pub date: Option<String>,
    pub duration_secs: Option<u64>,
    pub release_id: Option<String>,
    pub source_path: String,
}

/// The mathematical image of a track's metadata.
pub struct TrackView {
    pub artist: Option<Seq<char>>,
    pub album_artist: Option<Seq<char>>,
    pub album: Option<Seq<char>>,
    pub title: Option<Seq<char>>,
    pub track_no: Option<Seq<char>>,
    pub date: Option<Seq<char>>,
    pub duration_secs: Option<u64>,
    pub release_id: Option<Seq<char>>,
    pub source_path: Seq<char>,
}

pub open spec fn opt_view(o: Option<String>) -> Option<Seq<char>> {
    match o {
        Some(s) => Some(s@),
        None => None,
    }
}

impl View for TrackMetadata {
    type V = TrackView;

    open spec fn view(&self) -> TrackView {
        TrackView {
            artist: opt_view(self.artist),
            album_artist: opt_view(self.album_artist),
            album: opt_view(self.album),
            title: opt_view(self.title),
            track_no: opt_view(self.track_no),
            date: opt_view(self.date),
            duration_secs: self.duration_secs,
            release_id: opt_view(self.release_id),
            source_path: self.source_path@,
        }
    }
}

/// The tag's characters, or the empty sequence when the tag is
/// missing.
pub open spec fn or_empty(o: Option<Seq<char>>) -> Seq<char> {
    match o {
        Some(s) => s,
        None => Seq::empty(),
    }
}

/// A tag counts as usable only when it is present and non-empty.
pub open spec fn present(o: Option<Seq<char>>) -> bool {
    match o {
        Some(s) => s.len() > 0,
        None => false,
    }
}

/// The artist component of the cache key: the album artist when one is
/// usable, otherwise the track artist.
pub open spec fn key_artist(t: TrackView) -> Option<Seq<char>> {
    if present(t.album_artist) {
        t.album_artist
    } else if present(t.artist) {
        t.artist
    } else {
        None
    }
}

/// The cache key derived from a track's metadata: (artist-or-album-
/// artist, album), both non-empty, or nothing when either part is
/// missing.
pub open spec fn cache_key_spec(t: TrackView) -> Option<(Seq<char>, Seq<char>)> {
    match (key_artist(t), t.album) {
        (Some(a), Some(b)) => if b.len() > 0 {
            Some((a, b))
        } else {
            None
        },
        _ => None,
    }
}

/// Both parts of a cache key are non-empty.
pub open spec fn key_wf(k: (Seq<char>, Seq<char>)) -> bool {
    k.0.len() > 0 && k.1.len() > 0
}

/// Every derivable cache key is well formed.
pub proof fn lemma_cache_key_wf(t: TrackView)
    ensures
        cache_key_spec(t) matches Some(k) ==> key_wf(k),
{
}

/// The (artist, album) pair under which resolutions for a track are
/// memoized.
pub struct CacheKey {
    pub artist: String,
    pub album: String,
}

impl View for CacheKey {
    type V = (Seq<char>, Seq<char>);

    open spec fn view(&self) -> (Seq<char>, Seq<char>) {
        (self.artist@, self.album@)
    }
}

impl CacheKey {
    pub fn clone_key(&self) -> (r: CacheKey)
        ensures
            r@ == self@,
    {
        CacheKey { artist: self.artist.clone(), album: self.album.clone() }
    }
}

impl TrackMetadata {
    /// Derives the cache key: prefers the album artist over the track
    /// artist, requires a non-empty artist and a non-empty album.
    pub fn cache_key(&self) -> (r: Option<CacheKey>)
        ensures
            match r {
                Some(k) => cache_key_spec(self@) == Some(k@),
                None => cache_key_spec(self@) is None,
            },
    {
        let mut chosen: Option<&String> = None;
        if let Some(s) = &self.album_artist {
            if !s.as_str().is_empty() {
                chosen = Some(s);
            }
        }
        if chosen.is_none() {
            if let Some(s) = &self.artist {
                if !s.as_str().is_empty() {
                    chosen = Some(s);
                }
            }
        }
        match (chosen, &self.album) {
            (Some(ar), Some(al)) => {
                if !al.as_str().is_empty() {
                    Some(CacheKey { artist: ar.clone(), album: al.clone() })
                } else {
                    None
                }
            },
            _ => None,
        }
    }
}

} // verus!
