use vstd::prelude::*;
use vstd::string::StringExecFns;

use crate::sanitize::{sanitize_for_filename, sanitize_spec};
use crate::track::{opt_view, or_empty, present, TrackMetadata, TrackView};

verus! {

/// Why a track was queued for later triage: a record was resolved but
/// the archive confirmed no front cover, or no record could be
/// resolved at all.
#[derive(Debug, Clone, Copy, PartialEq, Eq, Structural)]
pub enum QueueReason {
    MissingArchiveArt,
    NoLookupMatch,
}

/// The reason code written into the sidecar.
pub open spec fn reason_code(r: QueueReason) -> Seq<char> {
    match r {
        QueueReason::MissingArchiveArt => "missing_caa"@,
        QueueReason::NoLookupMatch => "no_mb_match"@,
    }
}

impl QueueReason {
    /// The reason code written into the sidecar.
    pub fn code(&self) -> (r: &'static str)
        ensures
            r@ == reason_code(*self),
    {
        match self {
            QueueReason::MissingArchiveArt => "missing_caa",
            QueueReason::NoLookupMatch => "no_mb_match",
        }
    }
}

/// The deduplication key of a pending entry: the explicit identifier
/// verbatim when one is usable, otherwise a token built from the
/// sanitized artist and title.
pub open spec fn queue_key_spec(
    mbid: Option<Seq<char>>,
    artist: Option<Seq<char>>,
    title: Option<Seq<char>>,
) -> Seq<char> {
    match mbid {
        Some(m) => m,
        None => "nombid_"@ + sanitize_spec(or_empty(artist)) + "_"@ + sanitize_spec(
            or_empty(title),
        ),
    }
}

/// The identifier recorded with a queued entry: the track's explicit
/// release identifier on the missing-cover path, nothing on the
/// no-match path.
pub open spec fn plan_mbid(t: TrackView, reason: QueueReason) -> Option<Seq<char>> {
    if reason == QueueReason::MissingArchiveArt && present(t.release_id) {
        t.release_id
    } else {
        None
    }
}

/// Everything the caller needs to queue one pending entry: the key,
/// the two file names derived from it, and what the sidecar must say.
pub struct QueuePlan {
    pub reason: QueueReason,
    pub mbid: Option<String>,
    pub key: String,
    pub image_name: String,
    pub sidecar_name: String,
}

/// The plan is exactly the one derived from the track and the reason.
pub open spec fn plan_matches(p: QueuePlan, t: TrackView, reason: QueueReason) -> bool {
    &&& p.reason == reason
    &&& opt_view(p.mbid) == plan_mbid(t, reason)
    &&& p.key@ == queue_key_spec(plan_mbid(t, reason), t.artist, t.title)
    &&& p.image_name@ == p.key@ + ".jpg"@
    &&& p.sidecar_name@ == p.key@ + ".json"@
}

/// Derives the queue plan for a track: the deduplication key and the
/// names of the image and sidecar files.
pub fn plan_queue(meta: &TrackMetadata, reason: QueueReason) -> (r: QueuePlan)
    ensures
        plan_matches(r, meta@, reason),
{
    let mbid: Option<String> = match reason {
        QueueReason::MissingArchiveArt => {
            match &meta.release_id {
                Some(s) => {
                    if !s.as_str().is_empty() {
                        Some(s.clone())
                    } else {
                        None
                    }
                },
                None => None,
            }
        },
        QueueReason::NoLookupMatch => None,
    };
    let key: String = match &mbid {
        Some(m) => m.clone(),
        None => {
            let artist: &str = match &meta.artist {
                Some(s) => s.as_str(),
                None => "",
            };
            let title: &str = match &meta.title {
                Some(s) => s.as_str(),
                None => "",
            };
            proof {
                reveal_strlit("");
                assert(""@ =~= Seq::<char>::empty());
            }
            let a = sanitize_for_filename(artist);
            let t = sanitize_for_filename(title);
            let mut k = String::from_str("nombid_");
            k.append(a.as_str());
            k.append("_");
            k.append(t.as_str());
            proof {
                assert(k@ =~= queue_key_spec(
                    plan_mbid(meta@, reason),
                    meta@.artist,
                    meta@.title,
                ));
            }
            k
        },
    };
    let mut image_name = key.clone();
    image_name.append(".jpg");
    let mut sidecar_name = key.clone();
    sidecar_name.append(".json");
    QueuePlan { reason, mbid, key, image_name, sidecar_name }
}

/// The set of keys present in the pending area after queuing under
/// `key`: unchanged when the key is already there, extended otherwise.
pub open spec fn queue_after(present_keys: Set<Seq<char>>, key: Seq<char>) -> Set<Seq<char>> {
    if present_keys.contains(key) {
        present_keys
    } else {
        present_keys.insert(key)
    }
}

/// Whether queuing under `key` performs any work (extraction attempt,
/// sidecar write) at all.
pub open spec fn queue_does_work(present_keys: Set<Seq<char>>, key: Seq<char>) -> bool {
    !present_keys.contains(key)
}

/// The executable deduplication decision: work happens only when
/// neither the image file nor the sidecar file exists yet.
pub fn should_queue(image_exists: bool, sidecar_exists: bool) -> (r: bool)
    ensures
        r == !(image_exists || sidecar_exists),
{
    !(image_exists || sidecar_exists)
}

/// Queuing is idempotent: once an entry exists for a key, queuing the
/// same key again changes nothing and performs no work.
pub proof fn lemma_queue_idempotent(present_keys: Set<Seq<char>>, key: Seq<char>)
    ensures
        !queue_does_work(queue_after(present_keys, key), key),
        queue_after(queue_after(present_keys, key), key) == queue_after(present_keys, key),
{
}

} // verus!
