use vstd::prelude::*;
use vstd::string::StringExecFns;

verus! {

/// The two kinds of archive record a cover image can be attached to:
/// a specific release (one pressing/issue) or the release group that
/// gathers all releases of the same work.
#[derive(Debug, Clone, Copy, PartialEq, Eq, Structural)]
pub enum RecordKind {
    Release,
    ReleaseGroup,
}

/// The URL path segment that the image archive uses for each kind.
pub open spec fn kind_segment(k: RecordKind) -> Seq<char> {
    match k {
        RecordKind::Release => "release"@,
        RecordKind::ReleaseGroup => "release-group"@,
    }
}

impl RecordKind {
    /// The URL path segment that the image archive uses for this kind.
    pub fn path_segment(&self) -> (r: &'static str)
        ensures
            r@ == kind_segment(*self),
    {
        match self {
            RecordKind::Release => "release",
            RecordKind::ReleaseGroup => "release-group",
        }
    }
}

/// A resolved record: the identifier of a release or release group,
/// together with which of the two it is.
pub struct ResolvedRecord {
    pub id: String,
    pub kind: RecordKind,
}

impl View for ResolvedRecord {
    type V = (Seq<char>, RecordKind);

    open spec fn view(&self) -> (Seq<char>, RecordKind) {
        (self.id@, self.kind)
    }
}

impl ResolvedRecord {
    pub fn clone_record(&self) -> (r: ResolvedRecord)
        ensures
            r@ == self@,
    {
        ResolvedRecord { id: self.id.clone(), kind: self.kind }
    }
}

/// The canonical archive URL for the front-cover thumbnail of a
/// record.
pub open spec fn archive_url_spec(rec: (Seq<char>, RecordKind)) -> Seq<char> {
    "https://coverartarchive.org/"@ + kind_segment(rec.1) + "/"@ + rec.0 + "/front-250"@
}

/// Builds the archive URL at which the front-cover thumbnail of the
/// record is expected.
pub fn archive_url(rec: &ResolvedRecord) -> (r: String)
    ensures
        r@ == archive_url_spec(rec@),
{
    let mut u = String::from_str("https://coverartarchive.org/");
    u.append(rec.kind.path_segment());
    u.append("/");
    u.append(rec.id.as_str());
    u.append("/front-250");
    proof {
        assert(u@ =~= archive_url_spec(rec@));
    }
    u
}

} // verus!
