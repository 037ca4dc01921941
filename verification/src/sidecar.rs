use vstd::prelude::*;
use vstd::string::StrSliceExecFns;
use vstd::string::StringExecFns;

use crate::pending::{reason_code, QueuePlan};
use crate::text::{dec_of, push_char, push_decimal};
use crate::track::{opt_view, or_empty, TrackMetadata, TrackView};

verus! {

/// The lower-case hexadecimal digit for a value below sixteen.
pub open spec fn hex_digit(d: int) -> char {
    if d < 10 {
        crate::text::dec_digit(d)
    } else if d == 10 {
        'a'
    } else if d == 11 {
        'b'
    } else if d == 12 {
        'c'
    } else if d == 13 {
        'd'
    } else if d == 14 {
        'e'
    } else {
        'f'
    }
}

/// How one character appears inside a JSON string literal: quote and
/// backslash are escaped, control characters use a `\u00XX` escape,
/// everything else stands for itself.
pub open spec fn json_char_escape(c: char) -> Seq<char> {
    if c == '"' {
        seq!['\\', '"']
    } else if c == '\\' {
        seq!['\\', '\\']
    } else if (c as u32) < 32 {
        seq!['\\', 'u', '0', '0', hex_digit(c as u32 as int / 16), hex_digit(c as u32 as int % 16)]
    } else {
        seq![c]
    }
}

/// The JSON escaping of a whole character sequence.
pub open spec fn json_escaped(s: Seq<char>) -> Seq<char>
    decreases s.len(),
{
    if s.len() == 0 {
        Seq::empty()
    } else {
        json_escaped(s.drop_last()) + json_char_escape(s.last())
    }
}

/// A JSON string literal: the escaped characters between quotes.
pub open spec fn json_str(s: Seq<char>) -> Seq<char> {
    seq!['"'] + json_escaped(s) + seq!['"']
}

/// A JSON string literal, or `null` when the value is missing.
pub open spec fn json_opt_str(o: Option<Seq<char>>) -> Seq<char> {
    match o {
        Some(s) => json_str(s),
        None => "null"@,
    }
}

fn hex_digit_char(d: u32) -> (c: char)
    requires
        d < 16,
    ensures
        c == hex_digit(d as int),
{
    match d {
        0 => '0',
        1 => '1',
        2 => '2',
        3 => '3',
        4 => '4',
        5 => '5',
        6 => '6',
        7 => '7',
        8 => '8',
        9 => '9',
        10 => 'a',
        11 => 'b',
        12 => 'c',
        13 => 'd',
        14 => 'e',
        _ => 'f',
    }
}

/// Appends `s` as a JSON string literal, quotes included.
pub fn append_json_string(out: &mut String, s: &str)
    ensures
        final(out)@ == old(out)@ + json_str(s@),
{
    push_char(out, '"');
    let n: usize = s.unicode_len();
    let mut i: usize = 0;
    while i < n
        invariant
            i <= n,
            n == s@.len(),
            out@ == old(out)@ + seq!['"'] + json_escaped(s@.take(i as int)),
        decreases n - i,
    {
        let c = s.get_char(i);
        let u = c as u32;
        if c == '"' {
            push_char(out, '\\');
            push_char(out, '"');
        } else if c == '\\' {
            push_char(out, '\\');
            push_char(out, '\\');
        } else if u < 32 {
            push_char(out, '\\');
            push_char(out, 'u');
            push_char(out, '0');
            push_char(out, '0');
            push_char(out, hex_digit_char(u / 16));
            push_char(out, hex_digit_char(u % 16));
        } else {
            push_char(out, c);
        }
        proof {
            assert(s@.take(i + 1 as int).drop_last() =~= s@.take(i as int));
            assert(s@.take(i + 1 as int).last() == s@[i as int]);
            assert(out@ =~= old(out)@ + seq!['"'] + (json_escaped(s@.take(i as int))
                + json_char_escape(s@[i as int])));
        }
        i = i + 1;
    }
    push_char(out, '"');
    proof {
        assert(s@.take(n as int) =~= s@);
        assert(out@ =~= old(out)@ + json_str(s@));
    }
}

/// The track's duration in whole seconds, zero when unknown.
pub open spec fn duration_of(t: TrackView) -> u64 {
    match t.duration_secs {
        Some(d) => d,
        None => 0,
    }
}

/// The sidecar document describing one pending entry: a single JSON
/// object with the reason code, the identifier if known, the track's
/// tags (empty strings when unknown), the duration in seconds, the
/// absolute source path, and the creation timestamp.
pub open spec fn sidecar_spec(
    t: TrackView,
    reason: crate::pending::QueueReason,
    mbid: Option<Seq<char>>,
    source_path: Seq<char>,
    added_at: Seq<char>,
) -> Seq<char> {
    "{\"reason\":"@ + json_str(reason_code(reason)) + ",\"mbid\":"@ + json_opt_str(mbid)
        + ",\"artist\":"@ + json_str(or_empty(t.artist)) + ",\"album\":"@ + json_str(
        or_empty(t.album),
    ) + ",\"title\":"@ + json_str(or_empty(t.title)) + ",\"trackno\":"@ + json_str(
        or_empty(t.track_no),
    ) + ",\"date\":"@ + json_str(or_empty(t.date)) + ",\"duration_secs\":"@ + dec_of(
        duration_of(t) as int,
    ) + ",\"source_path\":"@ + json_str(source_path) + ",\"added_at\":"@ + json_str(added_at)
        + "}"@
}

fn append_opt_tag(out: &mut String, o: &Option<String>)
    ensures
        final(out)@ == old(out)@ + json_str(or_empty(opt_view(*o))),
{
    match o {
        Some(s) => append_json_string(out, s.as_str()),
        None => {
            proof {
                reveal_strlit("");
                assert(""@ =~= Seq::<char>::empty());
            }
            append_json_string(out, "");
        },
    }
}

/// Builds the sidecar document for a queued track, with the timestamp
/// supplied by the caller.
pub fn build_sidecar_at(meta: &TrackMetadata, plan: &QueuePlan, source_path: &str, added_at: &str) -> (r:
    String)
    ensures
        r@ == sidecar_spec(meta@, plan.reason, opt_view(plan.mbid), source_path@, added_at@),
{
    let mut out = String::new();
    out.append("{\"reason\":");
    append_json_string(&mut out, plan.reason.code());
    out.append(",\"mbid\":");
    match &plan.mbid {
        Some(m) => append_json_string(&mut out, m.as_str()),
        None => out.append("null"),
    }
    out.append(",\"artist\":");
    append_opt_tag(&mut out, &meta.artist);
    out.append(",\"album\":");
    append_opt_tag(&mut out, &meta.album);
    out.append(",\"title\":");
    append_opt_tag(&mut out, &meta.title);
    out.append(",\"trackno\":");
    append_opt_tag(&mut out, &meta.track_no);
    out.append(",\"date\":");
    append_opt_tag(&mut out, &meta.date);
    out.append(",\"duration_secs\":");
    let d: u64 = match meta.duration_secs {
        Some(d) => d,
        None => 0,
    };
    push_decimal(&mut out, d);
    out.append(",\"source_path\":");
    append_json_string(&mut out, source_path);
    out.append(",\"added_at\":");
    append_json_string(&mut out, added_at);
    out.append("}");
    proof {
        assert(out@ =~= sidecar_spec(
            meta@,
            plan.reason,
            opt_view(plan.mbid),
            source_path@,
            added_at@,
        ));
    }
    out
}

/// No character of the text needs escaping inside a JSON string
/// literal: no quote, no backslash, no control character.
pub open spec fn plain_json_text(s: Seq<char>) -> bool {
    forall|i: int| 0 <= i < s.len() ==> json_char_escape(#[trigger] s[i]) =~= seq![s[i]]
}

/// A plain text passes through the JSON escaping unchanged.
pub proof fn lemma_json_escape_plain(s: Seq<char>)
    requires
        plain_json_text(s),
    ensures
        json_escaped(s) == s,
    decreases s.len(),
{
    if s.len() > 0 {
        assert(forall|i: int|
            0 <= i < s.drop_last().len() ==> json_char_escape(#[trigger] s.drop_last()[i]) =~= seq![
                s.drop_last()[i],
            ]);
        lemma_json_escape_plain(s.drop_last());
        assert(json_char_escape(s.last()) =~= seq![s.last()]);
        assert(json_escaped(s) =~= s);
    } else {
        assert(json_escaped(s) =~= s);
    }
}

/// Relies on `std::time::SystemTime::now`, `chrono::DateTime::
/// from_timestamp` and `chrono::DateTime::to_rfc3339`: the moment of
/// the call rendered as a non-empty RFC 3339 timestamp, made of
/// digits and date-time punctuation only, so no character of it needs
/// escaping in JSON. A clock before the Unix epoch or outside the
/// representable range falls back to the epoch's own timestamp.
#[verifier::external_body]
fn now_rfc3339() -> (r: String)
    ensures
        r@.len() > 0,
        plain_json_text(r@),
{
    let fallback = "1970-01-01T00:00:00+00:00";
    match std::time::SystemTime::now().duration_since(std::time::UNIX_EPOCH) {
        Ok(d) => {
            match chrono::DateTime::from_timestamp(d.as_secs() as i64, d.subsec_nanos()) {
                Some(t) => t.to_rfc3339(),
                None => fallback.to_string(),
            }
        },
        Err(_) => fallback.to_string(),
    }
}

/// Builds the sidecar document for a queued track, stamped with the
/// current time. The document is exactly the one `sidecar_spec`
/// describes for some non-empty timestamp that itself needs no JSON
/// escaping.
pub fn build_sidecar(meta: &TrackMetadata, plan: &QueuePlan, source_path: &str) -> (r: String)
    ensures
        exists|ts: Seq<char>|
            ts.len() > 0 && plain_json_text(ts) && r@ == sidecar_spec(
                meta@,
                plan.reason,
                opt_view(plan.mbid),
                source_path@,
                ts,
            ),
{
    let added_at = now_rfc3339();
    let r = build_sidecar_at(meta, plan, source_path, added_at.as_str());
    proof {
        assert(added_at@.len() > 0 && plain_json_text(added_at@) && r@ == sidecar_spec(
            meta@,
            plan.reason,
            opt_view(plan.mbid),
            source_path@,
            added_at@,
        ));
    }
    r
}

/// Joins the music root and a track's relative path into the absolute
/// source path.
pub fn join_path(root: &str, rel: &str) -> (r: String)
    ensures
        r@ == root@ + "/"@ + rel@,
{
    let mut out = String::new();
    out.append(root);
    out.append("/");
    out.append(rel);
    proof {
        assert(out@ =~= root@ + "/"@ + rel@);
    }
    out
}

} // verus!
