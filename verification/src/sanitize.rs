use vstd::prelude::*;
use vstd::string::StrSliceExecFns;
use vstd::string::StringExecFns;

use crate::text::push_char;

verus! {

/// An ASCII decimal digit or ASCII letter.
pub open spec fn is_ascii_alnum(c: char) -> bool {
    (48 <= c as u32 && c as u32 <= 57) || (65 <= c as u32 && c as u32 <= 90) || (97 <= c as u32
        && c as u32 <= 122)
}

/// A character with the Unicode `White_Space` property; this is the
/// set that `char::is_whitespace` recognizes.
pub open spec fn is_space_char(c: char) -> bool {
    let u = c as u32;
    (9 <= u && u <= 13) || u == 32 || u == 133 || u == 160 || u == 5760 || (8192 <= u && u
        <= 8202) || u == 8232 || u == 8233 || u == 8239 || u == 8287 || u == 12288
}

/// A character that is safe in a file name: ASCII alphanumeric or
/// underscore.
pub open spec fn is_word_char(c: char) -> bool {
    is_ascii_alnum(c) || c == '_'
}

/// What one input character contributes to the sanitized output:
/// alphanumerics pass through, whitespace / hyphen / underscore become
/// a single underscore, everything else is dropped.
pub open spec fn char_image(c: char) -> Seq<char> {
    if is_ascii_alnum(c) {
        seq![c]
    } else if is_space_char(c) || c == '-' || c == '_' {
        seq!['_']
    } else {
        Seq::empty()
    }
}

/// The concatenation of the images of all characters of `s`.
pub open spec fn sanitize_map(s: Seq<char>) -> Seq<char>
    decreases s.len(),
{
    if s.len() == 0 {
        Seq::empty()
    } else {
        sanitize_map(s.drop_last()) + char_image(s.last())
    }
}

/// The sanitized form of `s`: the mapped characters, or the token
/// `unknown` when nothing survives the mapping.
pub open spec fn sanitize_spec(s: Seq<char>) -> Seq<char> {
    if sanitize_map(s).len() == 0 {
        "unknown"@
    } else {
        sanitize_map(s)
    }
}

fn is_space(c: char) -> (r: bool)
    ensures
        r == is_space_char(c),
{
    let u = c as u32;
    (9 <= u && u <= 13) || u == 32 || u == 133 || u == 160 || u == 5760 || (8192 <= u && u
        <= 8202) || u == 8232 || u == 8233 || u == 8239 || u == 8287 || u == 12288
}

/// Turns an arbitrary metadata string into a filesystem-safe token:
/// ASCII alphanumerics pass through, whitespace / hyphen / underscore
/// map to underscore, every other character is dropped, and an empty
/// result is replaced by `unknown`.
pub fn sanitize_for_filename(s: &str) -> (r: String)
    ensures
        r@ == sanitize_spec(s@),
{
    let n: usize = s.unicode_len();
    let mut out = String::new();
    let mut i: usize = 0;
    while i < n
        invariant
            i <= n,
            n == s@.len(),
            out@ == sanitize_map(s@.take(i as int)),
        decreases n - i,
    {
        let c = s.get_char(i);
        let u = c as u32;
        if (48 <= u && u <= 57) || (65 <= u && u <= 90) || (97 <= u && u <= 122) {
            push_char(&mut out, c);
        } else if is_space(c) || c == '-' || c == '_' {
            push_char(&mut out, '_');
        }
        proof {
            assert(s@.take(i + 1 as int).drop_last() =~= s@.take(i as int));
            assert(s@.take(i + 1 as int).last() == s@[i as int]);
            assert(out@ =~= sanitize_map(s@.take(i as int)) + char_image(s@[i as int]));
        }
        i = i + 1;
    }
    proof {
        assert(s@.take(n as int) =~= s@);
    }
    if out.unicode_len() == 0 {
        String::from_str("unknown")
    } else {
        out
    }
}

/// Every character of the mapped sequence is a word character.
proof fn lemma_map_chars(s: Seq<char>)
    ensures
        forall|i: int| 0 <= i < sanitize_map(s).len() ==> #[trigger] is_word_char(
            sanitize_map(s)[i],
        ),
    decreases s.len(),
{
    if s.len() > 0 {
        lemma_map_chars(s.drop_last());
        let pre = sanitize_map(s.drop_last());
        let img = char_image(s.last());
        assert forall|i: int| 0 <= i < sanitize_map(s).len() implies #[trigger] is_word_char(
            sanitize_map(s)[i],
        ) by {
            if i < pre.len() {
                assert(sanitize_map(s)[i] == pre[i]);
            } else {
                assert(sanitize_map(s)[i] == img[i - pre.len()]);
            }
        }
    }
}

/// Every character of a sanitized token is an ASCII alphanumeric or an
/// underscore, whatever the input was.
pub proof fn lemma_sanitize_output_chars(s: Seq<char>)
    ensures
        forall|i: int| 0 <= i < sanitize_spec(s).len() ==> #[trigger] is_word_char(
            sanitize_spec(s)[i],
        ),
{
    lemma_map_chars(s);
    if sanitize_map(s).len() == 0 {
        reveal_strlit("unknown");
        assert forall|i: int| 0 <= i < sanitize_spec(s).len() implies #[trigger] is_word_char(
            sanitize_spec(s)[i],
        ) by {
            assert(sanitize_spec(s) == "unknown"@);
        }
    }
}

/// Whitespace, hyphen and underscore each map to exactly one
/// underscore in the output.
pub proof fn lemma_separator_maps_to_underscore(c: char)
    requires
        is_space_char(c) || c == '-' || c == '_',
    ensures
        char_image(c) =~= seq!['_'],
{
}

proof fn lemma_all_symbols_map_empty(s: Seq<char>)
    requires
        forall|i: int| 0 <= i < s.len() ==> char_image(#[trigger] s[i]) =~= Seq::<char>::empty(),
    ensures
        sanitize_map(s).len() == 0,
    decreases s.len(),
{
    if s.len() > 0 {
        assert(forall|i: int|
            0 <= i < s.drop_last().len() ==> char_image(#[trigger] s.drop_last()[i]) =~= Seq::<
                char,
            >::empty());
        lemma_all_symbols_map_empty(s.drop_last());
        assert(char_image(s.last()) =~= Seq::<char>::empty());
    }
}

/// An input without any alphanumeric, whitespace, hyphen or underscore
/// character sanitizes to the token `unknown`.
pub proof fn lemma_all_symbols_gives_unknown(s: Seq<char>)
    requires
        forall|i: int| 0 <= i < s.len() ==> char_image(#[trigger] s[i]) =~= Seq::<char>::empty(),
    ensures
        sanitize_spec(s) == "unknown"@,
{
    lemma_all_symbols_map_empty(s);
}

} // verus!
