//! URL-safe slugs of directory names.

use vstd::prelude::*;

use vstd::utf8::is_ascii_chars;

use crate::text::{ascii_lower, chars_of, is_ascii_upper, slice_chars, string_from_chars, trim, trim_chars, trim_end, trim_start, TrimSet};

verus! {

/// The outcome of Unicode lowercasing (`str::to_lowercase`), which is defined
/// by the Unicode case tables.
pub uninterp spec fn unicode_lowercase(s: Seq<char>) -> Seq<char>;

/// No ASCII capital letter occurs in `s`.
pub open spec fn no_ascii_upper(s: Seq<char>) -> bool {
    forall|k: int| 0 <= k < s.len() ==> !is_ascii_upper(#[trigger] s[k])
}

/// `str::to_lowercase`: the contract names its result by `unicode_lowercase`,
/// states that ASCII text comes back ASCII-lowercased, and that no ASCII
/// capital is left in any result (each maps to its small letter, and no
/// character lowercases to an ASCII capital). Of the rest of the Unicode case
/// mapping it states nothing.
#[verifier::external_body]
pub(crate) fn to_lowercase(s: &str) -> (r: String)
    ensures
        r@ == unicode_lowercase(s@),
        is_ascii_chars(s@) ==> r@ == ascii_lower(s@),
        no_ascii_upper(r@),
{
    s.to_lowercase()
}

pub open spec fn is_ascii_alnum(c: char) -> bool {
    ||| ('0' <= c && c <= '9')
    ||| ('a' <= c && c <= 'z')
    ||| ('A' <= c && c <= 'Z')
}

/// Each run of characters that are not ASCII alphanumerics becomes one `-`.
pub open spec fn dash_runs(s: Seq<char>) -> Seq<char>
    decreases s.len(),
{
    if s.len() == 0 {
        Seq::empty()
    } else {
        let r = dash_runs(s.drop_last());
        let c = s.last();
        if is_ascii_alnum(c) {
            r.push(c)
        } else if r.len() > 0 && r.last() == '-' {
            r
        } else {
            r.push('-')
        }
    }
}

/// The slug of already-lowercased text: dash runs, outer dashes trimmed, and
/// at most `max_len` characters.
pub open spec fn slug_of(lowered: Seq<char>, max_len: nat) -> Seq<char> {
    let t = trim(dash_runs(lowered), TrimSet::Char('-'));
    if t.len() <= max_len {
        t
    } else {
        t.take(max_len as int)
    }
}

/// What a slug may hold: ASCII alphanumerics and `-`.
pub open spec fn slug_chars(s: Seq<char>) -> bool {
    forall|k: int| 0 <= k < s.len() ==> is_ascii_alnum(#[trigger] s[k]) || s[k] == '-'
}

fn is_alnum(c: char) -> (r: bool)
    ensures
        r == is_ascii_alnum(c),
{
    ('0' <= c && c <= '9') || ('a' <= c && c <= 'z') || ('A' <= c && c <= 'Z')
}

/// Generate a URL-safe slug from text that is already lowercased.
///
/// Replaces non-alphanumeric chars with `-`, collapses consecutive dashes,
/// trims outer dashes, and truncates to `max_len` characters.
pub fn slug_from_lowercase(lowered: &str, max_len: usize) -> (r: String)
    ensures
        r@ == slug_of(lowered@, max_len as nat),
{
    let input = chars_of(lowered);
    let mut result: Vec<char> = Vec::new();
    let mut prev_dash = false;
    let mut i: usize = 0;
    while i < input.len()
        invariant
            i <= input.len(),
            result@ == dash_runs(input@.take(i as int)),
            prev_dash == (result@.len() > 0 && result@.last() == '-'),
        decreases input.len() - i,
    {
        let c = input[i];
        proof {
            assert(input@.take(i + 1).drop_last() =~= input@.take(i as int));
        }
        if is_alnum(c) {
            result.push(c);
            prev_dash = false;
        } else if !prev_dash {
            result.push('-');
            prev_dash = true;
        }
        i += 1;
    }
    assert(input@.take(input.len() as int) =~= input@);
    let trimmed = trim_chars(&result, TrimSet::Char('-'));
    let kept = if trimmed.len() <= max_len {
        trimmed
    } else {
        slice_chars(&trimmed, 0, max_len)
    };
    string_from_chars(&kept)
}

/// Generate a URL-safe slug from a string.
///
/// Lowercases, replaces non-alphanumeric chars with `-`, collapses
/// consecutive dashes, and truncates to `max_len` characters.
pub fn slugify(input: &str, max_len: usize) -> (r: String)
    ensures
        r@ == slug_of(unicode_lowercase(input@), max_len as nat),
        is_ascii_chars(input@) ==> r@ == slug_of(ascii_lower(input@), max_len as nat),
        lower_slug_chars(r@),
        r@.len() <= max_len,
        r@.len() > 0 ==> r@[0] != '-',
        no_double_dash(r@),
{
    let lowered = to_lowercase(input);
    proof {
        law_slug_lowercase(lowered@, max_len as nat);
        lemma_slug_shape(lowered@, max_len as nat);
        law_slug_dashes(lowered@, max_len as nat);
    }
    slug_from_lowercase(lowered.as_str(), max_len)
}

proof fn lemma_dash_runs_chars(s: Seq<char>)
    ensures
        slug_chars(dash_runs(s)),
    decreases s.len(),
{
    if s.len() > 0 {
        lemma_dash_runs_chars(s.drop_last());
    }
}

proof fn lemma_trim_keeps_chars(s: Seq<char>, t: TrimSet)
    requires
        slug_chars(s),
    ensures
        slug_chars(trim_start(s, t)),
        slug_chars(trim_end(s, t)),
    decreases s.len(),
{
    if s.len() > 0 {
        assert(slug_chars(s.drop_first()));
        assert(slug_chars(s.drop_last()));
        lemma_trim_keeps_chars(s.drop_first(), t);
        lemma_trim_keeps_chars(s.drop_last(), t);
    }
}

/// A slug holds only ASCII alphanumerics and `-`, and is at most `max_len` long.
pub proof fn lemma_slug_shape(lowered: Seq<char>, max_len: nat)
    ensures
        slug_chars(slug_of(lowered, max_len)),
        slug_of(lowered, max_len).len() <= max_len,
{
    let d = dash_runs(lowered);
    lemma_dash_runs_chars(lowered);
    lemma_trim_keeps_chars(d, TrimSet::Char('-'));
    lemma_trim_keeps_chars(trim_start(d, TrimSet::Char('-')), TrimSet::Char('-'));
}

/// No two dashes stand next to each other.
pub open spec fn no_double_dash(s: Seq<char>) -> bool {
    forall|k: int| 0 <= k < s.len() - 1 ==> !(#[trigger] s[k] == '-' && s[k + 1] == '-')
}

proof fn lemma_dash_runs_single(s: Seq<char>)
    ensures
        no_double_dash(dash_runs(s)),
    decreases s.len(),
{
    if s.len() > 0 {
        lemma_dash_runs_single(s.drop_last());
        let r = dash_runs(s.drop_last());
        let d = dash_runs(s);
        assert forall|k: int| 0 <= k < d.len() - 1 implies !(#[trigger] d[k] == '-' && d[k + 1] == '-') by {
            if k + 1 < r.len() {
                assert(d[k] == r[k] && d[k + 1] == r[k + 1]);
            } else {
                assert(k == r.len() - 1);
                assert(d[k] == r.last());
            }
        }
    }
}

proof fn lemma_trim_keeps_single(s: Seq<char>, t: TrimSet)
    requires
        no_double_dash(s),
    ensures
        no_double_dash(trim_start(s, t)),
        no_double_dash(trim_end(s, t)),
    decreases s.len(),
{
    if s.len() > 0 {
        assert forall|k: int| 0 <= k < s.drop_first().len() - 1 implies !(#[trigger] s.drop_first()[k] == '-'
            && s.drop_first()[k + 1] == '-') by {
            assert(s.drop_first()[k] == s[k + 1]);
        }
        assert forall|k: int| 0 <= k < s.drop_last().len() - 1 implies !(#[trigger] s.drop_last()[k] == '-'
            && s.drop_last()[k + 1] == '-') by {
            assert(s.drop_last()[k] == s[k]);
        }
        lemma_trim_keeps_single(s.drop_first(), t);
        lemma_trim_keeps_single(s.drop_last(), t);
    }
}

proof fn lemma_trim_start_no_dash(s: Seq<char>)
    ensures
        trim_start(s, TrimSet::Char('-')).len() > 0 ==> trim_start(s, TrimSet::Char('-'))[0] != '-',
        trim_start(s, TrimSet::Char('-')).len() <= s.len(),
    decreases s.len(),
{
    if s.len() > 0 && s[0] == '-' {
        lemma_trim_start_no_dash(s.drop_first());
    }
}

proof fn lemma_trim_end_is_prefix(s: Seq<char>)
    ensures
        trim_end(s, TrimSet::Char('-')).len() <= s.len(),
        forall|k: int|
            0 <= k < trim_end(s, TrimSet::Char('-')).len() ==> #[trigger] trim_end(s, TrimSet::Char('-'))[k]
                == s[k],
    decreases s.len(),
{
    if s.len() > 0 && s.last() == '-' {
        lemma_trim_end_is_prefix(s.drop_last());
    }
}

/// As documented: a slug never starts with a dash and never holds two dashes
/// in a row (runs of other characters collapse into one dash).
pub proof fn law_slug_dashes(lowered: Seq<char>, max_len: nat)
    ensures
        slug_of(lowered, max_len).len() > 0 ==> slug_of(lowered, max_len)[0] != '-',
        no_double_dash(slug_of(lowered, max_len)),
{
    let d = dash_runs(lowered);
    let ts = trim_start(d, TrimSet::Char('-'));
    let t = trim_end(ts, TrimSet::Char('-'));
    lemma_dash_runs_single(lowered);
    lemma_trim_keeps_single(d, TrimSet::Char('-'));
    lemma_trim_keeps_single(ts, TrimSet::Char('-'));
    lemma_trim_start_no_dash(d);
    lemma_trim_end_is_prefix(ts);
    let r = slug_of(lowered, max_len);
    assert forall|k: int| 0 <= k < r.len() - 1 implies !(#[trigger] r[k] == '-' && r[k + 1] == '-') by {
        assert(r[k] == t[k] && r[k + 1] == t[k + 1]);
    }
    if r.len() > 0 {
        assert(r[0] == t[0] && t[0] == ts[0]);
    }
}


/// What a slug of lowercased text may hold: small ASCII letters, digits and `-`.
pub open spec fn lower_slug_chars(s: Seq<char>) -> bool {
    forall|k: int| 0 <= k < s.len() ==> ('a' <= #[trigger] s[k] <= 'z') || ('0' <= s[k] <= '9') || s[k] == '-'
}

proof fn lemma_dash_runs_lower(s: Seq<char>)
    requires
        no_ascii_upper(s),
    ensures
        lower_slug_chars(dash_runs(s)),
    decreases s.len(),
{
    if s.len() > 0 {
        assert(no_ascii_upper(s.drop_last())) by {
            assert forall|k: int| 0 <= k < s.drop_last().len() implies !is_ascii_upper(#[trigger] s.drop_last()[k]) by {
                assert(s.drop_last()[k] == s[k]);
            }
        }
        assert(!is_ascii_upper(s[s.len() - 1]));
        lemma_dash_runs_lower(s.drop_last());
    }
}

proof fn lemma_trim_keeps_lower(s: Seq<char>, t: TrimSet)
    requires
        lower_slug_chars(s),
    ensures
        lower_slug_chars(trim_start(s, t)),
        lower_slug_chars(trim_end(s, t)),
    decreases s.len(),
{
    if s.len() > 0 {
        assert(lower_slug_chars(s.drop_first())) by {
            assert forall|k: int| 0 <= k < s.drop_first().len() implies #[trigger] s.drop_first()[k] == s[k + 1] by {}
        }
        assert(lower_slug_chars(s.drop_last())) by {
            assert forall|k: int| 0 <= k < s.drop_last().len() implies #[trigger] s.drop_last()[k] == s[k] by {}
        }
        lemma_trim_keeps_lower(s.drop_first(), t);
        lemma_trim_keeps_lower(s.drop_last(), t);
    }
}

/// The slug of text with no ASCII capitals holds only small ASCII letters,
/// digits and `-`: with `str::to_lowercase` before it, every slug letter is
/// lowercase.
pub proof fn law_slug_lowercase(lowered: Seq<char>, max_len: nat)
    requires
        no_ascii_upper(lowered),
    ensures
        lower_slug_chars(slug_of(lowered, max_len)),
{
    let d = dash_runs(lowered);
    lemma_dash_runs_lower(lowered);
    lemma_trim_keeps_lower(d, TrimSet::Char('-'));
    lemma_trim_keeps_lower(trim_start(d, TrimSet::Char('-')), TrimSet::Char('-'));
    let t = trim(d, TrimSet::Char('-'));
    let r = slug_of(lowered, max_len);
    assert forall|k: int| 0 <= k < r.len() implies #[trigger] r[k] == t[k] by {}
}

/// Text of at most `max_len` ASCII alphanumerics is its own slug.
pub proof fn lemma_plain_slug(s: Seq<char>, max_len: nat)
    requires
        s.len() <= max_len,
        forall|k: int| 0 <= k < s.len() ==> is_ascii_alnum(#[trigger] s[k]),
    ensures
        slug_of(s, max_len) == s,
{
    lemma_dash_runs_plain(s);
    if s.len() > 0 {
        assert(trim_start(s, TrimSet::Char('-')) == s);
        assert(trim_end(s, TrimSet::Char('-')) == s);
    }
}

proof fn lemma_dash_runs_plain(s: Seq<char>)
    requires
        forall|k: int| 0 <= k < s.len() ==> is_ascii_alnum(#[trigger] s[k]),
    ensures
        dash_runs(s) == s,
    decreases s.len(),
{
    if s.len() > 0 {
        assert forall|k: int| 0 <= k < s.drop_last().len() implies is_ascii_alnum(#[trigger] s.drop_last()[k]) by {
            assert(s.drop_last()[k] == s[k]);
        }
        lemma_dash_runs_plain(s.drop_last());
        assert(is_ascii_alnum(s[s.len() - 1]));
        assert(s.drop_last().push(s.last()) =~= s);
    }
}

} // verus!
