//! Character-level string helpers shared by the rest of the library.

use vstd::prelude::*;

verus! {

/// Appends one character to a `String` (`String::push`).
#[verifier::external_body]
pub(crate) fn push_char(s: &mut String, c: char)
    ensures
        final(s)@ == old(s)@.push(c),
{
    s.push(c);
}

/// The characters of a string slice, in order.
pub fn chars_of(s: &str) -> (r: Vec<char>)
    ensures
        r@ == s@,
{
    let mut v: Vec<char> = Vec::new();
    for c in it: s.chars()
        invariant
            v@ == it.seq().take(it.index() as int),
    {
        v.push(c);
    }
    v
}

/// Builds a `String` from a sequence of characters.
pub fn string_from_chars(cs: &Vec<char>) -> (r: String)
    ensures
        r@ == cs@,
{
    let mut s = String::new();
    let mut i: usize = 0;
    while i < cs.len()
        invariant
            i <= cs.len(),
            s@ == cs@.take(i as int),
        decreases cs.len() - i,
    {
        push_char(&mut s, cs[i]);
        assert(cs@.take(i as int).push(cs@[i as int]) =~= cs@.take(i + 1));
        i += 1;
    }
    assert(cs@.take(cs.len() as int) =~= cs@);
    s
}

pub open spec fn is_ascii_upper(c: char) -> bool {
    'A' <= c && c <= 'Z'
}

pub open spec fn ascii_lower_char(c: char) -> char {
    if is_ascii_upper(c) { ((c as u32) + 32) as char } else { c }
}

pub fn to_ascii_lower_char(c: char) -> (r: char)
    ensures
        r == ascii_lower_char(c),
{
    if 'A' <= c && c <= 'Z' {
        ((c as u8) + 32) as char
    } else {
        c
    }
}


/// Lowercases ASCII letters, leaving every other character as it is.
pub open spec fn ascii_lower(s: Seq<char>) -> Seq<char> {
    s.map_values(|c: char| ascii_lower_char(c))
}

/// `to_ascii_lowercase` over a character sequence.
pub fn ascii_lowercase(v: &Vec<char>) -> (r: Vec<char>)
    ensures
        r@ == ascii_lower(v@),
{
    let mut out: Vec<char> = Vec::new();
    let mut i: usize = 0;
    while i < v.len()
        invariant
            i <= v.len(),
            out@ == ascii_lower(v@.take(i as int)),
        decreases v.len() - i,
    {
        let c = to_ascii_lower_char(v[i]);
        out.push(c);
        i += 1;
        assert(out@ =~= ascii_lower(v@.take(i as int)));
    }
    assert(v@.take(v.len() as int) =~= v@);
    out
}

/// Unicode `White_Space` (what `char::is_whitespace` tests).
pub open spec fn is_unicode_whitespace(c: char) -> bool {
    ||| ('\u{9}' <= c && c <= '\u{d}')
    ||| c == ' '
    ||| c == '\u{85}'
    ||| c == '\u{a0}'
    ||| c == '\u{1680}'
    ||| ('\u{2000}' <= c && c <= '\u{200a}')
    ||| c == '\u{2028}'
    ||| c == '\u{2029}'
    ||| c == '\u{202f}'
    ||| c == '\u{205f}'
    ||| c == '\u{3000}'
}

pub fn is_whitespace(c: char) -> (r: bool)
    ensures
        r == is_unicode_whitespace(c),
{
    ('\u{9}' <= c && c <= '\u{d}') || c == ' ' || c == '\u{85}' || c == '\u{a0}' || c
        == '\u{1680}' || ('\u{2000}' <= c && c <= '\u{200a}') || c == '\u{2028}' || c
        == '\u{2029}' || c == '\u{202f}' || c == '\u{205f}' || c == '\u{3000}'
}

/// Which characters a trim removes.
#[derive(Clone, Copy, PartialEq, Eq, Debug)]
pub enum TrimSet {
    /// Unicode whitespace, as `str::trim`.
    Whitespace,
    /// One given character, as `str::trim_matches(ch)`.
    Char(char),
}

pub open spec fn trimmed_by(t: TrimSet, c: char) -> bool {
    match t {
        TrimSet::Whitespace => is_unicode_whitespace(c),
        TrimSet::Char(x) => c == x,
    }
}

pub open spec fn trim_start(s: Seq<char>, t: TrimSet) -> Seq<char>
    decreases s.len(),
{
    if s.len() > 0 && trimmed_by(t, s[0]) {
        trim_start(s.drop_first(), t)
    } else {
        s
    }
}

pub open spec fn trim_end(s: Seq<char>, t: TrimSet) -> Seq<char>
    decreases s.len(),
{
    if s.len() > 0 && trimmed_by(t, s.last()) {
        trim_end(s.drop_last(), t)
    } else {
        s
    }
}

/// Both ends stripped of the characters of `t`.
pub open spec fn trim(s: Seq<char>, t: TrimSet) -> Seq<char> {
    trim_end(trim_start(s, t), t)
}

proof fn lemma_trim_start_skip(s: Seq<char>, t: TrimSet, i: int)
    requires
        0 <= i <= s.len(),
        forall|k: int| 0 <= k < i ==> trimmed_by(t, #[trigger] s[k]),
    ensures
        trim_start(s, t) == trim_start(s.skip(i), t),
    decreases i,
{
    if i > 0 {
        assert(s.drop_first().skip(i - 1) =~= s.skip(i));
        lemma_trim_start_skip(s.drop_first(), t, i - 1);
    } else {
        assert(s.skip(0) =~= s);
    }
}

proof fn lemma_trim_end_take(s: Seq<char>, t: TrimSet, j: int)
    requires
        0 <= j <= s.len(),
        forall|k: int| j <= k < s.len() ==> trimmed_by(t, #[trigger] s[k]),
    ensures
        trim_end(s, t) == trim_end(s.take(j), t),
    decreases s.len() - j,
{
    if j < s.len() {
        assert(s.drop_last().take(j) =~= s.take(j));
        lemma_trim_end_take(s.drop_last(), t, j);
    } else {
        assert(s.take(j) =~= s);
    }
}

/// What `trim_start` leaves does not begin with a trimmed character.
proof fn lemma_trim_start_first(s: Seq<char>, t: TrimSet)
    ensures
        trim_start(s, t).len() > 0 ==> !trimmed_by(t, trim_start(s, t)[0]),
    decreases s.len(),
{
    if s.len() > 0 && trimmed_by(t, s[0]) {
        lemma_trim_start_first(s.drop_first(), t);
    }
}

/// What `trim_end` leaves is a prefix of its input that does not end with a
/// trimmed character.
proof fn lemma_trim_end_prefix(s: Seq<char>, t: TrimSet)
    ensures
        trim_end(s, t).len() <= s.len(),
        trim_end(s, t) == s.take(trim_end(s, t).len() as int),
        trim_end(s, t).len() > 0 ==> !trimmed_by(t, trim_end(s, t).last()),
    decreases s.len(),
{
    if s.len() > 0 && trimmed_by(t, s.last()) {
        lemma_trim_end_prefix(s.drop_last(), t);
        let r = trim_end(s.drop_last(), t);
        assert(s.drop_last().take(r.len() as int) =~= s.take(r.len() as int));
    } else {
        assert(s.take(s.len() as int) =~= s);
    }
}

/// Trimming twice trims no more than trimming once.
pub proof fn lemma_trim_idempotent(s: Seq<char>, t: TrimSet)
    ensures
        trim(trim(s, t), t) == trim(s, t),
{
    let u = trim_start(s, t);
    let v = trim_end(u, t);
    lemma_trim_start_first(s, t);
    lemma_trim_end_prefix(u, t);
    if v.len() > 0 {
        assert(v[0] == u[0]);
    }
    assert(trim_start(v, t) == v);
    assert(trim_end(v, t) == v);
}

/// ASCII lowercasing maps whitespace to whitespace and nothing else to it.
proof fn lemma_lower_char_whitespace(c: char)
    ensures
        is_unicode_whitespace(ascii_lower_char(c)) == is_unicode_whitespace(c),
{
}

/// `trim_start` on whitespace commutes with ASCII lowercasing.
proof fn lemma_trim_start_lower(s: Seq<char>)
    ensures
        trim_start(ascii_lower(s), TrimSet::Whitespace) == ascii_lower(trim_start(s, TrimSet::Whitespace)),
    decreases s.len(),
{
    if s.len() > 0 {
        lemma_lower_char_whitespace(s[0]);
        assert(ascii_lower(s)[0] == ascii_lower_char(s[0]));
        assert(ascii_lower(s).drop_first() =~= ascii_lower(s.drop_first()));
        lemma_trim_start_lower(s.drop_first());
    }
}

/// `trim_end` on whitespace commutes with ASCII lowercasing.
proof fn lemma_trim_end_lower(s: Seq<char>)
    ensures
        trim_end(ascii_lower(s), TrimSet::Whitespace) == ascii_lower(trim_end(s, TrimSet::Whitespace)),
    decreases s.len(),
{
    if s.len() > 0 {
        lemma_lower_char_whitespace(s.last());
        assert(ascii_lower(s).last() == ascii_lower_char(s.last()));
        assert(ascii_lower(s).drop_last() =~= ascii_lower(s.drop_last()));
        lemma_trim_end_lower(s.drop_last());
    }
}

/// Trimming whitespace and ASCII-lowercasing can be done in either order.
pub proof fn lemma_trim_lower_commute(s: Seq<char>)
    ensures
        trim(ascii_lower(s), TrimSet::Whitespace) == ascii_lower(trim(s, TrimSet::Whitespace)),
{
    lemma_trim_start_lower(s);
    lemma_trim_end_lower(trim_start(s, TrimSet::Whitespace));
}

/// Lowercasing twice is lowercasing once.
pub proof fn lemma_ascii_lower_idempotent(s: Seq<char>)
    ensures
        ascii_lower(ascii_lower(s)) == ascii_lower(s),
{
    assert(ascii_lower(ascii_lower(s)) =~= ascii_lower(s));
}

pub fn is_trimmed(t: TrimSet, c: char) -> (r: bool)
    ensures
        r == trimmed_by(t, c),
{
    match t {
        TrimSet::Whitespace => is_whitespace(c),
        TrimSet::Char(x) => c == x,
    }
}

/// A copy of `v[from..to]`.
pub fn slice_chars(v: &Vec<char>, from: usize, to: usize) -> (r: Vec<char>)
    requires
        from <= to <= v.len(),
    ensures
        r@ == v@.subrange(from as int, to as int),
{
    let mut out: Vec<char> = Vec::new();
    let mut i = from;
    while i < to
        invariant
            from <= i <= to <= v.len(),
            out@ == v@.subrange(from as int, i as int),
        decreases to - i,
    {
        out.push(v[i]);
        i += 1;
        assert(out@ =~= v@.subrange(from as int, i as int));
    }
    out
}

/// `v` with the characters of `t` stripped from both ends.
pub fn trim_chars(v: &Vec<char>, t: TrimSet) -> (r: Vec<char>)
    ensures
        r@ == trim(v@, t),
{
    let n = v.len();
    let mut i: usize = 0;
    while i < n && is_trimmed(t, v[i])
        invariant
            i <= n == v.len(),
            forall|k: int| 0 <= k < i ==> trimmed_by(t, #[trigger] v@[k]),
        decreases n - i,
    {
        i += 1;
    }
    proof {
        lemma_trim_start_skip(v@, t, i as int);
        assert(trim_start(v@.skip(i as int), t) == v@.skip(i as int));
    }
    let ghost rest = v@.skip(i as int);
    let mut j: usize = n;
    while j > i && is_trimmed(t, v[j - 1])
        invariant
            i <= j <= n == v.len(),
            rest == v@.skip(i as int),
            forall|k: int| j <= k < n ==> trimmed_by(t, #[trigger] v@[k]),
        decreases j,
    {
        j -= 1;
    }
    proof {
        assert forall|k: int| (j - i) <= k < rest.len() implies trimmed_by(t, #[trigger] rest[k]) by {
            assert(rest[k] == v@[k + i]);
        }
        lemma_trim_end_take(rest, t, j - i);
        let kept = rest.take(j - i);
        if kept.len() > 0 {
            assert(kept.last() == v@[j - 1]);
        }
        assert(trim_end(kept, t) == kept);
        assert(kept =~= v@.subrange(i as int, j as int));
    }
    slice_chars(v, i, j)
}

/// `n` occurs in `h` starting at position `i`.
pub open spec fn occurs_at(h: Seq<char>, n: Seq<char>, i: int) -> bool {
    0 <= i && i + n.len() <= h.len() && h.subrange(i, i + n.len()) == n
}

/// `n` is a substring of `h` (`str::contains`).
pub open spec fn has_substring(h: Seq<char>, n: Seq<char>) -> bool {
    exists|i: int| #[trigger] occurs_at(h, n, i)
}

/// `h` begins with `n` (`str::starts_with`).
pub open spec fn has_prefix(h: Seq<char>, n: Seq<char>) -> bool {
    occurs_at(h, n, 0)
}

/// Whether `n` occurs in `h` at position `i`.
pub fn matches_at(h: &Vec<char>, n: &Vec<char>, i: usize) -> (r: bool)
    ensures
        r == occurs_at(h@, n@, i as int),
{
    if i > h.len() || n.len() > h.len() - i {
        return false;
    }
    let mut k: usize = 0;
    while k < n.len()
        invariant
            i + n.len() <= h.len(),
            k <= n.len(),
            forall|m: int| 0 <= m < k ==> h@[i + m] == n@[m],
        decreases n.len() - k,
    {
        if h[i + k] != n[k] {
            assert(h@.subrange(i as int, i + n.len())[k as int] != n@[k as int]);
            return false;
        }
        k += 1;
    }
    assert(h@.subrange(i as int, i + n.len()) =~= n@);
    true
}

/// `str::contains` for a literal needle.
pub fn contains_str(h: &Vec<char>, needle: &str) -> (r: bool)
    ensures
        r == has_substring(h@, needle@),
{
    let n = chars_of(needle);
    if n.len() > h.len() {
        assert forall|i: int| !occurs_at(h@, n@, i) by {}
        return false;
    }
    let last = h.len() - n.len();
    let mut i: usize = 0;
    loop
        invariant
            i <= last,
            last == h.len() - n.len(),
            n@ == needle@,
            forall|m: int| 0 <= m < i ==> !#[trigger] occurs_at(h@, n@, m),
        ensures
            forall|m: int| 0 <= m <= last ==> !#[trigger] occurs_at(h@, n@, m),
        decreases last - i,
    {
        if matches_at(h, &n, i) {
            return true;
        }
        if i == last {
            break;
        }
        i += 1;
    }
    assert forall|m: int| !#[trigger] occurs_at(h@, n@, m) by {
        if 0 <= m <= last {
        }
    }
    false
}

/// `str::starts_with` for a literal prefix.
pub fn starts_with_str(h: &Vec<char>, prefix: &str) -> (r: bool)
    ensures
        r == has_prefix(h@, prefix@),
{
    let n = chars_of(prefix);
    matches_at(h, &n, 0)
}

/// Whether the characters of `v` spell `s`.
pub fn eq_str(v: &Vec<char>, s: &str) -> (r: bool)
    ensures
        r == (v@ == s@),
{
    let n = chars_of(s);
    if v.len() != n.len() {
        return false;
    }
    let ok = matches_at(v, &n, 0);
    proof {
        if ok {
            assert(v@.subrange(0, n@.len() as int) =~= v@);
        } else {
            assert(v@.subrange(0, n@.len() as int) =~= v@);
        }
    }
    ok
}

} // verus!
