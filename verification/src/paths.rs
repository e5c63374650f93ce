//! Filesystem locations for grok config files and binaries, and the naming
//! scheme of per-cwd session directories.
//!
//! Paths are held as text with `/` separators (Unix semantics); reading the
//! environment and the filesystem is left to the caller, which hands the
//! results in.

use vstd::prelude::*;
use vstd::utf8::{decode_utf8, encode_utf8, is_ascii_chars, valid_utf8};

use crate::slug::{
    is_ascii_alnum, law_slug_dashes, lemma_plain_slug, lemma_slug_shape, slug_chars, slug_from_lowercase, slug_of, to_lowercase,
    unicode_lowercase,
};
use crate::text::{ascii_lower, chars_of, push_char, slice_chars, string_from_chars};
use crate::url::{
    lemma_url_decode_encode, lemma_url_decode_plain, lemma_url_encoded_bytes, url_decode,
    url_decode_bytes, url_encode, url_encoded,
};

verus! {

broadcast use vstd::utf8::group_utf8_lib;

/// Max bytes for a single directory name component (macOS APFS, Linux ext4,
/// NTFS all enforce 255 bytes).
pub const MAX_DIRNAME_BYTES: usize = 255;

/// Length of the slug part of a hashed session directory name.
pub const SLUG_MAX_CHARS: usize = 40;

// ---------------------------------------------------------------------------
// Path text
// ---------------------------------------------------------------------------

/// `base` joined with `part` as `PathBuf::push` does on Unix: an absolute
/// `part` replaces `base`; otherwise a `/` is put between them unless `base`
/// is empty or already ends in one.
pub open spec fn path_join(base: Seq<char>, part: Seq<char>) -> Seq<char> {
    if part.len() > 0 && part[0] == '/' {
        part
    } else if base.len() == 0 || base.last() == '/' {
        base + part
    } else {
        base + seq!['/'] + part
    }
}

/// Joins a path component onto a path.
pub fn join_path(base: &str, part: &str) -> (r: String)
    ensures
        r@ == path_join(base@, part@),
{
    let p = chars_of(part);
    if p.len() > 0 && p[0] == '/' {
        return String::from_str(part);
    }
    let b = chars_of(base);
    let mut out = String::from_str(base);
    if !(b.len() == 0 || b[b.len() - 1] == '/') {
        push_char(&mut out, '/');
    }
    out.append(part);
    out
}

/// The name of the last component of a path, as `Path::file_name` finds it;
/// `None` for `/`, for an empty path and for one that ends in `..`.
pub uninterp spec fn path_file_name(path: Seq<char>) -> Option<Seq<char>>;

/// `Path::file_name` (with `OsStr::to_str`, which cannot fail on a name taken
/// from a `&str`). The contract names the result by `path_file_name` and
/// states nothing of how components are split.
#[verifier::external_body]
pub(crate) fn file_name(path: &str) -> (r: Option<String>)
    ensures
        r matches Some(n) ==> path_file_name(path@) == Some(n@),
        r is None <==> path_file_name(path@) is None,
{
    std::path::Path::new(path).file_name().and_then(|n| n.to_str()).map(|n| n.to_string())
}

// ---------------------------------------------------------------------------
// Homes, auth and binaries
// ---------------------------------------------------------------------------

/// The default user grok directory: `.grok` under the (canonicalized) user
/// home, or under `.` when no home resolves.
pub fn default_grok_home(home: &str) -> (r: String)
    ensures
        r@ == path_join(home@, ".grok"@),
{
    join_path(home, ".grok")
}

/// Default Arch user directory: `.arch` under the (canonicalized) user home.
pub fn default_arch_home(home: &str) -> (r: String)
    ensures
        r@ == path_join(home@, ".arch"@),
{
    join_path(home, ".arch")
}

/// An explicit override when it is set, else the default directory.
pub open spec fn home_choice(env_override: Option<Seq<char>>, default_home: Seq<char>) -> Seq<char> {
    match env_override {
        Some(v) => v,
        None => default_home,
    }
}

/// Per-user config directory: `$GROK_HOME` or the default `~/.grok`.
pub fn grok_home(env_override: Option<&str>, default_home: &str) -> (r: String)
    ensures
        r@ == home_choice(opt_view(env_override), default_home@),
{
    choose_home(env_override, default_home)
}

/// Per-user Arch config directory: `$ARCH_HOME` or the default `~/.arch`.
pub fn arch_home(env_override: Option<&str>, default_home: &str) -> (r: String)
    ensures
        r@ == home_choice(opt_view(env_override), default_home@),
{
    choose_home(env_override, default_home)
}

fn choose_home(env_override: Option<&str>, default_home: &str) -> (r: String)
    ensures
        r@ == home_choice(opt_view(env_override), default_home@),
{
    match env_override {
        Some(v) => String::from_str(v),
        None => String::from_str(default_home),
    }
}

/// The user-global grok home only when one genuinely resolves: `Some` when
/// `$GROK_HOME` is set or a home directory is found. Unlike [`grok_home`],
/// this never falls back to a cwd-relative `.grok`, so callers that scan
/// user-global resources don't mistake a project's `.grok` tree for it.
pub fn user_grok_home(env_set: bool, home_found: bool, grok_home: &str) -> (r: Option<String>)
    ensures
        r is Some <==> (env_set || home_found),
        r matches Some(h) ==> h@ == grok_home@,
{
    if env_set || home_found {
        Some(String::from_str(grok_home))
    } else {
        None
    }
}

/// User-global Arch home when one genuinely resolves (`$ARCH_HOME` set or a
/// home directory found); never a cwd-relative `.arch`.
pub fn user_arch_home(env_set: bool, home_found: bool, arch_home: &str) -> (r: Option<String>)
    ensures
        r is Some <==> (env_set || home_found),
        r matches Some(h) ==> h@ == arch_home@,
{
    user_grok_home(env_set, home_found, arch_home)
}

/// Product primary home for Arch-owned secrets and new local state: the Arch
/// home.
pub fn product_home(arch_home: &str) -> (r: String)
    ensures
        r@ == arch_home@,
{
    String::from_str(arch_home)
}

/// The explicit auth file override: `$ARCH_AUTH_PATH`, else `$GROK_AUTH_PATH`.
pub open spec fn auth_override(arch_auth: Option<Seq<char>>, grok_auth: Option<Seq<char>>) -> Option<Seq<char>> {
    match arch_auth {
        Some(p) => Some(p),
        None => grok_auth,
    }
}

pub open spec fn opt_view(o: Option<&str>) -> Option<Seq<char>> {
    match o {
        Some(s) => Some(s@),
        None => None,
    }
}

/// Primary `auth.json` path for Arch: an explicit override, else
/// `auth.json` under the product home.
pub fn auth_json_primary_path(arch_auth: Option<&str>, grok_auth: Option<&str>, product_home: &str) -> (r: String)
    ensures
        r@ == match auth_override(opt_view(arch_auth), opt_view(grok_auth)) {
            Some(p) => p,
            None => path_join(product_home@, "auth.json"@),
        },
{
    if let Some(p) = arch_auth {
        return String::from_str(p);
    }
    if let Some(p) = grok_auth {
        return String::from_str(p);
    }
    join_path(product_home, "auth.json")
}

/// Legacy Grok auth path (`~/.grok/auth.json`) for read-only fallback;
/// `$ARCH_AUTH_LEGACY_PATH` overrides.
pub fn auth_json_legacy_path(legacy_override: Option<&str>, default_grok_home: &str) -> (r: String)
    ensures
        r@ == match opt_view(legacy_override) {
            Some(p) => p,
            None => path_join(default_grok_home@, "auth.json"@),
        },
{
    match legacy_override {
        Some(p) => String::from_str(p),
        None => join_path(default_grok_home, "auth.json"),
    }
}

/// Where the auth file of an AuthManager home lives: an explicit override
/// always wins; the default user grok home is remapped to the primary Arch
/// path; any other home keeps `{home}/auth.json`.
pub open spec fn resolved_auth_path(
    home: Seq<char>,
    arch_auth: Option<Seq<char>>,
    grok_auth: Option<Seq<char>>,
    home_is_default: bool,
    product_home: Seq<char>,
) -> Seq<char> {
    match auth_override(arch_auth, grok_auth) {
        Some(p) => p,
        None => if home_is_default {
            path_join(product_home, "auth.json"@)
        } else {
            path_join(home, "auth.json"@)
        },
    }
}

/// Resolve the auth.json path for an AuthManager home directory.
///
/// `home_is_default` tells whether `home` is the default user grok home
/// (equal as written, or after canonicalization).
pub fn resolve_auth_json_path(
    home: &str,
    arch_auth: Option<&str>,
    grok_auth: Option<&str>,
    home_is_default: bool,
    product_home: &str,
) -> (r: String)
    ensures
        r@ == resolved_auth_path(
            home@,
            opt_view(arch_auth),
            opt_view(grok_auth),
            home_is_default,
            product_home@,
        ),
{
    if let Some(p) = arch_auth {
        return String::from_str(p);
    }
    if let Some(p) = grok_auth {
        return String::from_str(p);
    }
    if home_is_default {
        auth_json_primary_path(arch_auth, grok_auth, product_home)
    } else {
        join_path(home, "auth.json")
    }
}

/// The name of the grok binary: `grok.exe` on Windows, `grok` elsewhere.
pub open spec fn grok_binary_name(windows: bool) -> Seq<char> {
    if windows {
        "grok.exe"@
    } else {
        "grok"@
    }
}

/// [`grok_application`] under an explicit home: `{home}/bin/grok`, or
/// `{home}/bin/grok.exe` when built for Windows (`windows`).
pub fn grok_application_in(home: &str, windows: bool) -> (r: String)
    ensures
        r@ == path_join(path_join(home@, "bin"@), grok_binary_name(windows)),
{
    let bin = join_path(home, "bin");
    if windows {
        join_path(bin.as_str(), "grok.exe")
    } else {
        join_path(bin.as_str(), "grok")
    }
}

/// System-wide config directory: `/etc/grok/` when built for Unix (`unix`),
/// none otherwise.
pub fn system_config_dir(unix: bool) -> (r: Option<String>)
    ensures
        unix ==> (r matches Some(p) && p@ == "/etc/grok"@),
        !unix ==> r is None,
{
    if unix {
        Some(String::from_str("/etc/grok"))
    } else {
        None
    }
}

// ---------------------------------------------------------------------------
// Session directories
// ---------------------------------------------------------------------------

/// The 32-byte BLAKE3 hash of `data`.
pub uninterp spec fn blake3_hash(data: Seq<u8>) -> Seq<u8>;

/// `blake3::hash`, with `Hash::as_bytes`: the contract names the digest by
/// `blake3_hash` and states its length (the crate's `OUT_LEN`, 32 bytes).
#[verifier::external_body]
pub(crate) fn blake3_digest(data: &[u8]) -> (r: Vec<u8>)
    ensures
        r@ == blake3_hash(data@),
        r@.len() == 32,
{
    blake3::hash(data).as_bytes().to_vec()
}

/// Lower-case hexadecimal digit for a value below 16.
pub open spec fn hex_lower_digit(d: u8) -> char {
    if d < 10 {
        (48 + d) as char
    } else {
        (87 + d) as char
    }
}

/// Lower-case hex of a byte string, two digits per byte, high nibble first
/// (what `blake3::Hash::to_hex` writes).
pub open spec fn hex_lower(bytes: Seq<u8>) -> Seq<char>
    decreases bytes.len(),
{
    if bytes.len() == 0 {
        Seq::empty()
    } else {
        seq![hex_lower_digit(bytes[0] / 16), hex_lower_digit(bytes[0] % 16)] + hex_lower(
            bytes.drop_first(),
        )
    }
}

proof fn lemma_hex_lower_shape(bytes: Seq<u8>)
    ensures
        hex_lower(bytes).len() == 2 * bytes.len(),
        forall|k: int|
            0 <= k < hex_lower(bytes).len() ==> is_ascii_alnum(#[trigger] hex_lower(bytes)[k])
                && 'a' <= hex_lower(bytes)[k] || ('0' <= hex_lower(bytes)[k] && hex_lower(bytes)[k]
                <= '9'),
    decreases bytes.len(),
{
    if bytes.len() > 0 {
        lemma_hex_lower_shape(bytes.drop_first());
        let h = seq![hex_lower_digit(bytes[0] / 16), hex_lower_digit(bytes[0] % 16)];
        let t = hex_lower(bytes.drop_first());
        assert(hex_lower(bytes) == h + t);
        assert forall|k: int| 0 <= k < hex_lower(bytes).len() implies is_ascii_alnum(
            #[trigger] hex_lower(bytes)[k],
        ) && 'a' <= hex_lower(bytes)[k] || ('0' <= hex_lower(bytes)[k] && hex_lower(bytes)[k]
            <= '9') by {
            if k >= 2 {
                assert(hex_lower(bytes)[k] == t[k - 2]);
            }
        }
    }
}

/// Lower-case hex of a byte string.
pub fn to_hex_lower(bytes: &Vec<u8>) -> (r: Vec<char>)
    ensures
        r@ == hex_lower(bytes@),
{
    let mut out: Vec<char> = Vec::new();
    let mut i: usize = bytes.len();
    while i > 0
        invariant
            i <= bytes.len(),
            out@ == hex_lower(bytes@.skip(i as int)),
        decreases i,
    {
        i -= 1;
        let b = bytes[i];
        let hi = b / 16;
        let lo = b % 16;
        let chi = if hi < 10 { ((48 + hi) as u8) as char } else { ((87 + hi) as u8) as char };
        let clo = if lo < 10 { ((48 + lo) as u8) as char } else { ((87 + lo) as u8) as char };
        let mut next: Vec<char> = Vec::new();
        next.push(chi);
        next.push(clo);
        let mut k: usize = 0;
        while k < out.len()
            invariant
                k <= out.len(),
                next@ == seq![chi, clo] + out@.take(k as int),
            decreases out.len() - k,
        {
            next.push(out[k]);
            k += 1;
            assert(next@ =~= seq![chi, clo] + out@.take(k as int));
        }
        assert(out@.take(out.len() as int) =~= out@);
        assert(bytes@.skip(i as int).drop_first() =~= bytes@.skip(i + 1));
        assert(bytes@.skip(i as int)[0] == b);
        out = next;
    }
    assert(bytes@.skip(0) =~= bytes@);
    out
}

/// The hashed name built from an already-lowercased last path component and
/// a digest: the component's slug (or `workspace` when that is empty), a dash,
/// and the first 16 hex digits of the digest.
pub open spec fn hashed_name_of(lowered_leaf: Seq<char>, digest: Seq<u8>) -> Seq<char> {
    let slug = slug_of(lowered_leaf, SLUG_MAX_CHARS as nat);
    let slug = if slug.len() == 0 {
        "workspace"@
    } else {
        slug
    };
    slug + "-"@ + first_chars(hex_lower(digest), 16)
}

/// The last component of a cwd, or `workspace` when it has none.
pub open spec fn cwd_leaf(cwd: Seq<char>) -> Seq<char> {
    match path_file_name(cwd) {
        Some(n) => n,
        None => "workspace"@,
    }
}

/// The hashed name of a long cwd: built from its lowercased last component
/// and the BLAKE3 hash of its bytes.
pub open spec fn hashed_dirname(cwd: Seq<char>) -> Seq<char> {
    hashed_name_of(unicode_lowercase(cwd_leaf(cwd)), blake3_hash(encode_utf8(cwd)))
}

/// The compact `{slug}-{hex16}` directory name from a lowercased last path
/// component and a digest.
pub fn hashed_name(lowered_leaf: &str, digest: &Vec<u8>) -> (r: String)
    ensures
        r@ == hashed_name_of(lowered_leaf@, digest@),
{
    let hex = to_hex_lower(digest);
    let n: usize = if hex.len() < 16 {
        hex.len()
    } else {
        16
    };
    let hash16 = slice_chars(&hex, 0, n);
    let slug = slug_from_lowercase(lowered_leaf, SLUG_MAX_CHARS);
    let mut out = if slug.as_str().unicode_len() == 0 {
        String::from_str("workspace")
    } else {
        slug
    };
    let ghost stem = out@;
    push_char(&mut out, '-');
    let hash_text = string_from_chars(&hash16);
    out.append(hash_text.as_str());
    proof {
        assert(out@ =~= stem + seq!['-'] + hash16@);
        reveal_strlit("-");
        if hex@.len() >= 16 {
            assert(hash16@ =~= hex@.take(16));
        } else {
            assert(hash16@ =~= hex@);
        }
    }
    out
}

/// The first `n` characters of `s` (all of `s` when it is shorter).
pub open spec fn first_chars(s: Seq<char>, n: nat) -> Seq<char> {
    if s.len() <= n {
        s
    } else {
        s.take(n as int)
    }
}

/// The session directory name of a cwd: its URL encoding when that fits in a
/// directory name component, else the compact hashed form.
pub open spec fn cwd_dirname(cwd: Seq<char>) -> Seq<char> {
    let u = url_encoded(encode_utf8(cwd));
    if u.len() <= MAX_DIRNAME_BYTES {
        u
    } else {
        hashed_dirname(cwd)
    }
}

/// Encode a CWD string into a filesystem-safe directory name component.
///
/// Short CWDs (URL-encoded form <= 255 bytes) use URL-encoding for backward
/// compatibility and human readability on disk.
///
/// Long CWDs (> 255 bytes encoded) use a compact `{slug}-{blake3_hex16}`
/// form that is always <= 57 bytes. Callers must write a `.cwd` metadata
/// file so the original CWD can be recovered.
pub fn encode_cwd_dirname(cwd: &str) -> (r: String)
    ensures
        r@ == cwd_dirname(cwd@),
        url_encoded(encode_utf8(cwd@)).len() > MAX_DIRNAME_BYTES && is_ascii_chars(cwd_leaf(cwd@)) ==> r@
            == hashed_name_of(ascii_lower(cwd_leaf(cwd@)), blake3_hash(encode_utf8(cwd@))),
        url_encoded(encode_utf8(cwd@)).len() > MAX_DIRNAME_BYTES && path_file_name(cwd@) is None ==> r@
            == "workspace-"@ + first_chars(hex_lower(blake3_hash(encode_utf8(cwd@))), 16),
        is_ascii_chars(r@),
        r@.len() <= MAX_DIRNAME_BYTES,
{
    proof {
        lemma_url_encoded_bytes(encode_utf8(cwd@));
    }
    let url_encoded = url_encode(cwd);
    if url_encoded.as_str().unicode_len() <= MAX_DIRNAME_BYTES {
        return url_encoded;
    }
    let digest = blake3_digest(cwd.as_bytes());
    let leaf = match file_name(cwd) {
        Some(n) => n,
        None => String::from_str("workspace"),
    };
    let lowered = to_lowercase(leaf.as_str());
    let out = hashed_name(lowered.as_str(), &digest);
    proof {
        lemma_hashed_dirname_shape(cwd@);
        if path_file_name(cwd@) is None {
            reveal_strlit("workspace");
            reveal_strlit("workspace-");
            reveal_strlit("-");
            assert(is_ascii_chars("workspace"@));
            assert(ascii_lower("workspace"@) =~= "workspace"@);
            lemma_plain_slug("workspace"@, SLUG_MAX_CHARS as nat);
            assert("workspace"@ + "-"@ =~= "workspace-"@);
        }
    }
    out
}

/// A hashed name is made of ASCII alphanumerics and `-`, starts with an
/// alphanumeric, and is at most 57 characters long.
pub proof fn lemma_hashed_name_shape(lowered_leaf: Seq<char>, digest: Seq<u8>)
    ensures
        slug_chars(hashed_name_of(lowered_leaf, digest)),
        is_ascii_chars(hashed_name_of(lowered_leaf, digest)),
        hashed_name_of(lowered_leaf, digest).len() <= 57,
        is_ascii_alnum(hashed_name_of(lowered_leaf, digest)[0]),
{
    reveal_strlit("workspace");
    reveal_strlit("-");
    let s0 = slug_of(lowered_leaf, SLUG_MAX_CHARS as nat);
    lemma_slug_shape(lowered_leaf, SLUG_MAX_CHARS as nat);
    let slug = if s0.len() == 0 {
        "workspace"@
    } else {
        s0
    };
    lemma_hex_lower_shape(digest);
    let hex = first_chars(hex_lower(digest), 16);
    let name = slug + "-"@ + hex;
    assert(name == hashed_name_of(lowered_leaf, digest));
    assert(slug_chars(slug));
    assert forall|k: int| 0 <= k < name.len() implies is_ascii_alnum(#[trigger] name[k]) || name[k]
        == '-' by {
        if k < slug.len() {
            assert(name[k] == slug[k]);
        } else if k == slug.len() {
        } else {
            assert(name[k] == hex[k - slug.len() - 1]);
            if hex_lower(digest).len() > 16 {
                assert(hex[k - slug.len() - 1] == hex_lower(digest)[k - slug.len() - 1]);
            }
        }
    }
    assert forall|k: int| 0 <= k < name.len() implies '\0' <= #[trigger] name[k] <= '\u{7f}' by {
        assert(is_ascii_alnum(name[k]) || name[k] == '-');
    }
    if s0.len() > 0 {
        // trimming removed the outer dashes, so the first character is alphanumeric
        law_slug_dashes(lowered_leaf, SLUG_MAX_CHARS as nat);
    }
    assert(name[0] == slug[0]);
}

/// The hashed form of a cwd has the shape of every hashed name.
pub proof fn lemma_hashed_dirname_shape(cwd: Seq<char>)
    ensures
        slug_chars(hashed_dirname(cwd)),
        is_ascii_chars(hashed_dirname(cwd)),
        hashed_dirname(cwd).len() <= 57,
        is_ascii_alnum(hashed_dirname(cwd)[0]),
{
    lemma_hashed_name_shape(unicode_lowercase(cwd_leaf(cwd)), blake3_hash(encode_utf8(cwd)));
}

/// Whether decoded text is an absolute cwd: it starts with `/`, or, when
/// built for Windows (`windows`), its second character is a drive colon.
pub open spec fn is_absolute_cwd(s: Seq<char>, windows: bool) -> bool {
    (s.len() > 0 && s[0] == '/') || (windows && s.len() > 1 && s[1] == ':')
}

/// The cwd a directory name spells when it is a URL-encoded absolute path:
/// the decoded text, provided the bytes decode to UTF-8 text that is an
/// absolute cwd.
pub open spec fn dirname_cwd(name: Seq<char>, windows: bool) -> Option<Seq<char>> {
    let bytes = url_decode_bytes(encode_utf8(name));
    if valid_utf8(bytes) && is_absolute_cwd(decode_utf8(bytes), windows) {
        Some(decode_utf8(bytes))
    } else {
        None
    }
}

/// Recover the original CWD from a sessions directory name by URL-decoding
/// it. URL-decoded absolute CWDs always start with `/` (Unix) or a drive
/// letter (Windows, `windows`); the slug-hash form never does, and for it
/// `None` tells the caller to read the `.cwd` metadata file instead.
pub fn decode_cwd_dirname(name: &str, windows: bool) -> (r: Option<String>)
    ensures
        r matches Some(s) ==> dirname_cwd(name@, windows) == Some(s@),
        r is None <==> dirname_cwd(name@, windows) is None,
{
    match url_decode(name) {
        Some(s) => {
            let cs = chars_of(s.as_str());
            if (cs.len() > 0 && cs[0] == '/') || (windows && cs.len() > 1 && cs[1] == ':') {
                Some(s)
            } else {
                None
            }
        },
        None => None,
    }
}

/// Whether a session directory needs a `.cwd` metadata file: exactly when
/// its name is not the plain URL encoding of the cwd.
pub fn writes_cwd_metadata(cwd: &str) -> (r: bool)
    ensures
        r == (cwd_dirname(cwd@) != url_encoded(encode_utf8(cwd@))),
        r == (url_encoded(encode_utf8(cwd@)).len() > MAX_DIRNAME_BYTES),
{
    let encoded = encode_cwd_dirname(cwd);
    let plain = url_encode(cwd);
    let same = encoded == plain;
    proof {
        if url_encoded(encode_utf8(cwd@)).len() > MAX_DIRNAME_BYTES {
            lemma_hashed_dirname_shape(cwd@);
        }
    }
    !same
}

/// Build the CWD-level session directory path
/// `{grok_home}/sessions/{encode_cwd_dirname(cwd)}`, without creating it.
pub fn sessions_cwd_dir(grok_home: &str, cwd: &str) -> (r: String)
    ensures
        r@ == path_join(path_join(grok_home@, "sessions"@), cwd_dirname(cwd@)),
{
    let sessions = join_path(grok_home, "sessions");
    let name = encode_cwd_dirname(cwd);
    join_path(sessions.as_str(), name.as_str())
}

/// The text of a `.cwd` metadata file, as the cwd it records.
pub fn cwd_from_metadata(contents: &str) -> (r: String)
    ensures
        r@ == crate::text::trim(contents@, crate::text::TrimSet::Whitespace),
{
    let t = crate::text::trim_chars(&chars_of(contents), crate::text::TrimSet::Whitespace);
    string_from_chars(&t)
}

// ---------------------------------------------------------------------------
// Laws
// ---------------------------------------------------------------------------

/// Every session directory name fits in one directory name component: it is
/// ASCII (so its byte length is its length) and at most 255 long.
pub proof fn law_dirname_fits(cwd: Seq<char>)
    ensures
        is_ascii_chars(cwd_dirname(cwd)),
        cwd_dirname(cwd).len() <= MAX_DIRNAME_BYTES,
{
    lemma_url_encoded_bytes(encode_utf8(cwd));
    lemma_hashed_dirname_shape(cwd);
}

/// A cwd whose URL encoding fits keeps that encoding as its directory name,
/// and an absolute such cwd is recovered from the name alone.
pub proof fn law_short_cwd_roundtrip(cwd: Seq<char>, windows: bool)
    requires
        url_encoded(encode_utf8(cwd)).len() <= MAX_DIRNAME_BYTES,
        is_absolute_cwd(cwd, windows),
    ensures
        cwd_dirname(cwd) == url_encoded(encode_utf8(cwd)),
        dirname_cwd(cwd_dirname(cwd), windows) == Some(cwd),
{
    let b = encode_utf8(cwd);
    lemma_url_encoded_bytes(b);
    lemma_url_decode_encode(b);
    assert(url_decode_bytes(encode_utf8(cwd_dirname(cwd))) == b);
}

/// A cwd whose URL encoding is too long gets the hashed name, which never
/// decodes to a path: such directories are recovered through `.cwd` files.
pub proof fn law_long_cwd_needs_metadata(cwd: Seq<char>, windows: bool)
    requires
        url_encoded(encode_utf8(cwd)).len() > MAX_DIRNAME_BYTES,
    ensures
        cwd_dirname(cwd) == hashed_dirname(cwd),
        cwd_dirname(cwd).len() <= 57,
        dirname_cwd(cwd_dirname(cwd), windows) is None,
{
    let name = hashed_dirname(cwd);
    lemma_hashed_dirname_shape(cwd);
    let bytes = encode_utf8(name);
    vstd::utf8::is_ascii_chars_encode_utf8(name);
    assert forall|k: int| 0 <= k < bytes.len() implies #[trigger] bytes[k] != 37 by {
        assert(name[k] as u8 == bytes[k]);
        assert(is_ascii_alnum(name[k]) || name[k] == '-');
    }
    lemma_url_decode_plain(bytes);
    assert(decode_utf8(bytes) == name);
    if name.len() > 1 {
        assert(is_ascii_alnum(name[1]) || name[1] == '-');
    }
}

/// The name of a long cwd ends with a dash and the first 16 hex digits of the
/// BLAKE3 hash of the whole cwd's UTF-8 bytes, whatever its last component:
/// two long cwds get names that differ in this part unless their hashes agree.
pub proof fn law_long_cwd_name_ends_with_cwd_hash(cwd: Seq<char>)
    requires
        url_encoded(encode_utf8(cwd)).len() > MAX_DIRNAME_BYTES,
    ensures
        ({
            let name = cwd_dirname(cwd);
            let h = first_chars(hex_lower(blake3_hash(encode_utf8(cwd))), 16);
            &&& name.len() > h.len()
            &&& name.subrange(name.len() - h.len(), name.len() as int) == h
            &&& name[name.len() - h.len() - 1] == '-'
        }),
{
    reveal_strlit("workspace");
    reveal_strlit("-");
    let name = cwd_dirname(cwd);
    let h = first_chars(hex_lower(blake3_hash(encode_utf8(cwd))), 16);
    let s0 = slug_of(unicode_lowercase(cwd_leaf(cwd)), SLUG_MAX_CHARS as nat);
    let slug = if s0.len() == 0 {
        "workspace"@
    } else {
        s0
    };
    assert(name == slug + "-"@ + h);
    assert(name.subrange(name.len() - h.len(), name.len() as int) =~= h);
    assert(name[slug.len() as int] == '-');
}

/// An explicit auth file override always wins; without one, a home that is not
/// the default grok home keeps its own `auth.json`, and the default one is
/// remapped to the product home.
pub proof fn law_auth_path_resolution(
    home: Seq<char>,
    arch_auth: Option<Seq<char>>,
    grok_auth: Option<Seq<char>>,
    home_is_default: bool,
    product_home: Seq<char>,
)
    ensures
        arch_auth matches Some(p) ==> resolved_auth_path(home, arch_auth, grok_auth, home_is_default, product_home) == p,
        grok_auth matches Some(p) ==> (arch_auth is None ==> resolved_auth_path(home, arch_auth, grok_auth, home_is_default, product_home) == p),
        arch_auth is None && grok_auth is None && !home_is_default ==> resolved_auth_path(home, arch_auth, grok_auth, home_is_default, product_home) == path_join(home, "auth.json"@),
        arch_auth is None && grok_auth is None && home_is_default ==> resolved_auth_path(home, arch_auth, grok_auth, home_is_default, product_home) == path_join(product_home, "auth.json"@),
{
}

/// With no overrides, the primary Arch auth file and the legacy grok one are
/// different files for every user home.
pub proof fn law_primary_and_legacy_auth_differ(home: Seq<char>)
    ensures
        path_join(path_join(home, ".arch"@), "auth.json"@) != path_join(path_join(home, ".grok"@), "auth.json"@),
{
    reveal_strlit(".arch");
    reveal_strlit(".grok");
    reveal_strlit("auth.json");
    let a = path_join(home, ".arch"@);
    let g = path_join(home, ".grok"@);
    let pre = if home.len() == 0 || home.last() == '/' {
        home
    } else {
        home + seq!['/']
    };
    assert(a == pre + ".arch"@);
    assert(g == pre + ".grok"@);
    let k: int = pre.len() as int + 1;
    assert(a[k] == 'a' && g[k] == 'g');
    let pa = path_join(a, "auth.json"@);
    let pg = path_join(g, "auth.json"@);
    assert(pa == a + seq!['/'] + "auth.json"@);
    assert(pg == g + seq!['/'] + "auth.json"@);
    assert(pa[k] == a[k] && pg[k] == g[k]);
}

} // verus!
