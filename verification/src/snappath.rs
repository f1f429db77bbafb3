//! Snapshot file-system paths derived from URLs: sanitized path segments
//! with a digest fallback once a segment or the whole path grows too long.
//!
//! Two layouts exist: the crawler's (long segments or an overlong path fall
//! back to a hashed directory) and the recorder's (an overlong segment is
//! hashed by itself, an overlong path falls back entirely).  Paths are plain
//! strings with `/` separators.
use vstd::prelude::*;
use vstd::string::{StrSliceExecFns, StringExecFns, StringSliceAdditionalSpecFns};
use crate::weburl::{parse_url, url_parts_of, UrlInfo};

verus! {

// ————————————————————————————————————————————————————————————————————————
// Digest
// ————————————————————————————————————————————————————————————————————————

/// The SHA-256 digest of a byte sequence: a function of the bytes alone.
pub uninterp spec fn sha256_of(data: Seq<u8>) -> Seq<u8>;

/// Relies on sha2::Sha256: computes the digest, which is 32 bytes long and
/// depends on the input alone.
#[verifier::external_body]
fn sha256(data: &[u8]) -> (r: Vec<u8>)
    ensures
        r@ == sha256_of(data@),
        r@.len() == 32,
{
    let mut hasher = <sha2::Sha256 as sha2::Digest>::new();
    sha2::Digest::update(&mut hasher, data);
    sha2::Digest::finalize(hasher).to_vec()
}

/// Relies on String::from_utf8: ASCII bytes decode to exactly their code
/// points.
#[verifier::external_body]
fn ascii_bytes_to_string(bytes: Vec<u8>) -> (r: String)
    requires
        forall|i: int| 0 <= i < bytes@.len() ==> bytes@[i] < 128,
    ensures
        r@.len() == bytes@.len(),
        forall|i: int| 0 <= i < bytes@.len() ==> r@[i] == bytes@[i] as char,
{
    String::from_utf8(bytes).unwrap_or_default()
}

/// The lowercase hex digit of a nibble value.
pub open spec fn hex_digit(n: u8) -> u8 {
    if n < 10 {
        (48 + n) as u8
    } else {
        (87 + n) as u8
    }
}

/// The lowercase hex rendering of a byte sequence, as characters.
pub open spec fn hex_chars(bytes: Seq<u8>) -> Seq<char> {
    Seq::new(
        bytes.len() * 2,
        |i: int|
            if i % 2 == 0 {
                hex_digit(bytes[i / 2] / 16) as char
            } else {
                hex_digit(bytes[i / 2] % 16) as char
            },
    )
}

/// The short hash folder name of a string: `h` plus the hex of the first
/// four digest bytes.
pub open spec fn short_hash_of(data: Seq<u8>) -> Seq<char> {
    seq!['h'] + hex_chars(sha256_of(data).take(4))
}

pub fn short_hash(s: &str) -> (r: String)
    ensures
        r@ == short_hash_of(s.spec_bytes()),
{
    let digest = sha256(s.as_bytes());
    let mut out: Vec<u8> = Vec::new();
    out.push(104u8);
    let mut i: usize = 0;
    while i < 4
        invariant
            i <= 4,
            digest@.len() == 32,
            digest@ == sha256_of(s.spec_bytes()),
            out@.len() == 1 + 2 * i,
            out@[0] == 104u8,
            forall|j: int| 0 <= j < out@.len() ==> #[trigger] out@[j] < 128,
            forall|j: int| 0 <= j < 2 * i
                ==> #[trigger] out@[1 + j] == if j % 2 == 0 {
                    hex_digit(digest@.take(4)[j / 2] / 16)
                } else {
                    hex_digit(digest@.take(4)[j / 2] % 16)
                },
        decreases 4 - i,
    {
        let b = digest[i];
        let hi = b / 16;
        let lo = b % 16;
        let hc: u8 = if hi < 10 {
            48 + hi
        } else {
            87 + hi
        };
        let lc: u8 = if lo < 10 {
            48 + lo
        } else {
            87 + lo
        };
        out.push(hc);
        out.push(lc);
        i = i + 1;
    }
    proof {
        assert(forall|j: int| 0 <= j < out@.len() ==> out@[j] < 128);
    }
    let r = ascii_bytes_to_string(out);
    proof {
        let hc = short_hash_of(s.spec_bytes());
        assert(hc.len() == 9);
        assert forall|k: int| 0 <= k < r@.len() implies r@[k] == hc[k] by {
            if k == 0 {
                assert(r@[0] == 104u8 as char);
                assert('h' as int == 104);
            } else {
                assert(out@[1 + (k - 1)] == if (k - 1) % 2 == 0 {
                    hex_digit(digest@.take(4)[(k - 1) / 2] / 16)
                } else {
                    hex_digit(digest@.take(4)[(k - 1) / 2] % 16)
                });
                assert(hc[k] == hex_chars(sha256_of(s.spec_bytes()).take(4))[k - 1]);
            }
        };
        assert(r@ =~= hc);
    }
    r
}

// ————————————————————————————————————————————————————————————————————————
// Sanitizing
// ————————————————————————————————————————————————————————————————————————

/// ASCII alphanumerics.
pub open spec fn is_ascii_alnum(c: char) -> bool {
    ||| '0' as int <= c as int <= '9' as int
    ||| 'a' as int <= c as int <= 'z' as int
    ||| 'A' as int <= c as int <= 'Z' as int
}

/// A sanitized character: alphanumerics and dashes stay, everything else
/// becomes an underscore.
pub open spec fn sanitize_char(c: char) -> char {
    if is_ascii_alnum(c) || c == '-' {
        c
    } else {
        '_'
    }
}

pub open spec fn sanitize_seq(s: Seq<char>) -> Seq<char> {
    s.map_values(|c: char| sanitize_char(c))
}

pub fn sanitize(s: &str) -> (r: String)
    ensures
        r@ == sanitize_seq(s@),
{
    let n = s.unicode_len();
    let mut out: Vec<u8> = Vec::new();
    let mut i: usize = 0;
    while i < n
        invariant
            i <= n,
            n == s@.len(),
            out@.len() == i as int,
            forall|j: int| 0 <= j < i ==> #[trigger] out@[j] < 128 && out@[j] as char
                == sanitize_char(s@[j]),
        decreases n - i,
    {
        let c = s.get_char(i);
        let cv = c as u32;
        let keep = (48 <= cv && cv <= 57) || (97 <= cv && cv <= 122) || (65 <= cv && cv <= 90)
            || c == '-';
        if keep {
            out.push(c as u8);
        } else {
            out.push(95u8);
        }
        i = i + 1;
    }
    let r = ascii_bytes_to_string(out);
    proof {
        assert(r@ =~= sanitize_seq(s@));
    }
    r
}

// ————————————————————————————————————————————————————————————————————————
// Path segments
// ————————————————————————————————————————————————————————————————————————

/// The character sequences of a segment list.
pub open spec fn seg_views(v: Seq<String>) -> Seq<Seq<char>> {
    v.map_values(|s: String| s@)
}

/// The position of the first slash, if any.
pub open spec fn find_slash(s: Seq<char>) -> Option<int>
    decreases s.len(),
{
    if s.len() == 0 {
        None
    } else if s[0] == '/' {
        Some(0)
    } else {
        match find_slash(s.drop_first()) {
            Some(i) => Some(i + 1),
            None => None,
        }
    }
}

proof fn lemma_find_slash_at(s: Seq<char>, i: int)
    requires
        0 <= i < s.len(),
        forall|j: int| 0 <= j < i ==> s[j] != '/',
        s[i] == '/',
    ensures
        find_slash(s) == Some(i),
    decreases i,
{
    if i > 0 {
        lemma_find_slash_at(s.drop_first(), i - 1);
    }
}

proof fn lemma_find_slash_none(s: Seq<char>)
    requires
        forall|j: int| 0 <= j < s.len() ==> s[j] != '/',
    ensures
        find_slash(s) is None,
    decreases s.len(),
{
    if s.len() > 0 {
        lemma_find_slash_none(s.drop_first());
    }
}

/// The input split on `/`: always at least one segment, and empty segments
/// around consecutive or outer slashes are kept.
pub open spec fn spec_split(s: Seq<char>) -> Seq<Seq<char>>
    decreases s.len(),
{
    match find_slash(s) {
        None => seq![s],
        Some(i) => if 0 <= i < s.len() {
            seq![s.take(i)] + spec_split(s.skip(i + 1))
        } else {
            seq![s]
        },
    }
}

pub proof fn lemma_split_nonempty(s: Seq<char>)
    ensures
        spec_split(s).len() >= 1,
    decreases s.len(),
{
}

pub fn split_slashes(s: &str) -> (r: Vec<String>)
    ensures
        seg_views(r@) == spec_split(s@),
{
    let n = s.unicode_len();
    let mut out: Vec<String> = Vec::new();
    let mut start: usize = 0;
    let mut i: usize = 0;
    proof {
        assert(s@.skip(0) =~= s@);
        assert(seg_views(out@) =~= Seq::<Seq<char>>::empty());
        assert(seg_views(out@) + spec_split(s@) =~= spec_split(s@));
    }
    while i < n
        invariant
            0 <= start <= i <= n,
            n == s@.len(),
            forall|j: int| start <= j < i ==> s@[j] != '/',
            spec_split(s@) == seg_views(out@) + spec_split(s@.skip(start as int)),
        decreases n - i,
    {
        let c = s.get_char(i);
        if c == '/' {
            let ghost prev = out@;
            let ghost tail = s@.skip(start as int);
            let seg = s.substring_char(start, i);
            out.push(seg.to_owned());
            proof {
                assert(forall|j: int| 0 <= j < i - start ==> tail[j] == s@[start + j]);
                lemma_find_slash_at(tail, i - start);
                assert(tail.take(i - start) =~= s@.subrange(start as int, i as int));
                assert(tail.skip(i - start + 1) =~= s@.skip(i + 1 as int));
                assert(seg_views(out@) =~= seg_views(prev).push(s@.subrange(start as int, i as int)));
                assert(seg_views(out@) + spec_split(s@.skip(i + 1 as int)) =~= seg_views(prev)
                    + spec_split(tail));
            }
            start = i + 1;
        }
        i = i + 1;
    }
    let ghost prev = out@;
    let ghost tail = s@.skip(start as int);
    let last = s.substring_char(start, n);
    out.push(last.to_owned());
    proof {
        assert(forall|j: int| 0 <= j < tail.len() ==> tail[j] == s@[start + j]);
        lemma_find_slash_none(tail);
        assert(tail =~= s@.subrange(start as int, n as int));
        assert(seg_views(out@) =~= seg_views(prev).push(tail));
        assert(seg_views(out@) =~= seg_views(prev) + seq![tail]);
        assert(seg_views(out@) =~= spec_split(s@));
    }
    out
}

/// Leading and trailing slashes removed.
pub open spec fn trim_slashes(s: Seq<char>) -> Seq<char>
    decreases s.len(),
{
    if s.len() > 0 && s[0] == '/' {
        trim_slashes(s.drop_first())
    } else if s.len() > 0 && s.last() == '/' {
        trim_slashes(s.drop_last())
    } else {
        s
    }
}

pub fn str_trim_slashes<'a>(s: &'a str) -> (r: &'a str)
    ensures
        r@ == trim_slashes(s@),
{
    let n = s.unicode_len();
    let mut a: usize = 0;
    let mut b: usize = n;
    proof {
        assert(s@.subrange(0, n as int) =~= s@);
    }
    while a < b && s.get_char(a) == '/'
        invariant
            0 <= a <= b <= n,
            b == n,
            n == s@.len(),
            trim_slashes(s@) == trim_slashes(s@.subrange(a as int, b as int)),
        decreases b - a,
    {
        proof {
            assert(s@.subrange(a as int, b as int).drop_first() =~= s@.subrange(
                a + 1 as int,
                b as int,
            ));
        }
        a = a + 1;
    }
    while a < b && s.get_char(b - 1) == '/'
        invariant
            0 <= a <= b <= n,
            n == s@.len(),
            trim_slashes(s@) == trim_slashes(s@.subrange(a as int, b as int)),
            a < b ==> s@[a as int] != '/',
        decreases b - a,
    {
        proof {
            assert(s@.subrange(a as int, b as int).last() == s@[b - 1 as int]);
            assert(s@.subrange(a as int, b as int).drop_last() =~= s@.subrange(
                a as int,
                b - 1 as int,
            ));
        }
        b = b - 1;
    }
    let r = s.substring_char(a, b);
    proof {
        assert(trim_slashes(s@.subrange(a as int, b as int)) == s@.subrange(a as int, b as int));
    }
    r
}


// ————————————————————————————————————————————————————————————————————————
// The builders
// ————————————————————————————————————————————————————————————————————————

/// The host part used for directory names, with a fixed fallback.
pub open spec fn spec_host(u: UrlInfo) -> Seq<char> {
    match u.host {
        Some(h) => h@,
        None => "unknown"@,
    }
}

/// The path with outer slashes trimmed, or `index` when that leaves
/// nothing.
pub open spec fn spec_effective_path(u: UrlInfo) -> Seq<char> {
    if trim_slashes(u.path@).len() == 0 {
        "index"@
    } else {
        trim_slashes(u.path@)
    }
}

/// The crawler layout's segment list: each path segment sanitized, with a
/// non-empty query sanitized and appended to the last segment.
pub open spec fn spec_crawler_segments(u: UrlInfo) -> Seq<Seq<char>> {
    match u.query {
        Some(q) => if q@.len() > 0 {
            spec_sanitized_path_segments(u).update(
                spec_sanitized_path_segments(u).len() - 1,
                spec_sanitized_path_segments(u).last() + "~q~"@ + sanitize_seq(q@),
            )
        } else {
            spec_sanitized_path_segments(u)
        },
        None => spec_sanitized_path_segments(u),
    }
}

pub open spec fn spec_sanitized_path_segments(u: UrlInfo) -> Seq<Seq<char>> {
    spec_split(spec_effective_path(u)).map_values(|g: Seq<char>| sanitize_seq(g))
}

/// The crawler layout's fold over segments: join them under the host until
/// a segment is longer than 100 characters or the path passes 240, then
/// fall back to a hashed folder under `host/long`.
pub open spec fn spec_crawler_fold(
    segs: Seq<Seq<char>>,
    k: int,
    acc: Seq<char>,
    total: int,
    host: Seq<char>,
    url_bytes: Seq<u8>,
) -> Seq<char>
    decreases segs.len() - k,
{
    if k < 0 || k >= segs.len() {
        acc
    } else if segs[k].len() > 100 || total + segs[k].len() + 1 > 240 {
        host + "/long/"@ + short_hash_of(url_bytes)
    } else {
        spec_crawler_fold(
            segs,
            k + 1,
            acc + seq!['/'] + segs[k],
            total + segs[k].len() + 1,
            host,
            url_bytes,
        )
    }
}

/// The crawler layout's directory for a URL, or `None` when the URL does
/// not parse.
pub open spec fn spec_crawler_snapshot_dir(url: Seq<char>, url_bytes: Seq<u8>) -> Option<Seq<char>> {
    match url_parts_of(url) {
        None => None,
        Some(u) => Some(
            spec_crawler_fold(
                spec_crawler_segments(u),
                0,
                spec_host(u),
                spec_host(u).len() as int,
                spec_host(u),
                url_bytes,
            ),
        ),
    }
}

pub fn hashed_fallback(host: &String, url: &str) -> (r: String)
    ensures
        r@ == host@ + "/long/"@ + short_hash_of(url.spec_bytes()),
{
    let r = host.clone().concat("/long/").concat(short_hash(url).as_str());
    proof {
        assert(r@ =~= host@ + "/long/"@ + short_hash_of(url.spec_bytes()));
    }
    r
}

/// Builds the crawler-layout directory path for a URL, including query
/// parameters; falls back to a hashed folder when the path becomes too
/// long.
pub fn build_rel_html_snapshot_dir(url: &str) -> (r: Option<String>)
    ensures
        match (r, spec_crawler_snapshot_dir(url@, url.spec_bytes())) {
            (Some(p), Some(s)) => p@ == s,
            (None, None) => true,
            _ => false,
        },
{
    let u = match parse_url(url) {
        Some(u) => u,
        None => {
            return None;
        }
    };
    let host: String = match &u.host {
        Some(h) => h.clone(),
        None => String::from_str("unknown"),
    };
    let trimmed = str_trim_slashes(u.path.as_str());
    let path: &str = if trimmed.unicode_len() == 0 {
        "index"
    } else {
        trimmed
    };
    let raw_segs = split_slashes(path);
    let mut segs: Vec<String> = Vec::new();
    let mut i: usize = 0;
    while i < raw_segs.len()
        invariant
            i <= raw_segs.len(),
            seg_views(raw_segs@) == spec_split(path@),
            segs@.len() == i as int,
            forall|j: int| 0 <= j < i
                ==> (#[trigger] segs@[j])@ == sanitize_seq(raw_segs@[j]@),
        decreases raw_segs@.len() - i,
    {
        let sg = sanitize(raw_segs[i].as_str());
        segs.push(sg);
        i = i + 1;
    }
    proof {
        assert(path@ == spec_effective_path(u));
        assert(seg_views(segs@) =~= spec_sanitized_path_segments(u)) by {
            assert forall|j: int| 0 <= j < segs@.len() implies seg_views(segs@)[j]
                == spec_sanitized_path_segments(u)[j] by {
                assert(seg_views(raw_segs@)[j] == raw_segs@[j]@);
            };
        };
        lemma_split_nonempty(path@);
    }
    match &u.query {
        Some(q) => {
            if q.unicode_len() > 0 {
                let suffix = String::from_str("~q~").concat(sanitize(q.as_str()).as_str());
                let ghost before = segs@;
                match segs.pop() {
                    Some(lastseg) => {
                        segs.push(lastseg.concat(suffix.as_str()));
                        proof {
                            let target = spec_crawler_segments(u);
                            assert(target == spec_sanitized_path_segments(u).update(
                                spec_sanitized_path_segments(u).len() - 1,
                                spec_sanitized_path_segments(u).last() + "~q~"@ + sanitize_seq(q@),
                            ));
                            assert(seg_views(segs@).last() =~= target.last());
                            assert(seg_views(segs@) =~= target);
                        }
                    }
                    None => {
                        proof {
                            assert(false);
                        }
                    }
                }
            } else {
                proof {
                    assert(seg_views(segs@) =~= spec_crawler_segments(u));
                }
            }
        }
        None => {
            proof {
                assert(seg_views(segs@) =~= spec_crawler_segments(u));
            }
        }
    }
    proof {
        assert(seg_views(segs@) == spec_crawler_segments(u));
    }
    let ghost sv = seg_views(segs@);
    let ghost hostv = spec_host(u);
    let mut full: String = host.clone();
    let mut total: usize = host.unicode_len();
    let mut k: usize = 0;
    while k < segs.len()
        invariant
            k <= segs@.len(),
            sv == seg_views(segs@),
            hostv == spec_host(u),
            full@.len() >= 0,
            total == full@.len(),
            spec_crawler_fold(sv, 0, hostv, hostv.len() as int, hostv, url.spec_bytes())
                == spec_crawler_fold(sv, k as int, full@, total as int, hostv, url.spec_bytes()),
            total <= 240 || k == 0,
        decreases segs@.len() - k,
    {
        let sl = segs[k].unicode_len();
        if sl > 100 {
            return Some(hashed_fallback(&host, url));
        }
        if total > 240 {
            // Reachable only with an overlong host before any segment was
            // joined; the fold hashes then too, since the total check fails.
            return Some(hashed_fallback(&host, url));
        }
        let t2 = total + sl + 1;
        if t2 > 240 {
            return Some(hashed_fallback(&host, url));
        }
        let ghost fullv = full@;
        full = full.concat("/").concat(segs[k].as_str());
        proof {
            reveal_strlit("/");
            assert("/"@ =~= seq!['/']);
            assert(full@ =~= fullv + seq!['/'] + sv[k as int]);
        }
        total = t2;
        k = k + 1;
    }
    Some(full)
}

/// The crawler layout's snapshot file inside the directory.
pub fn build_rel_html_snapshot_file_path(url: &str) -> (r: Option<crate::weblog::RelativeFilePath>)
    ensures
        match (r, spec_crawler_snapshot_dir(url@, url.spec_bytes())) {
            (Some(p), Some(s)) => p.0@ == s + "/snapshot.html"@,
            (None, None) => true,
            _ => false,
        },
{
    match build_rel_html_snapshot_dir(url) {
        Some(base) => Some(crate::weblog::RelativeFilePath(base.concat("/snapshot.html"))),
        None => None,
    }
}

} // verus!
