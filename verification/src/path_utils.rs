//! The recorder's snapshot-directory layout.  It differs from the crawler's
//! in three ways: segments are capped at 20 characters, an overlong segment
//! is replaced by its own short hash instead of hashing the whole path, and
//! a non-empty query becomes a segment of its own (itself hashed when too
//! long).
use vstd::prelude::*;
use vstd::string::{StrSliceExecFns, StringExecFns, StringSliceAdditionalSpecFns};
use vstd::utf8::encode_utf8;
use crate::weburl::{parse_url, url_parts_of, UrlInfo};
use crate::snappath::{
    sanitize, sanitize_seq, short_hash, short_hash_of, split_slashes, spec_split, seg_views,
    str_trim_slashes, trim_slashes, spec_host, spec_effective_path, spec_sanitized_path_segments,
    hashed_fallback, lemma_split_nonempty,
};

verus! {

/// The recorder's query segment: `~q~` plus the sanitized query, the latter
/// replaced by its short hash when longer than 20 characters.
pub open spec fn spec_query_segment(q: Seq<char>) -> Seq<char> {
    if sanitize_seq(q).len() > 20 {
        "~q~"@ + short_hash_of(encode_utf8(sanitize_seq(q)))
    } else {
        "~q~"@ + sanitize_seq(q)
    }
}

/// The recorder layout's segment list.
pub open spec fn spec_recorder_segments(u: UrlInfo) -> Seq<Seq<char>> {
    match u.query {
        Some(q) => if q@.len() > 0 {
            spec_sanitized_path_segments(u).push(spec_query_segment(q@))
        } else {
            spec_sanitized_path_segments(u)
        },
        None => spec_sanitized_path_segments(u),
    }
}

/// The running path length, capped just above the limit: only whether it
/// exceeds 240 matters, and the cap keeps it there once passed.
pub open spec fn clamp_len(x: int) -> int {
    if x > 241 {
        241
    } else {
        x
    }
}

/// The recorder layout's fold: an overlong segment joins as its own short
/// hash, an overlong total falls back to a hashed folder, everything else
/// joins as is.
pub open spec fn spec_recorder_fold(
    segs: Seq<Seq<char>>,
    k: int,
    acc: Seq<char>,
    total: int,
    host: Seq<char>,
    url_bytes: Seq<u8>,
) -> Seq<char>
    decreases segs.len() - k,
{
    if k < 0 || k >= segs.len() {
        acc
    } else if segs[k].len() > 20 {
        spec_recorder_fold(
            segs,
            k + 1,
            acc + seq!['/'] + short_hash_of(encode_utf8(segs[k])),
            clamp_len(total + segs[k].len() + 1),
            host,
            url_bytes,
        )
    } else if clamp_len(total + segs[k].len() + 1) > 240 {
        host + "/long/"@ + short_hash_of(url_bytes)
    } else {
        spec_recorder_fold(
            segs,
            k + 1,
            acc + seq!['/'] + segs[k],
            clamp_len(total + segs[k].len() + 1),
            host,
            url_bytes,
        )
    }
}

/// The recorder layout's directory for a URL, or `None` when the URL does
/// not parse.
pub open spec fn spec_recorder_snapshot_dir(url: Seq<char>, url_bytes: Seq<u8>) -> Option<Seq<char>> {
    match url_parts_of(url) {
        None => None,
        Some(u) => Some(
            spec_recorder_fold(
                spec_recorder_segments(u),
                0,
                spec_host(u),
                clamp_len(spec_host(u).len() as int),
                spec_host(u),
                url_bytes,
            ),
        ),
    }
}

/// Builds the recorder-layout directory path for a URL, including query
/// parameters, hashing overlong pieces.
pub fn build_rel_html_snapshot_dir(url: &str) -> (r: Option<String>)
    ensures
        match (r, spec_recorder_snapshot_dir(url@, url.spec_bytes())) {
            (Some(p), Some(s)) => p@ == s,
            (None, None) => true,
            _ => false,
        },
{
    let u = match parse_url(url) {
        Some(u) => u,
        None => {
            return None;
        }
    };
    let host: String = match &u.host {
        Some(h) => h.clone(),
        None => String::from_str("unknown"),
    };
    let trimmed = str_trim_slashes(u.path.as_str());
    let path: &str = if trimmed.unicode_len() == 0 {
        "index"
    } else {
        trimmed
    };
    let raw_segs = split_slashes(path);
    let mut segs: Vec<String> = Vec::new();
    let mut i: usize = 0;
    while i < raw_segs.len()
        invariant
            i <= raw_segs.len(),
            seg_views(raw_segs@) == spec_split(path@),
            segs@.len() == i as int,
            forall|j: int| 0 <= j < i
                ==> (#[trigger] segs@[j])@ == sanitize_seq(raw_segs@[j]@),
        decreases raw_segs@.len() - i,
    {
        let sg = sanitize(raw_segs[i].as_str());
        segs.push(sg);
        i = i + 1;
    }
    proof {
        assert(path@ == spec_effective_path(u));
        assert(seg_views(segs@) =~= spec_sanitized_path_segments(u)) by {
            assert forall|j: int| 0 <= j < segs@.len() implies seg_views(segs@)[j]
                == spec_sanitized_path_segments(u)[j] by {
                assert(seg_views(raw_segs@)[j] == raw_segs@[j]@);
            };
        };
        lemma_split_nonempty(path@);
    }
    match &u.query {
        Some(q) => {
            if q.unicode_len() > 0 {
                let sq = sanitize(q.as_str());
                let suffix = if sq.as_str().unicode_len() > 20 {
                    String::from_str("~q~").concat(short_hash(sq.as_str()).as_str())
                } else {
                    String::from_str("~q~").concat(sq.as_str())
                };
                let ghost before = segs@;
                segs.push(suffix);
                proof {
                    assert(seg_views(segs@) =~= spec_recorder_segments(u)) by {
                        assert(seg_views(before) =~= spec_sanitized_path_segments(u));
                        assert(suffix@ == spec_query_segment(q@));
                    };
                }
            } else {
                proof {
                    assert(seg_views(segs@) =~= spec_recorder_segments(u));
                }
            }
        }
        None => {
            proof {
                assert(seg_views(segs@) =~= spec_recorder_segments(u));
            }
        }
    }
    proof {
        assert(seg_views(segs@) == spec_recorder_segments(u));
    }
    let ghost sv = seg_views(segs@);
    let ghost hostv = spec_host(u);
    let mut full: String = host.clone();
    let hlen = host.unicode_len();
    let mut total: usize = if hlen > 241 {
        241
    } else {
        hlen
    };
    let mut k: usize = 0;
    while k < segs.len()
        invariant
            k <= segs@.len(),
            sv == seg_views(segs@),
            hostv == spec_host(u),
            total <= 241,
            spec_recorder_fold(sv, 0, hostv, clamp_len(hostv.len() as int), hostv, url.spec_bytes())
                == spec_recorder_fold(sv, k as int, full@, total as int, hostv, url.spec_bytes()),
        decreases segs@.len() - k,
    {
        let sl = segs[k].unicode_len();
        let t2: usize = if sl >= 241 {
            241
        } else if total + sl + 1 > 241 {
            241
        } else {
            total + sl + 1
        };
        proof {
            assert(t2 as int == clamp_len(total + sl + 1));
        }
        if sl > 20 {
            let piece = short_hash(segs[k].as_str());
            let ghost fullv = full@;
            full = full.concat("/").concat(piece.as_str());
            proof {
                reveal_strlit("/");
                assert("/"@ =~= seq!['/']);
                assert(full@ =~= fullv + seq!['/'] + short_hash_of(encode_utf8(sv[k as int])));
            }
        } else if t2 > 240 {
            return Some(hashed_fallback(&host, url));
        } else {
            let ghost fullv = full@;
            full = full.concat("/").concat(segs[k].as_str());
            proof {
                reveal_strlit("/");
                assert("/"@ =~= seq!['/']);
                assert(full@ =~= fullv + seq!['/'] + sv[k as int]);
            }
        }
        total = t2;
        k = k + 1;
    }
    Some(full)
}

} // verus!
