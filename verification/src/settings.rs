//! Crawl-side URL filtering: which URLs the visitor may fetch.
//!
//! The whitelists and blacklists are vectors with pairwise-distinct
//! contents, and every contract speaks of membership by character sequence.
use vstd::prelude::*;
use crate::textutil::{ascii_lowercase, has_suffix, lower_char, str_eq, str_has_suffix};
use crate::weburl::{parse_url, UrlInfo};

verus! {

/// Why a URL was filtered out.
#[derive(Debug, Clone, PartialEq, Eq)]
pub enum FailedFilterReason {
    FailedWhitelistedSchemeCheck,
    FailedWhitelistedDomainCheck,
    IsBlacklistedScheme,
}

/// Why a URL was skipped by the crawler.
#[derive(Debug, Clone, PartialEq, Eq)]
pub enum SkipUrlReason {
    AlreadyVisited,
    FailedFilter(FailedFilterReason),
}

/// Membership of a character sequence in a list of strings.
pub open spec fn seq_has(v: Seq<String>, x: Seq<char>) -> bool {
    exists|i: int| 0 <= i < v.len() && (#[trigger] v[i])@ == x
}

/// Pairwise-distinct string contents.
pub open spec fn distinct_strings(v: Seq<String>) -> bool {
    forall|i: int, j: int| 0 <= i < j < v.len() ==> (#[trigger] v[i])@ != (#[trigger] v[j])@
}

/// ASCII lowercasing of a character sequence.
pub open spec fn lower_seq(s: Seq<char>) -> Seq<char> {
    s.map_values(|c: char| lower_char(c))
}

fn list_contains(v: &Vec<String>, x: &str) -> (r: bool)
    ensures
        r == seq_has(v@, x@),
{
    let mut i: usize = 0;
    while i < v.len()
        invariant
            i <= v.len(),
            forall|j: int| 0 <= j < i ==> (#[trigger] v@[j])@ != x@,
        decreases v@.len() - i,
    {
        if str_eq(v[i].as_str(), x) {
            return true;
        }
        i = i + 1;
    }
    false
}

/// Appends `x` unless an equal string is already present.
fn insert_unique(v: &mut Vec<String>, x: String)
    requires
        distinct_strings(old(v)@),
    ensures
        distinct_strings(final(v)@),
        forall|y: Seq<char>| #![trigger seq_has(final(v)@, y)]
            seq_has(final(v)@, y) <==> seq_has(old(v)@, y) || y == x@,
{
    if !list_contains(v, x.as_str()) {
        let ghost prev = v@;
        let ghost xc = x@;
        v.push(x);
        proof {
            assert(forall|y: Seq<char>| seq_has(prev, y) ==> seq_has(v@, y)) by {
                assert(forall|i: int| 0 <= i < prev.len() ==> v@[i] == prev[i]);
            }
            assert(v@[v@.len() - 1]@ == xc);
        }
    }
}

/// Settings deciding which URLs the crawler is allowed to visit.
#[derive(Debug)]
pub struct UrlVisitorSettings {
    pub domain_whitelist: Vec<String>,
    pub protocol_whitelist: Vec<String>,
    pub protocol_blacklist: Vec<String>,
}

impl UrlVisitorSettings {
    /// All three lists hold pairwise-distinct strings.
    pub open spec fn wf(&self) -> bool {
        distinct_strings(self.domain_whitelist@) && distinct_strings(self.protocol_whitelist@)
            && distinct_strings(self.protocol_blacklist@)
    }

    /// The standard defaults: no domains, `http` and `https` whitelisted,
    /// `tel` blacklisted.
    pub fn standard_defaults() -> (r: Self)
        ensures
            r.wf(),
            r.domain_whitelist@.len() == 0,
            forall|y: Seq<char>| seq_has(r.protocol_whitelist@, y) <==> (y == "http"@ || y
                == "https"@),
            forall|y: Seq<char>| seq_has(r.protocol_blacklist@, y) <==> y == "tel"@,
    {
        let mut protocol_whitelist: Vec<String> = Vec::new();
        protocol_whitelist.push(String::from_str("http"));
        protocol_whitelist.push(String::from_str("https"));
        let mut protocol_blacklist: Vec<String> = Vec::new();
        protocol_blacklist.push(String::from_str("tel"));
        proof {
            reveal_strlit("http");
            reveal_strlit("https");
            assert(protocol_whitelist@[0]@ == "http"@);
            assert(protocol_whitelist@[1]@ == "https"@);
            assert(protocol_blacklist@[0]@ == "tel"@);
        }
        UrlVisitorSettings {
            domain_whitelist: Vec::new(),
            protocol_whitelist,
            protocol_blacklist,
        }
    }

    /// Folds the other settings into these, keeping each list duplicate-free.
    pub fn merge_mut(&mut self, other: Self)
        requires
            old(self).wf(),
        ensures
            final(self).wf(),
            forall|y: Seq<char>| #![trigger seq_has(final(self).domain_whitelist@, y)]
                seq_has(final(self).domain_whitelist@, y) <==> seq_has(
                    old(self).domain_whitelist@,
                    y,
                ) || seq_has(other.domain_whitelist@, y),
            forall|y: Seq<char>| #![trigger seq_has(final(self).protocol_whitelist@, y)]
                seq_has(final(self).protocol_whitelist@, y) <==> seq_has(
                    old(self).protocol_whitelist@,
                    y,
                ) || seq_has(other.protocol_whitelist@, y),
            forall|y: Seq<char>| #![trigger seq_has(final(self).protocol_blacklist@, y)]
                seq_has(final(self).protocol_blacklist@, y) <==> seq_has(
                    old(self).protocol_blacklist@,
                    y,
                ) || seq_has(other.protocol_blacklist@, y),
    {
        extend_unique(&mut self.domain_whitelist, other.domain_whitelist);
        extend_unique(&mut self.protocol_whitelist, other.protocol_whitelist);
        extend_unique(&mut self.protocol_blacklist, other.protocol_blacklist);
    }

    /// The union of the two settings.
    pub fn union(self, other: Self) -> (r: Self)
        requires
            self.wf(),
        ensures
            r.wf(),
            forall|y: Seq<char>| #![trigger seq_has(r.domain_whitelist@, y)]
                seq_has(r.domain_whitelist@, y) <==> seq_has(self.domain_whitelist@, y) || seq_has(
                    other.domain_whitelist@,
                    y,
                ),
            forall|y: Seq<char>| #![trigger seq_has(r.protocol_whitelist@, y)]
                seq_has(r.protocol_whitelist@, y) <==> seq_has(self.protocol_whitelist@, y)
                    || seq_has(other.protocol_whitelist@, y),
            forall|y: Seq<char>| #![trigger seq_has(r.protocol_blacklist@, y)]
                seq_has(r.protocol_blacklist@, y) <==> seq_has(self.protocol_blacklist@, y)
                    || seq_has(other.protocol_blacklist@, y),
    {
        let mut out = self;
        out.merge_mut(other);
        out
    }

    /// Lowercases every list entry, deduplicating afterwards.
    pub fn normalize(self) -> (r: Self)
        ensures
            r.wf(),
            forall|y: Seq<char>| #![trigger seq_has(r.domain_whitelist@, y)]
                seq_has(r.domain_whitelist@, y) <==> exists|i: int|
                    0 <= i < self.domain_whitelist@.len() && y == lower_seq(
                        (#[trigger] self.domain_whitelist@[i])@,
                    ),
            forall|y: Seq<char>| #![trigger seq_has(r.protocol_whitelist@, y)]
                seq_has(r.protocol_whitelist@, y) <==> exists|i: int|
                    0 <= i < self.protocol_whitelist@.len() && y == lower_seq(
                        (#[trigger] self.protocol_whitelist@[i])@,
                    ),
            forall|y: Seq<char>| #![trigger seq_has(r.protocol_blacklist@, y)]
                seq_has(r.protocol_blacklist@, y) <==> exists|i: int|
                    0 <= i < self.protocol_blacklist@.len() && y == lower_seq(
                        (#[trigger] self.protocol_blacklist@[i])@,
                    ),
    {
        UrlVisitorSettings {
            domain_whitelist: lower_all(&self.domain_whitelist),
            protocol_whitelist: lower_all(&self.protocol_whitelist),
            protocol_blacklist: lower_all(&self.protocol_blacklist),
        }
    }

    /// Builds settings from a plain domain whitelist: the domains are
    /// lowercased and the standard defaults folded in.
    pub fn from_domain_whitelist_with_defaults(domain_whitelist: Vec<String>) -> (r: Self)
        ensures
            r.wf(),
            forall|y: Seq<char>| #![trigger seq_has(r.domain_whitelist@, y)]
                seq_has(r.domain_whitelist@, y) <==> exists|i: int|
                    0 <= i < domain_whitelist@.len() && y == lower_seq(
                        (#[trigger] domain_whitelist@[i])@,
                    ),
            forall|y: Seq<char>| seq_has(r.protocol_whitelist@, y) <==> (y == "http"@ || y
                == "https"@),
            forall|y: Seq<char>| seq_has(r.protocol_blacklist@, y) <==> y == "tel"@,
    {
        let ghost input = domain_whitelist@;
        let this = UrlVisitorSettings {
            domain_whitelist: domain_whitelist,
            protocol_whitelist: Vec::new(),
            protocol_blacklist: Vec::new(),
        };
        let n = this.normalize();
        let d = Self::standard_defaults();
        let r = n.union(d);
        proof {
            assert forall|y: Seq<char>| #[trigger] seq_has(r.domain_whitelist@, y) implies (
            exists|i: int| 0 <= i < input.len() && y == lower_seq((#[trigger] input[i])@)) by {
                assert(!seq_has(d.domain_whitelist@, y));
                assert(seq_has(n.domain_whitelist@, y));
            };
            assert forall|y: Seq<char>| (exists|i: int|
                0 <= i < input.len() && y == lower_seq((#[trigger] input[i])@)) implies #[trigger]
            seq_has(r.domain_whitelist@, y) by {
                let i = choose|i: int| 0 <= i < input.len() && y == lower_seq(
                    (#[trigger] input[i])@,
                );
                assert(this.domain_whitelist@[i] == input[i]);
                assert(y == lower_seq(this.domain_whitelist@[i]@));
                assert(seq_has(n.domain_whitelist@, y));
            };
        }
        r
    }

    /// Builds settings from seed URLs, whitelisting each one's domain.  Every
    /// seed must have a registrable domain.
    pub fn from_seed_urls_with_defaults(urls: &Vec<UrlInfo>) -> (r: Self)
        requires
            forall|i: int| 0 <= i < urls@.len() ==> (#[trigger] urls@[i]).domain is Some,
        ensures
            r.wf(),
            forall|y: Seq<char>| #![trigger seq_has(r.domain_whitelist@, y)]
                seq_has(r.domain_whitelist@, y) <==> exists|i: int|
                    0 <= i < urls@.len() && y == lower_seq(
                        ((#[trigger] urls@[i]).domain->0)@,
                    ),
            forall|y: Seq<char>| seq_has(r.protocol_whitelist@, y) <==> (y == "http"@ || y
                == "https"@),
            forall|y: Seq<char>| seq_has(r.protocol_blacklist@, y) <==> y == "tel"@,
    {
        let mut domains: Vec<String> = Vec::new();
        let mut i: usize = 0;
        while i < urls.len()
            invariant
                i <= urls.len(),
                forall|j: int| 0 <= j < urls@.len() ==> (#[trigger] urls@[j]).domain is Some,
                domains@.len() == i as int,
                forall|j: int| 0 <= j < i ==> (#[trigger] domains@[j])@ == (urls@[j].domain->0)@,
            decreases urls@.len() - i,
        {
            match &urls[i].domain {
                Some(d) => {
                    domains.push(d.clone());
                }
                None => {
                    proof {
                        assert(urls@[i as int].domain is Some);
                    }
                }
            }
            i = i + 1;
        }
        let ghost ds = domains@;
        let r = Self::from_domain_whitelist_with_defaults(domains);
        proof {
            assert forall|y: Seq<char>| #[trigger] seq_has(r.domain_whitelist@, y) implies (
            exists|i: int| 0 <= i < urls@.len() && y == lower_seq(
                (((#[trigger] urls@[i]).domain)->0)@,
            )) by {
                let i = choose|i: int| 0 <= i < ds.len() && y == lower_seq((#[trigger] ds[i])@);
                assert(y == lower_seq((urls@[i].domain->0)@));
            };
            assert forall|y: Seq<char>| (exists|i: int|
                0 <= i < urls@.len() && y == lower_seq(
                    (((#[trigger] urls@[i]).domain)->0)@,
                )) implies #[trigger] seq_has(r.domain_whitelist@, y) by {
                let i = choose|i: int|
                    0 <= i < urls@.len() && y == lower_seq((((#[trigger] urls@[i]).domain)->0)@);
                assert(y == lower_seq(ds[i]@));
            };
        }
        r
    }

    /// Adds one protocol to the whitelist.
    pub fn with_whitelisted_protocol(self, entry: String) -> (r: Self)
        requires
            self.wf(),
        ensures
            r.wf(),
            forall|y: Seq<char>| #![trigger seq_has(r.protocol_whitelist@, y)]
                seq_has(r.protocol_whitelist@, y) <==> seq_has(self.protocol_whitelist@, y) || y
                    == entry@,
            r.domain_whitelist == self.domain_whitelist,
            r.protocol_blacklist == self.protocol_blacklist,
    {
        let mut out = self;
        insert_unique(&mut out.protocol_whitelist, entry);
        out
    }

    /// Adds one protocol to the blacklist.
    pub fn with_blacklisted_protocol(self, entry: String) -> (r: Self)
        requires
            self.wf(),
        ensures
            r.wf(),
            forall|y: Seq<char>| #![trigger seq_has(r.protocol_blacklist@, y)]
                seq_has(r.protocol_blacklist@, y) <==> seq_has(self.protocol_blacklist@, y) || y
                    == entry@,
            r.domain_whitelist == self.domain_whitelist,
            r.protocol_whitelist == self.protocol_whitelist,
    {
        let mut out = self;
        insert_unique(&mut out.protocol_blacklist, entry);
        out
    }


    /// Adds one domain to the whitelist: the parsed URL's domain when the
    /// entry parses and has one, otherwise the entry itself, lowercased
    /// either way.
    pub fn with_whitelisted_domain(self, entry: &str) -> (r: Self)
        requires
            self.wf(),
        ensures
            r.wf(),
            forall|y: Seq<char>| #![trigger seq_has(r.domain_whitelist@, y)]
                seq_has(r.domain_whitelist@, y) <==> seq_has(self.domain_whitelist@, y) || y
                    == spec_whitelist_domain_entry(entry@),
            r.protocol_whitelist == self.protocol_whitelist,
            r.protocol_blacklist == self.protocol_blacklist,
    {
        let mut out = self;
        let added: String = match parse_url(entry) {
            Some(u) => match u.domain {
                Some(d) => ascii_lowercase(d.as_str()),
                None => ascii_lowercase(entry),
            },
            None => ascii_lowercase(entry),
        };
        insert_unique(&mut out.domain_whitelist, added);
        out
    }

    /// The filter decision for one URL, checked in order: the domain must be
    /// whitelisted; then, when the protocol whitelist is empty, the scheme
    /// check fails; then a blacklisted scheme fails.
    pub open spec fn spec_should_visit(&self, url: UrlInfo) -> Result<(), FailedFilterReason> {
        if !(url.domain matches Some(d) && seq_has(
            self.domain_whitelist@,
            lower_seq(d@),
        )) {
            Err(FailedFilterReason::FailedWhitelistedDomainCheck)
        } else if self.protocol_whitelist@.len() == 0 && !seq_has(
            self.protocol_whitelist@,
            lower_seq(url.scheme@),
        ) {
            Err(FailedFilterReason::FailedWhitelistedSchemeCheck)
        } else if seq_has(self.protocol_blacklist@, lower_seq(url.scheme@)) {
            Err(FailedFilterReason::IsBlacklistedScheme)
        } else {
            Ok(())
        }
    }

    pub fn should_visit(&self, url: &UrlInfo) -> (r: Result<(), FailedFilterReason>)
        ensures
            r == self.spec_should_visit(*url),
    {
        let domain_ok = match &url.domain {
            Some(d) => {
                let low = ascii_lowercase(d.as_str());
                list_contains(&self.domain_whitelist, low.as_str())
            }
            None => false,
        };
        if !domain_ok {
            return Err(FailedFilterReason::FailedWhitelistedDomainCheck);
        }
        let scheme_low = ascii_lowercase(url.scheme.as_str());
        let is_whitelisted_scheme = list_contains(&self.protocol_whitelist, scheme_low.as_str());
        if self.protocol_whitelist.len() == 0 && !is_whitelisted_scheme {
            return Err(FailedFilterReason::FailedWhitelistedSchemeCheck);
        }
        if list_contains(&self.protocol_blacklist, scheme_low.as_str()) {
            return Err(FailedFilterReason::IsBlacklistedScheme);
        }
        Ok(())
    }

    /// Whether the URL's domain equals, or is a subdomain of, a whitelisted
    /// domain (case-insensitively).
    pub open spec fn spec_is_subdomain_of_whitelisted(&self, url: UrlInfo) -> bool {
        match url.domain {
            Some(d) => exists|i: int|
                0 <= i < self.domain_whitelist@.len() && {
                    ||| lower_seq(d@) == lower_seq((#[trigger] self.domain_whitelist@[i])@)
                    ||| has_suffix(
                        lower_seq(d@),
                        "."@ + lower_seq(self.domain_whitelist@[i]@),
                    )
                },
            None => false,
        }
    }

    pub fn is_subdomain_of_whitelisted(&self, url: &UrlInfo) -> (r: bool)
        ensures
            r == self.spec_is_subdomain_of_whitelisted(*url),
    {
        let d = match &url.domain {
            Some(d) => d,
            None => {
                return false;
            }
        };
        let url_domain = ascii_lowercase(d.as_str());
        let mut i: usize = 0;
        while i < self.domain_whitelist.len()
            invariant
                i <= self.domain_whitelist@.len(),
                url_domain@ == lower_seq(url.domain->0@),
                forall|j: int| 0 <= j < i
                    ==> !(lower_seq(url.domain->0@) == lower_seq(
                        (#[trigger] self.domain_whitelist@[j])@,
                    ) || has_suffix(
                        lower_seq(url.domain->0@),
                        "."@ + lower_seq(self.domain_whitelist@[j]@),
                    )),
            decreases self.domain_whitelist@.len() - i,
        {
            let allowed = ascii_lowercase(self.domain_whitelist[i].as_str());
            let dotted = String::from_str(".").concat(allowed.as_str());
            if str_eq(url_domain.as_str(), allowed.as_str())
                || str_has_suffix(url_domain.as_str(), dotted.as_str()) {
                return true;
            }
            i = i + 1;
        }
        false
    }
}

/// Appends every element of `other` not already present.
fn extend_unique(v: &mut Vec<String>, other: Vec<String>)
    requires
        distinct_strings(old(v)@),
    ensures
        distinct_strings(final(v)@),
        forall|y: Seq<char>| #![trigger seq_has(final(v)@, y)]
            seq_has(final(v)@, y) <==> seq_has(old(v)@, y) || seq_has(other@, y),
{
    let mut i: usize = 0;
    let n = other.len();
    let mut rest = other;
    let ghost others = rest@;
    let mut taken: usize = 0;
    while taken < n
        invariant
            taken <= n,
            n == others.len(),
            rest@ == others.skip(taken as int),
            distinct_strings(v@),
            forall|y: Seq<char>| #![trigger seq_has(v@, y)]
                seq_has(v@, y) <==> seq_has(old(v)@, y) || (exists|j: int|
                    0 <= j < taken && (#[trigger] others[j])@ == y),
        decreases n - taken,
    {
        let x = rest.remove(0);
        proof {
            assert(others.skip(taken as int)[0] == others[taken as int]);
            assert(x@ == others[taken as int]@);
            assert(rest@ =~= others.skip(taken + 1));
        }
        insert_unique(v, x);
        taken = taken + 1;
    }
}

/// Fresh copies of the strings, lowercased and deduplicated.
fn lower_all(v: &Vec<String>) -> (r: Vec<String>)
    ensures
        distinct_strings(r@),
        forall|y: Seq<char>| #![trigger seq_has(r@, y)]
            seq_has(r@, y) <==> exists|i: int|
                0 <= i < v@.len() && y == lower_seq((#[trigger] v@[i])@),
{
    let mut out: Vec<String> = Vec::new();
    let mut i: usize = 0;
    while i < v.len()
        invariant
            i <= v.len(),
            distinct_strings(out@),
            forall|y: Seq<char>| #![trigger seq_has(out@, y)]
                seq_has(out@, y) <==> exists|j: int|
                    0 <= j < i && y == lower_seq((#[trigger] v@[j])@),
        decreases v@.len() - i,
    {
        let low = ascii_lowercase(v[i].as_str());
        insert_unique(&mut out, low);
        i = i + 1;
    }
    out
}


/// What [`UrlVisitorSettings::with_whitelisted_domain`] adds: the lowercased
/// domain of the parsed entry, or the lowercased entry itself when it does
/// not parse to a URL with a domain.
pub open spec fn spec_whitelist_domain_entry(entry: Seq<char>) -> Seq<char> {
    match crate::weburl::url_parts_of(entry) {
        Some(u) => match u.domain {
            Some(d) => lower_seq(d@),
            None => lower_seq(entry),
        },
        None => lower_seq(entry),
    }
}

/// The crawl configuration: where to start, what to visit, where to write.
#[derive(Debug)]
pub struct CrawlerSettings {
    pub seed_urls: Vec<UrlInfo>,
    pub url_visitor_settings: UrlVisitorSettings,
    /// The project directory, as a plain path string.
    pub project_directory: String,
}

} // verus!
