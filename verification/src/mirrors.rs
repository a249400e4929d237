//! The mirror-list model: the attributes of an upstream mirror that the
//! selection rules read, and the filter applied to a fetched mirror list.
//!
//! The mirror discovery subsystem itself (fetching the JSON list, measuring
//! latencies) lives in the embedding program; fractional attributes arrive
//! here already scaled to integers by a fixed factor, so that the ranking
//! never has to reason about floating point.

use vstd::prelude::*;

verus! {

/// The transfer protocol a mirror speaks.
#[derive(Clone, Copy, Debug, PartialEq, Eq, Structural)]
pub enum MirrorProtocol {
    Http,
    Https,
    Rsync,
}

/// A mirror-list entry as fetched, before validation: every attribute the
/// ranking needs may still be missing.
pub struct MirrorUrlOption {
    pub url: String,
    pub protocol: Option<MirrorProtocol>,
    pub last_sync: Option<String>,
    pub completion_pct: Option<u64>,
    pub delay: Option<i32>,
    pub duration_avg: Option<u64>,
    pub duration_stddev: Option<u64>,
    pub score: Option<u64>,
    pub country: Option<String>,
    pub ipv4: Option<bool>,
    pub ipv6: Option<bool>,
}

/// A validated mirror-list entry: every attribute the ranking needs is
/// present. The score is the scaled integer form of the fetched fractional
/// score, lower being better.
pub struct MirrorUrl {
    pub url: String,
    pub protocol: MirrorProtocol,
    pub last_sync: String,
    pub completion_pct: u64,
    pub delay: i32,
    pub duration_avg: u64,
    pub duration_stddev: u64,
    pub score: u64,
    pub country: String,
    pub ipv4: bool,
    pub ipv6: bool,
}

/// The filter settings for automatic mirror selection. The score bound is in
/// the same scaled integer form as [`MirrorUrl::score`].
pub struct MirrorsAutoConfig {
    pub https_required: bool,
    pub ipv4: bool,
    pub ipv6: bool,
    pub max_score: u64,
    pub mirrors_blacklist: Vec<String>,
}

/// Whether every attribute the ranking needs is present.
pub open spec fn spec_complete(m: MirrorUrlOption) -> bool {
    &&& m.protocol is Some
    &&& m.last_sync is Some
    &&& m.completion_pct is Some
    &&& m.delay is Some
    &&& m.duration_avg is Some
    &&& m.duration_stddev is Some
    &&& m.score is Some
    &&& m.country is Some
    &&& m.ipv4 is Some
    &&& m.ipv6 is Some
}

impl MirrorUrlOption {
    /// Validate this entry: the entry with every attribute unwrapped when all
    /// are present, nothing otherwise.
    pub fn mirror_url(self) -> (r: Option<MirrorUrl>)
        ensures
            r is Some <==> spec_complete(self),
            r matches Some(m) ==> {
                &&& m.url == self.url
                &&& Some(m.protocol) == self.protocol
                &&& Some(m.last_sync) == self.last_sync
                &&& Some(m.completion_pct) == self.completion_pct
                &&& Some(m.delay) == self.delay
                &&& Some(m.duration_avg) == self.duration_avg
                &&& Some(m.duration_stddev) == self.duration_stddev
                &&& Some(m.score) == self.score
                &&& Some(m.country) == self.country
                &&& Some(m.ipv4) == self.ipv4
                &&& Some(m.ipv6) == self.ipv6
            },
    {
        match (
            self.protocol,
            self.last_sync,
            self.completion_pct,
            self.delay,
            self.duration_avg,
            self.duration_stddev,
            self.score,
            self.country,
            self.ipv4,
            self.ipv6,
        ) {
            (
                Some(protocol),
                Some(last_sync),
                Some(completion_pct),
                Some(delay),
                Some(duration_avg),
                Some(duration_stddev),
                Some(score),
                Some(country),
                Some(ipv4),
                Some(ipv6),
            ) => Some(
                MirrorUrl {
                    url: self.url,
                    protocol,
                    last_sync,
                    completion_pct,
                    delay,
                    duration_avg,
                    duration_stddev,
                    score,
                    country,
                    ipv4,
                    ipv6,
                },
            ),
            _ => None,
        }
    }
}

/// Whether the blacklist holds the given URL.
pub open spec fn spec_blacklisted(blacklist: Seq<String>, url: Seq<char>) -> bool {
    exists|i: int| 0 <= i < blacklist.len() && blacklist[i]@ == url
}

/// What the filter accepts: the protocol, address families, score bound and
/// blacklist rules all pass.
pub open spec fn spec_filter_predicate(m: MirrorUrl, mirrors_auto: MirrorsAutoConfig) -> bool {
    !((mirrors_auto.https_required && m.protocol != MirrorProtocol::Https) || (mirrors_auto.ipv4
        && !m.ipv4) || (mirrors_auto.ipv6 && !m.ipv6) || (mirrors_auto.max_score < m.score)
        || spec_blacklisted(mirrors_auto.mirrors_blacklist@, m.url@))
}

impl MirrorUrl {
    /// Whether this mirror passes the automatic-selection filter.
    pub fn filter_predicate(&self, mirrors_auto: &MirrorsAutoConfig) -> (r: bool)
        ensures
            r == spec_filter_predicate(*self, *mirrors_auto),
    {
        let https_fails = mirrors_auto.https_required && !matches!(self.protocol, MirrorProtocol::Https);
        let ipv4_fails = mirrors_auto.ipv4 && !self.ipv4;
        let ipv6_fails = mirrors_auto.ipv6 && !self.ipv6;
        let score_fails = mirrors_auto.max_score < self.score;
        let blacklisted = contains_string(&mirrors_auto.mirrors_blacklist, &self.url);
        !(https_fails || ipv4_fails || ipv6_fails || score_fails || blacklisted)
    }
}

/// Whether `needle` occurs in the list, compared by text.
fn contains_string(haystack: &Vec<String>, needle: &String) -> (r: bool)
    ensures
        r == spec_blacklisted(haystack@, needle@),
{
    let n = haystack.len();
    let mut i: usize = 0;
    while i < n
        invariant
            i <= n,
            n == haystack@.len(),
            forall|j: int| 0 <= j < i ==> haystack@[j]@ != needle@,
        decreases n - i,
    {
        if haystack[i] == *needle {
            return true;
        }
        i = i + 1;
    }
    false
}

/// Keep, of the fetched entries, exactly the complete ones, validated, in
/// order.
pub open spec fn spec_validated(s: Seq<MirrorUrlOption>) -> Seq<MirrorUrl>
    decreases s.len(),
{
    if s.len() == 0 {
        Seq::empty()
    } else if spec_complete(s.last()) {
        spec_validated(s.drop_last()).push(spec_validate_one(s.last()))
    } else {
        spec_validated(s.drop_last())
    }
}

/// The validated form of one complete entry.
pub open spec fn spec_validate_one(m: MirrorUrlOption) -> MirrorUrl
    recommends
        spec_complete(m),
{
    MirrorUrl {
        url: m.url,
        protocol: m.protocol->0,
        last_sync: m.last_sync->0,
        completion_pct: m.completion_pct->0,
        delay: m.delay->0,
        duration_avg: m.duration_avg->0,
        duration_stddev: m.duration_stddev->0,
        score: m.score->0,
        country: m.country->0,
        ipv4: m.ipv4->0,
        ipv6: m.ipv6->0,
    }
}

/// Validate a fetched mirror list: keep the entries whose attributes are all
/// present, dropping the rest.
pub fn mirror_urls_from_options(options: Vec<MirrorUrlOption>) -> (r: Vec<MirrorUrl>)
    ensures
        r@ == spec_validated(options@),
{
    let mut out: Vec<MirrorUrl> = Vec::new();
    let n = options.len();
    let mut rest = options;
    let ghost all = rest@;
    let mut i: usize = 0;
    while i < n
        invariant
            i <= n,
            n == all.len(),
            rest@ == all.subrange(i as int, n as int),
            out@ == spec_validated(all.subrange(0, i as int)),
        decreases n - i,
    {
        let entry = rest.remove(0);
        proof {
            assert(entry == all[i as int]);
            assert(rest@ == all.subrange(i + 1 as int, n as int));
            assert(all.subrange(0, i + 1 as int).drop_last() == all.subrange(0, i as int));
            assert(all.subrange(0, i + 1 as int).last() == all[i as int]);
        }
        match entry.mirror_url() {
            Some(m) => {
                out.push(m);
            },
            None => {},
        }
        i = i + 1;
    }
    proof {
        assert(all.subrange(0, n as int) == all);
    }
    out
}

/// Whether a failed fetch of the mirror list should be attempted again:
/// only while the attempt budget is not spent. A success is never retried.
pub fn should_retry_fetch(num_attempts: i32, max_num_attempts: i32, succeeded: bool) -> (r: bool)
    ensures
        r == (!succeeded && num_attempts < max_num_attempts),
{
    !succeeded && num_attempts < max_num_attempts
}

} // verus!
