//! Name resolution: a short-lived cache with coarse invalidation.
//!
//! The cache maps hostnames to ordered, deduplicated address sets. A
//! network-change signal clears the whole cache at once — correctness
//! over granularity. When a fresh lookup fails, a configured static
//! fallback list answers before a resolution error is reported. The
//! lookup I/O itself happens outside; this module holds every decision
//! around it.

use vstd::prelude::*;
use vstd::string::StringSliceAdditionalSpecFns;

verus! {

/// The hostname could not be resolved and no fallback was available.
#[derive(Clone, Copy, Debug, PartialEq, Eq, Structural)]
pub struct ResolutionError;

impl ResolutionError {
    /// Resolution failures surface as transport-level failures.
    pub fn code(&self) -> (r: crate::errors::ErrorCode)
        ensures
            r == crate::errors::ErrorCode::IoError,
    {
        crate::errors::ErrorCode::IoError
    }
}

/// One resolved hostname: its addresses, deduplicated and in resolution
/// order, with an optional "last known good" marker.
#[derive(Clone, Debug)]
pub struct AddressSet {
    /// The addresses, without duplicates, in the order resolved.
    pub addrs: Vec<u32>,
    /// The address that most recently carried a working connection.
    pub last_good: Option<u32>,
}

impl AddressSet {
    /// Address sets hold no duplicates, and the last-good marker, when
    /// set, names one of the addresses.
    pub open spec fn wf(&self) -> bool {
        &&& (forall|i: int, j: int|
            0 <= i < j < self.addrs@.len() ==> self.addrs@[i] != self.addrs@[j])
        &&& match self.last_good {
            Some(a) => self.addrs@.contains(a),
            None => true,
        }
    }
}

/// One cached resolution.
#[derive(Clone, Debug)]
pub struct CacheEntry {
    /// The hostname this entry answers for.
    pub hostname: String,
    /// Its resolved addresses.
    pub addresses: AddressSet,
}

/// One configured fallback: a static address list for a hostname.
#[derive(Clone, Debug)]
pub struct FallbackEntry {
    /// The hostname this fallback answers for.
    pub hostname: String,
    /// The static addresses to use when resolution fails.
    pub addrs: Vec<u32>,
}

/// The resolver's state: a cache plus the static fallback table.
pub struct Resolver {
    /// Cached resolutions, one entry per hostname.
    pub cache: Vec<CacheEntry>,
    /// The static fallback table, untouched by invalidation.
    pub fallback: Vec<FallbackEntry>,
}

/// `s` with every repeated element dropped, keeping first occurrences in
/// order.
pub open spec fn spec_dedup(s: Seq<u32>) -> Seq<u32>
    decreases s.len(),
{
    if s.len() == 0 {
        Seq::empty()
    } else {
        let prefix = s.drop_last();
        spec_dedup(prefix) + (if prefix.contains(s.last()) {
            Seq::<u32>::empty()
        } else {
            seq![s.last()]
        })
    }
}

/// Deduplication keeps exactly the elements of its input.
pub proof fn lemma_dedup_membership(s: Seq<u32>)
    ensures
        forall|x: u32| spec_dedup(s).contains(x) <==> s.contains(x),
    decreases s.len(),
{
    if s.len() > 0 {
        let prefix = s.drop_last();
        lemma_dedup_membership(prefix);
        assert forall|x: u32| spec_dedup(s).contains(x) <==> s.contains(x) by {
            if s.contains(x) {
                let i = choose|i: int| 0 <= i < s.len() && s[i] == x;
                if i < s.len() - 1 {
                    assert(prefix[i] == x);
                    assert(prefix.contains(x));
                    let k = choose|k: int|
                        0 <= k < spec_dedup(prefix).len() && spec_dedup(prefix)[k] == x;
                    assert(spec_dedup(s)[k] == x);
                } else {
                    if prefix.contains(x) {
                        let k = choose|k: int|
                            0 <= k < spec_dedup(prefix).len() && spec_dedup(prefix)[k] == x;
                        assert(spec_dedup(s)[k] == x);
                    } else {
                        assert(spec_dedup(s).last() == x);
                    }
                }
            }
            if spec_dedup(s).contains(x) {
                let k = choose|k: int| 0 <= k < spec_dedup(s).len() && spec_dedup(s)[k] == x;
                if k < spec_dedup(prefix).len() {
                    assert(spec_dedup(prefix)[k] == x);
                    assert(prefix.contains(x));
                    let i = choose|i: int| 0 <= i < prefix.len() && prefix[i] == x;
                    assert(s[i] == x);
                } else {
                    assert(x == s.last());
                }
            }
        }
    }
}

/// Deduplication never repeats an element.
pub proof fn lemma_dedup_no_dups(s: Seq<u32>)
    ensures
        forall|i: int, j: int|
            0 <= i < j < spec_dedup(s).len() ==> spec_dedup(s)[i] != spec_dedup(s)[j],
    decreases s.len(),
{
    if s.len() > 0 {
        let prefix = s.drop_last();
        lemma_dedup_no_dups(prefix);
        lemma_dedup_membership(prefix);
        assert forall|i: int, j: int|
            0 <= i < j < spec_dedup(s).len() implies spec_dedup(s)[i] != spec_dedup(s)[j] by {
            if j < spec_dedup(prefix).len() {
                assert(spec_dedup(prefix)[i] != spec_dedup(prefix)[j]);
            } else {
                assert(!prefix.contains(s.last()));
                assert(spec_dedup(prefix)[i] == spec_dedup(s)[i]);
                if prefix.contains(spec_dedup(s)[i]) {
                } else {
                    assert(spec_dedup(prefix).contains(spec_dedup(s)[i]));
                }
            }
        }
    }
}

/// Drop repeated addresses, keeping first occurrences in order.
pub fn dedup_addrs(addrs: &Vec<u32>) -> (r: Vec<u32>)
    ensures
        r@ == spec_dedup(addrs@),
{
    let n = addrs.len();
    let mut out: Vec<u32> = Vec::new();
    let mut i: usize = 0;
    while i < n
        invariant
            n == addrs@.len(),
            i <= n,
            out@ == spec_dedup(addrs@.subrange(0, i as int)),
        decreases n - i,
    {
        let a = addrs[i];
        let mut seen = false;
        let mut k: usize = 0;
        while k < out.len()
            invariant
                k <= out@.len(),
                seen == exists|m: int| 0 <= m < k && out@[m] == a,
            decreases out@.len() - k,
        {
            if out[k] == a {
                seen = true;
            }
            k = k + 1;
        }
        proof {
            lemma_dedup_membership(addrs@.subrange(0, i as int));
            assert(addrs@.subrange(0, i + 1).drop_last() =~= addrs@.subrange(0, i as int));
            assert(addrs@.subrange(0, i + 1).last() == addrs@[i as int]);
            assert(seen == addrs@.subrange(0, i as int).contains(a));
        }
        if !seen {
            out.push(a);
        }
        proof {
            assert(out@ =~= spec_dedup(addrs@.subrange(0, i + 1)));
        }
        i = i + 1;
    }
    proof {
        assert(addrs@.subrange(0, n as int) =~= addrs@);
    }
    out
}

impl Resolver {
    /// Resolver invariant: at most one cache entry per hostname, each
    /// entry well-formed.
    pub open spec fn wf(&self) -> bool {
        &&& (forall|i: int, j: int|
            0 <= i < j < self.cache@.len() ==> self.cache@[i].hostname@ != self.cache@[
                j
            ].hostname@)
        &&& (forall|i: int| 0 <= i < self.cache@.len() ==> (#[trigger] self.cache@[i]).addresses.wf())
    }

    /// Whether a hostname is cached.
    pub open spec fn spec_cached(&self, h: Seq<char>) -> bool {
        exists|i: int| 0 <= i < self.cache@.len() && (#[trigger] self.cache@[i]).hostname@ == h
    }

    /// A resolver with an empty cache and the given fallback table.
    pub fn new(fallback: Vec<FallbackEntry>) -> (r: Resolver)
        ensures
            r.wf(),
            r.cache@.len() == 0,
            r.fallback == fallback,
    {
        Resolver { cache: Vec::new(), fallback }
    }

    /// The index of the cache entry for `h`, if one exists.
    fn find_cached(&self, h: &String) -> (r: Option<usize>)
        ensures
            match r {
                Some(i) => i < self.cache@.len() && self.cache@[i as int].hostname@ == h@,
                None => !self.spec_cached(h@),
            },
    {
        let n = self.cache.len();
        let mut i: usize = 0;
        while i < n
            invariant
                n == self.cache@.len(),
                i <= n,
                forall|k: int| 0 <= k < i ==> (#[trigger] self.cache@[k]).hostname@ != h@,
            decreases n - i,
        {
            if self.cache[i].hostname.eq(h) {
                return Some(i);
            }
            i = i + 1;
        }
        None
    }

    /// The index of the fallback entry for `h`, if one exists.
    fn find_fallback(&self, h: &String) -> (r: Option<usize>)
        ensures
            match r {
                Some(i) => i < self.fallback@.len() && self.fallback@[i as int].hostname@ == h@,
                None => forall|k: int|
                    0 <= k < self.fallback@.len() ==> (#[trigger] self.fallback@[k]).hostname@
                        != h@,
            },
    {
        let n = self.fallback.len();
        let mut i: usize = 0;
        while i < n
            invariant
                n == self.fallback@.len(),
                i <= n,
                forall|k: int| 0 <= k < i ==> (#[trigger] self.fallback@[k]).hostname@ != h@,
            decreases n - i,
        {
            if self.fallback[i].hostname.eq(h) {
                return Some(i);
            }
            i = i + 1;
        }
        None
    }

    /// Resolve `hostname`, given the outcome `fresh` of one external
    /// lookup attempt (`None`, or an empty list, when the lookup
    /// failed).
    ///
    /// A cached answer wins and the lookup outcome is ignored. Otherwise
    /// a non-empty lookup result is deduplicated, cached, and returned.
    /// Otherwise the static fallback for this hostname answers, without
    /// being cached. With none of the three, resolution fails. No
    /// retries happen here; retrying is the racer's business.
    pub fn resolve_with(&mut self, hostname: &String, fresh: Option<Vec<u32>>) -> (r: Result<
        Vec<u32>,
        ResolutionError,
    >)
        requires
            old(self).wf(),
        ensures
            final(self).wf(),
            final(self).fallback == old(self).fallback,
            old(self).spec_cached(hostname@) ==> {
                &&& final(self).cache == old(self).cache
                &&& r is Ok
                &&& exists|i: int|
                    0 <= i < old(self).cache@.len() && (#[trigger] old(self).cache@[i]).hostname@
                        == hostname@ && (r matches Ok(v) && v@ == old(self).cache@[i].addresses.addrs@)
            },
            !old(self).spec_cached(hostname@) ==> match fresh {
                Some(a) => if a@.len() > 0 {
                    &&& r matches Ok(addrs) && addrs@ == spec_dedup(a@)
                    &&& final(self).spec_cached(hostname@)
                } else {
                    &&& final(self).cache == old(self).cache
                    &&& old(self).spec_fallback_answer(hostname@, r)
                },
                None => {
                    &&& final(self).cache == old(self).cache
                    &&& old(self).spec_fallback_answer(hostname@, r)
                },
            },
    {
        match self.find_cached(hostname) {
            Some(i) => {
                let addrs = self.cache[i].addresses.addrs.clone();
                proof {
                    assert forall|k: int|
                        0 <= k < addrs@.len() implies addrs@[k] == self.cache@[
                        i as int
                    ].addresses.addrs@[k] by {
                        assert(vstd::pervasive::cloned::<u32>(
                            self.cache@[i as int].addresses.addrs@[k],
                            addrs@[k],
                        ));
                    }
                    assert(addrs@ =~= self.cache@[i as int].addresses.addrs@);
                }
                return Ok(addrs);
            },
            None => {},
        }
        if let Some(a) = fresh {
            if a.len() > 0 {
                let deduped = dedup_addrs(&a);
                proof {
                    lemma_dedup_no_dups(a@);
                }
                let entry = CacheEntry {
                    hostname: hostname.clone(),
                    addresses: AddressSet { addrs: deduped, last_good: None },
                };
                let ghost pre = self.cache@;
                self.cache.push(entry);
                proof {
                    assert(self.cache@[self.cache@.len() - 1].hostname@ == hostname@);
                    assert forall|i: int, j: int|
                        0 <= i < j < self.cache@.len() implies self.cache@[i].hostname@
                        != self.cache@[j].hostname@ by {
                        if j < pre.len() {
                            assert(old(self).cache@[i].hostname@ != old(self).cache@[j].hostname@);
                        } else {
                            assert(self.cache@[i] == pre[i]);
                            assert(!old(self).spec_cached(hostname@));
                        }
                    }
                }
                let result = self.cache[self.cache.len() - 1].addresses.addrs.clone();
                proof {
                    let last = self.cache@.len() - 1;
                    assert forall|k: int|
                        0 <= k < result@.len() implies result@[k] == self.cache@[
                        last
                    ].addresses.addrs@[k] by {
                        assert(vstd::pervasive::cloned::<u32>(
                            self.cache@[last].addresses.addrs@[k],
                            result@[k],
                        ));
                    }
                    assert(result@ =~= spec_dedup(a@));
                }
                return Ok(result);
            }
        }
        match self.find_fallback(hostname) {
            Some(i) => {
                let fb = self.fallback[i].addrs.clone();
                proof {
                    assert forall|k: int|
                        0 <= k < fb@.len() implies fb@[k] == self.fallback@[
                        i as int
                    ].addrs@[k] by {
                        assert(vstd::pervasive::cloned::<u32>(
                            self.fallback@[i as int].addrs@[k],
                            fb@[k],
                        ));
                    }
                    assert(fb@ =~= self.fallback@[i as int].addrs@);
                }
                Ok(fb)
            },
            None => Err(ResolutionError),
        }
    }

    /// What answering from the fallback table means: the configured
    /// static list when one exists for this hostname, and a resolution
    /// error otherwise.
    pub open spec fn spec_fallback_answer(
        &self,
        h: Seq<char>,
        r: Result<Vec<u32>, ResolutionError>,
    ) -> bool {
        if exists|i: int| 0 <= i < self.fallback@.len() && (#[trigger] self.fallback@[i]).hostname@
            == h {
            exists|i: int|
                0 <= i < self.fallback@.len() && (#[trigger] self.fallback@[i]).hostname@ == h && (
                r matches Ok(v) && v@ == self.fallback@[i].addrs@)
        } else {
            r is Err
        }
    }

    /// A network-change signal: drop every cached resolution at once.
    /// The static fallback table survives.
    pub fn invalidate_all(&mut self)
        requires
            old(self).wf(),
        ensures
            final(self).wf(),
            final(self).cache@.len() == 0,
            final(self).fallback == old(self).fallback,
            forall|h: Seq<char>| !final(self).spec_cached(h),
    {
        self.cache = Vec::new();
    }

    /// Record that `addr` carried a working connection for `hostname`,
    /// so later attempts can try it first. The marker is set on exactly
    /// the cache entry for this hostname, and only when that entry's
    /// address set holds `addr`; unknown hostnames and addresses leave
    /// every marker as it was.
    pub fn mark_last_good(&mut self, hostname: &String, addr: u32)
        requires
            old(self).wf(),
        ensures
            final(self).wf(),
            final(self).fallback == old(self).fallback,
            final(self).cache@.len() == old(self).cache@.len(),
            forall|i: int|
                0 <= i < final(self).cache@.len() ==> (#[trigger] final(self).cache@[i]).hostname@
                    == old(self).cache@[i].hostname@ && final(self).cache@[i].addresses.addrs@
                    == old(self).cache@[i].addresses.addrs@,
            forall|i: int|
                0 <= i < final(self).cache@.len() ==> (#[trigger] final(self).cache@[i]).addresses.last_good == (if old(self).cache@[i].hostname@ == hostname@
                    && old(self).cache@[i].addresses.addrs@.contains(addr) {
                    Some(addr)
                } else {
                    old(self).cache@[i].addresses.last_good
                }),
    {
        let found = self.find_cached(hostname);
        match found {
            Some(i) => {
                let mut has = false;
                let n = self.cache[i].addresses.addrs.len();
                let mut k: usize = 0;
                while k < n
                    invariant
                        i < self.cache@.len(),
                        n == self.cache@[i as int].addresses.addrs@.len(),
                        k <= n,
                        has == exists|m: int|
                            0 <= m < k && self.cache@[i as int].addresses.addrs@[m] == addr,
                    decreases n - k,
                {
                    if self.cache[i].addresses.addrs[k] == addr {
                        has = true;
                    }
                    k = k + 1;
                }
                if has {
                    let ghost pre = self.cache@;
                    let host_copy = self.cache[i].hostname.clone();
                    let addrs_copy = self.cache[i].addresses.addrs.clone();
                    proof {
                        assert forall|k: int|
                            0 <= k < addrs_copy@.len() implies addrs_copy@[k] == pre[
                            i as int
                        ].addresses.addrs@[k] by {
                            assert(vstd::pervasive::cloned::<u32>(
                                pre[i as int].addresses.addrs@[k],
                                addrs_copy@[k],
                            ));
                        }
                        assert(addrs_copy@ =~= pre[i as int].addresses.addrs@);
                        assert(addrs_copy@.contains(addr));
                    }
                    let entry = CacheEntry {
                        hostname: host_copy,
                        addresses: AddressSet { addrs: addrs_copy, last_good: Some(addr) },
                    };
                    self.cache.set(i, entry);
                    proof {
                        assert forall|j: int|
                            0 <= j < self.cache@.len() && j != i as int implies old(self).cache@[j].hostname@ != hostname@ by {
                            assert(old(self).cache@[i as int].hostname@ == hostname@);
                        }
                    }
                } else {
                    proof {
                        assert(!self.cache@[i as int].addresses.addrs@.contains(addr)) by {
                            if self.cache@[i as int].addresses.addrs@.contains(addr) {
                                let m = choose|m: int|
                                    0 <= m < self.cache@[i as int].addresses.addrs@.len()
                                        && self.cache@[i as int].addresses.addrs@[m] == addr;
                            }
                        }
                        assert forall|j: int|
                            0 <= j < self.cache@.len() && j != i as int implies self.cache@[
                            j
                        ].hostname@ != hostname@ by {
                            assert(self.cache@[i as int].hostname@ == hostname@);
                        }
                    }
                }
            },
            None => {
                proof {
                    assert forall|j: int|
                        0 <= j < self.cache@.len() implies self.cache@[j].hostname@
                        != hostname@ by {
                        if self.cache@[j].hostname@ == hostname@ {
                            assert(self.spec_cached(hostname@));
                        }
                    }
                }
            },
        }
    }
}

/// Only `localhost` and hostnames under the service's own domain are
/// written to logs unchanged.
pub open spec fn spec_is_log_safe(d: Seq<u8>) -> bool {
    ||| d =~= spec_localhost_bytes()
    ||| (d.len() >= 12 && d.subrange(d.len() - 12, d.len() as int) =~= spec_zonarosa_suffix())
}

/// The bytes of `localhost`.
pub open spec fn spec_localhost_bytes() -> Seq<u8> {
    seq![108u8, 111u8, 99u8, 97u8, 108u8, 104u8, 111u8, 115u8, 116u8]
}

/// The bytes of the service's own domain suffix, `.zonarosa.io`.
pub open spec fn spec_zonarosa_suffix() -> Seq<u8> {
    seq![46u8, 122u8, 111u8, 110u8, 97u8, 114u8, 111u8, 115u8, 97u8, 46u8, 105u8, 111u8]
}

/// A hostname that is safe to write to a log.
///
/// `localhost` and hostnames under the service's own domain pass
/// through; anything else — user-entered proxy hosts in particular — is
/// replaced by a fixed placeholder so logs never leak it.
pub fn log_safe_domain<'a>(domain: &'a str) -> (r: &'a str)
    ensures
        spec_is_log_safe(domain.spec_bytes()) ==> r@ == domain@,
        !spec_is_log_safe(domain.spec_bytes()) ==> r@ == "REDACTED"@,
{
    let b = domain.as_bytes();
    let n = b.len();
    let is_localhost = n == 9 && b[0] == 108 && b[1] == 111 && b[2] == 99 && b[3] == 97 && b[4]
        == 108 && b[5] == 104 && b[6] == 111 && b[7] == 115 && b[8] == 116;
    proof {
        if is_localhost {
            assert(b@ =~= spec_localhost_bytes());
        } else {
            assert(!(b@ =~= spec_localhost_bytes()));
        }
    }
    let has_suffix = n >= 12 && b[n - 12] == 46 && b[n - 11] == 122 && b[n - 10] == 111 && b[n - 9]
        == 110 && b[n - 8] == 97 && b[n - 7] == 114 && b[n - 6] == 111 && b[n - 5] == 115 && b[n
        - 4] == 97 && b[n - 3] == 46 && b[n - 2] == 105 && b[n - 1] == 111;
    proof {
        if n >= 12 {
            let tail = b@.subrange(n - 12, n as int);
            assert(tail[0] == b@[n - 12]);
            assert(tail[1] == b@[n - 11]);
            assert(tail[2] == b@[n - 10]);
            assert(tail[3] == b@[n - 9]);
            assert(tail[4] == b@[n - 8]);
            assert(tail[5] == b@[n - 7]);
            assert(tail[6] == b@[n - 6]);
            assert(tail[7] == b@[n - 5]);
            assert(tail[8] == b@[n - 4]);
            assert(tail[9] == b@[n - 3]);
            assert(tail[10] == b@[n - 2]);
            assert(tail[11] == b@[n - 1]);
            if has_suffix {
                assert(tail =~= spec_zonarosa_suffix());
            } else {
                assert(!(tail =~= spec_zonarosa_suffix()));
            }
        }
    }
    if is_localhost || has_suffix {
        domain
    } else {
        "REDACTED"
    }
}

} // verus!
