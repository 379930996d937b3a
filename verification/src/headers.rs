//! Header lists and the request settings bundle.
//!
//! A header list never holds two entries under one name; every mutation goes
//! through [`set_header`], which replaces in place. Settings are replaced or
//! patched wholesale by the holder of the client; each request reads a
//! snapshot at send time.

use vstd::prelude::*;

use crate::strutil::str_eq;

verus! {

/// One header: a name and a value. Names are compared exactly as given; an
/// embedder that takes headers from a transport normalizes their case first.
#[derive(Debug, Clone)]
pub struct Header {
    pub name: String,
    pub value: String,
}

/// Whether no two entries of the list share a name.
pub open spec fn names_unique(hs: Seq<Header>) -> bool {
    forall|i: int, j: int| 0 <= i < j < hs.len() ==> hs[i].name@ != hs[j].name@
}

/// Whether the list holds an entry under this name.
pub open spec fn has_header(hs: Seq<Header>, name: Seq<char>) -> bool {
    exists|i: int| 0 <= i < hs.len() && hs[i].name@ == name
}

/// The value the list holds under this name (meaningful when
/// [`has_header`] holds and the names are unique).
pub open spec fn header_value(hs: Seq<Header>, name: Seq<char>) -> Seq<char> {
    hs[choose|i: int| 0 <= i < hs.len() && hs[i].name@ == name].value@
}

/// The value under this name, or `None` when the list has no such entry.
pub open spec fn header_lookup(hs: Seq<Header>, name: Seq<char>) -> Option<Seq<char>> {
    if has_header(hs, name) {
        Some(header_value(hs, name))
    } else {
        None
    }
}

/// Look a header up by name; returns the value of the entry under `name`.
pub fn get_header<'a>(hs: &'a Vec<Header>, name: &str) -> (r: Option<&'a String>)
    requires
        names_unique(hs@),
    ensures
        match r {
            Some(v) => header_lookup(hs@, name@) == Some(v@),
            None => header_lookup(hs@, name@) is None,
        },
{
    let n = hs.len();
    for i in 0..n
        invariant
            n == hs.len(),
            names_unique(hs@),
            forall|j: int| 0 <= j < i ==> hs@[j].name@ != name@,
    {
        if str_eq(hs[i].name.as_str(), name) {
            proof {
                let w = choose|k: int| 0 <= k < hs@.len() && hs@[k].name@ == name@;
                assert(w == i);
            }
            return Some(&hs[i].value);
        }
    }
    None
}

/// Set a header: replace the value of the entry under `name` in place, or
/// append a new entry when none exists. Entries under other names keep their
/// values; no duplicate name is ever introduced.
pub fn set_header(hs: &mut Vec<Header>, name: String, value: String)
    requires
        names_unique(old(hs)@),
    ensures
        names_unique(final(hs)@),
        header_lookup(final(hs)@, name@) == Some(value@),
        forall|n: Seq<char>| n != name@ ==> header_lookup(final(hs)@, n) == header_lookup(
            old(hs)@,
            n,
        ),
{
    let n = hs.len();
    for i in 0..n
        invariant
            n == hs.len(),
            hs@ == old(hs)@,
            names_unique(hs@),
            forall|j: int| 0 <= j < i ==> hs@[j].name@ != name@,
    {
        if str_eq(hs[i].name.as_str(), name.as_str()) {
            let replaced = Header { name, value };
            hs.set(i, replaced);
            proof {
                assert(hs@[i as int].name@ == name@);
                assert forall|k: int| 0 <= k < hs@.len() && hs@[k].name@ == name@ implies k
                    == i by {
                    if k != i {
                        assert(old(hs)@[k].name@ == name@);
                        assert(old(hs)@[i as int].name@ == name@);
                    }
                }
                let w = choose|k: int| 0 <= k < hs@.len() && hs@[k].name@ == name@;
                assert(w == i);
                assert(header_lookup(hs@, name@) == Some(value@));
                assert forall|m: Seq<char>| m != name@ implies header_lookup(hs@, m)
                    == header_lookup(old(hs)@, m) by {
                    lemma_lookup_after_update(old(hs)@, hs@, i as int, m);
                }
            }
            return ;
        }
    }
    let appended = Header { name, value };
    hs.push(appended);
    proof {
        let last = hs@.len() - 1;
        assert(hs@[last].name@ == name@);
        assert forall|k: int| 0 <= k < hs@.len() && hs@[k].name@ == name@ implies k == last by {}
        assert forall|m: Seq<char>| m != name@ implies header_lookup(hs@, m) == header_lookup(
            old(hs)@,
            m,
        ) by {
            lemma_lookup_after_push(old(hs)@, hs@, m);
        }
    }
}

/// Two equal-length lists that agree everywhere but at one index, where both
/// names agree as well, give the same lookup for every other name.
proof fn lemma_lookup_after_update(pre: Seq<Header>, post: Seq<Header>, i: int, m: Seq<char>)
    requires
        names_unique(pre),
        pre.len() == post.len(),
        0 <= i < pre.len(),
        forall|k: int| 0 <= k < pre.len() && k != i ==> post[k] == pre[k],
        post[i].name@ == pre[i].name@,
        m != pre[i].name@,
    ensures
        header_lookup(post, m) == header_lookup(pre, m),
{
    assert(forall|k: int| 0 <= k < pre.len() ==> post[k].name@ == pre[k].name@);
    if has_header(pre, m) {
        let w = choose|k: int| 0 <= k < pre.len() && pre[k].name@ == m;
        assert(post[w].name@ == m);
        let w2 = choose|k: int| 0 <= k < post.len() && post[k].name@ == m;
        assert(pre[w2].name@ == m);
        assert(w == w2) by {
            if w != w2 {
                assert(pre[w].name@ == pre[w2].name@);
            }
        }
        assert(w2 != i);
        assert(post[w2] == pre[w2]);
    } else {
        assert(!has_header(post, m));
    }
}

/// Appending an entry leaves the lookup of every other name unchanged.
proof fn lemma_lookup_after_push(pre: Seq<Header>, post: Seq<Header>, m: Seq<char>)
    requires
        names_unique(pre),
        post.len() == pre.len() + 1,
        forall|k: int| 0 <= k < pre.len() ==> post[k] == pre[k],
        m != post[pre.len() as int].name@,
    ensures
        header_lookup(post, m) == header_lookup(pre, m),
{
    if has_header(pre, m) {
        let w = choose|k: int| 0 <= k < pre.len() && pre[k].name@ == m;
        assert(post[w].name@ == m);
        let w2 = choose|k: int| 0 <= k < post.len() && post[k].name@ == m;
        assert(w2 < pre.len());
        assert(pre[w2].name@ == m);
        assert(w == w2) by {
            if w != w2 {
                assert(pre[w].name@ == pre[w2].name@);
            }
        }
        assert(post[w2] == pre[w2]);
    } else {
        if has_header(post, m) {
            let w = choose|k: int| 0 <= k < post.len() && post[k].name@ == m;
            assert(w == pre.len());
        }
        assert(!has_header(post, m));
    }
}

/// The retry policy and default headers that every request reads at send
/// time. Replaced or merged wholesale by the holder of the client.
#[derive(Debug, Clone)]
pub struct RequestSettings {
    /// Default headers attached to every request; may carry a cached
    /// authorization value.
    pub headers: Vec<Header>,
    /// How many transport-level retries follow a failed send attempt.
    pub max_retries: u32,
    /// The base delay between transport-level retries, in milliseconds; the
    /// delay before retry k is `base_delay_ms * (k + 1)`, saturated.
    pub base_delay_ms: u64,
}

impl RequestSettings {
    /// Well-formedness: no duplicate header names.
    pub open spec fn wf(&self) -> bool {
        names_unique(self.headers@)
    }

    /// Settings with no default headers and no transport retries.
    pub fn new() -> (r: RequestSettings)
        ensures
            r.wf(),
            r.headers@.len() == 0,
            r.max_retries == 0,
            r.base_delay_ms == 0,
    {
        RequestSettings { headers: Vec::new(), max_retries: 0, base_delay_ms: 0 }
    }

    /// Return these settings with the header set (replaced or added).
    pub fn header(self, name: String, value: String) -> (r: RequestSettings)
        requires
            self.wf(),
        ensures
            r.wf(),
            header_lookup(r.headers@, name@) == Some(value@),
            forall|n: Seq<char>| n != name@ ==> header_lookup(r.headers@, n) == header_lookup(
                self.headers@,
                n,
            ),
            r.max_retries == self.max_retries,
            r.base_delay_ms == self.base_delay_ms,
    {
        let mut s = self;
        set_header(&mut s.headers, name, value);
        s
    }

    /// Return these settings with the retry policy set.
    pub fn retry_policy(self, max_retries: u32, base_delay_ms: u64) -> (r: RequestSettings)
        ensures
            r.headers == self.headers,
            r.max_retries == max_retries,
            r.base_delay_ms == base_delay_ms,
    {
        RequestSettings { max_retries, base_delay_ms, ..self }
    }

    /// Whether a failed send attempt number `attempt` (counting from 0) may
    /// be followed by another transport-level attempt.
    pub fn retry_allowed(&self, attempt: u32) -> (r: bool)
        ensures
            r == (attempt < self.max_retries),
    {
        attempt < self.max_retries
    }

    /// The delay before transport-level retry `attempt`, in milliseconds:
    /// `base_delay_ms * (attempt + 1)`, saturated at the largest value.
    pub fn backoff_delay_ms(&self, attempt: u32) -> (r: u64)
        ensures
            r == spec_backoff(self.base_delay_ms, attempt),
    {
        match self.base_delay_ms.checked_mul(attempt as u64 + 1) {
            Some(d) => d,
            None => u64::MAX,
        }
    }
}

/// Whether two settings bundles carry the same values.
pub open spec fn settings_eq(a: RequestSettings, b: RequestSettings) -> bool {
    &&& a.headers@.len() == b.headers@.len()
    &&& (forall|i: int|
        0 <= i < a.headers@.len() ==> a.headers@[i].name@ == (#[trigger] b.headers@[i]).name@
            && a.headers@[i].value@ == b.headers@[i].value@)
    &&& a.max_retries == b.max_retries
    &&& a.base_delay_ms == b.base_delay_ms
}

/// An atomic change to the settings: headers to set, applied in order
/// (a later entry under the same name wins), and optionally a new retry
/// policy. Merging through a patch is the only race-free way to change
/// settings that other callers read concurrently.
#[derive(Debug, Clone)]
pub struct SettingsPatch {
    /// Headers to set, in order.
    pub set_headers: Vec<Header>,
    /// The new retry policy, when the patch changes it.
    pub retry: Option<(u32, u64)>,
}

/// What a patch's header list says about a name: the value of the last
/// entry under it, or nothing.
pub open spec fn patch_lookup(patch: Seq<Header>, name: Seq<char>) -> Option<Seq<char>>
    decreases patch.len(),
{
    if patch.len() == 0 {
        None
    } else if patch.last().name@ == name {
        Some(patch.last().value@)
    } else {
        patch_lookup(patch.drop_last(), name)
    }
}

impl RequestSettings {
    /// Copy these settings, value for value: the snapshot a request reads
    /// at send time.
    pub fn snapshot(&self) -> (r: RequestSettings)
        requires
            self.wf(),
        ensures
            r.wf(),
            settings_eq(r, *self),
    {
        let mut headers: Vec<Header> = Vec::new();
        let n = self.headers.len();
        for i in 0..n
            invariant
                n == self.headers.len(),
                self.wf(),
                headers@.len() == i,
                forall|j: int|
                    0 <= j < i ==> headers@[j].name@ == (#[trigger] self.headers@[j]).name@
                        && headers@[j].value@ == self.headers@[j].value@,
        {
            let h = Header {
                name: self.headers[i].name.clone(),
                value: self.headers[i].value.clone(),
            };
            headers.push(h);
        }
        proof {
            assert forall|i: int, j: int| 0 <= i < j < headers@.len() implies headers@[i].name@
                != headers@[j].name@ by {
            assert(self.headers@[i].name@ != self.headers@[j].name@);
            }
        }
        RequestSettings {
            headers,
            max_retries: self.max_retries,
            base_delay_ms: self.base_delay_ms,
        }
    }

    /// Merge a patch into these settings: set each of its headers in
    /// order, and install its retry policy when it carries one. This is
    /// the race-free read-modify-write of settings; the holder applies it
    /// under its lock.
    pub fn apply_patch(&mut self, patch: &SettingsPatch)
        requires
            old(self).wf(),
        ensures
            final(self).wf(),
            forall|n: Seq<char>|
                header_lookup(final(self).headers@, n) == match patch_lookup(
                    patch.set_headers@,
                    n,
                ) {
                    Some(v) => Some(v),
                    None => header_lookup(old(self).headers@, n),
                },
            match patch.retry {
                Some((retries, delay)) => final(self).max_retries == retries
                    && final(self).base_delay_ms == delay,
                None => final(self).max_retries == old(self).max_retries
                    && final(self).base_delay_ms == old(self).base_delay_ms,
            },
    {
        let n = patch.set_headers.len();
        for i in 0..n
            invariant
                n == patch.set_headers.len(),
                self.wf(),
                self.max_retries == old(self).max_retries,
                self.base_delay_ms == old(self).base_delay_ms,
                forall|m: Seq<char>|
                    header_lookup(self.headers@, m) == match patch_lookup(
                        patch.set_headers@.take(i as int),
                        m,
                    ) {
                        Some(v) => Some(v),
                        None => header_lookup(old(self).headers@, m),
                    },
        {
            let h = &patch.set_headers[i];
            set_header(&mut self.headers, h.name.clone(), h.value.clone());
            proof {
                assert forall|m: Seq<char>| #![all_triggers] true implies header_lookup(
                    self.headers@,
                    m,
                ) == match patch_lookup(patch.set_headers@.take(i + 1), m) {
                    Some(v) => Some(v),
                    None => header_lookup(old(self).headers@, m),
                } by {
                    assert(patch.set_headers@.take(i + 1).drop_last() =~= patch.set_headers@.take(
                        i as int,
                    ));
                    assert(patch.set_headers@.take(i + 1).last() == patch.set_headers@[i as int]);
                }
            }
        }
        proof {
            assert(patch.set_headers@.take(n as int) =~= patch.set_headers@);
        }
        match patch.retry {
            Some((retries, delay)) => {
                self.max_retries = retries;
                self.base_delay_ms = delay;
            },
            None => {},
        }
    }
}

/// The linear backoff delay: `base * (attempt + 1)`, saturated.
pub open spec fn spec_backoff(base: u64, attempt: u32) -> u64 {
    if base * (attempt + 1) > u64::MAX {
        u64::MAX
    } else {
        (base * (attempt + 1)) as u64
    }
}

} // verus!
