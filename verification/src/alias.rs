//! Cache-aside alias resolution.
//!
//! Maps sender pubkey hex to the alias the directory returned. A resolve
//! checks the cache first; only a miss issues the directory query (built
//! by [`alias_query_body`], sent by the surrounding process), and only a
//! successful answer is recorded — failures are never cached, so a later
//! resolve for the same pubkey retries. Entries live for the process
//! lifetime and are never evicted.

use vstd::prelude::*;
use vstd::string::StrSliceExecFns;
use vstd::string::StringSliceAdditionalSpecFns;

use crate::format::append_bytes;

verus! {

/// Alias directory cache: pubkey hex bytes to alias bytes, last write
/// winning.
pub struct AliasCache {
    entries: Vec<(Vec<u8>, Vec<u8>)>,
}

/// The mapping a list of recorded answers denotes: each record inserted
/// in order, so of duplicate keys the last write wins.
pub open spec fn spec_entries_map(s: Seq<(Vec<u8>, Vec<u8>)>) -> Map<Seq<u8>, Seq<u8>>
    decreases s.len(),
{
    if s.len() == 0 {
        Map::empty()
    } else {
        spec_entries_map(s.drop_last()).insert(s.last().0@, s.last().1@)
    }
}

proof fn lemma_entries_map_found(s: Seq<(Vec<u8>, Vec<u8>)>, k: Seq<u8>, i: int)
    requires
        0 <= i < s.len(),
        s[i].0@ == k,
        forall|m: int| i < m < s.len() ==> (#[trigger] s[m]).0@ != k,
    ensures
        spec_entries_map(s).contains_key(k),
        spec_entries_map(s)[k] == s[i].1@,
    decreases s.len(),
{
    if i < s.len() - 1 {
        lemma_entries_map_found(s.drop_last(), k, i);
    }
}

proof fn lemma_entries_map_absent(s: Seq<(Vec<u8>, Vec<u8>)>, k: Seq<u8>)
    requires
        forall|m: int| 0 <= m < s.len() ==> (#[trigger] s[m]).0@ != k,
    ensures
        !spec_entries_map(s).contains_key(k),
    decreases s.len(),
{
    if s.len() > 0 {
        lemma_entries_map_absent(s.drop_last(), k);
    }
}

impl View for AliasCache {
    type V = Map<Seq<u8>, Seq<u8>>;

    closed spec fn view(&self) -> Map<Seq<u8>, Seq<u8>> {
        spec_entries_map(self.entries@)
    }
}

fn bytes_eq(a: &Vec<u8>, b: &Vec<u8>) -> (r: bool)
    ensures
        r <==> a@ == b@,
{
    if a.len() != b.len() {
        proof {
            assert(a@.len() != b@.len());
        }
        return false;
    }
    let n = a.len();
    let mut i: usize = 0;
    while i < n
        invariant
            n == a@.len() == b@.len(),
            0 <= i <= n,
            forall|k: int| 0 <= k < i ==> a@[k] == b@[k],
        decreases n - i,
    {
        if a[i] != b[i] {
            return false;
        }
        i = i + 1;
    }
    proof {
        assert(a@ =~= b@);
    }
    true
}

impl AliasCache {
    /// An empty cache: no pubkey resolves from it.
    pub fn new() -> (c: AliasCache)
        ensures
            c@ == Map::<Seq<u8>, Seq<u8>>::empty(),
    {
        AliasCache { entries: Vec::new() }
    }

    /// The cache-first step of a resolve: the recorded alias for `pk`, or
    /// `None` when the pubkey was never recorded — only then does the
    /// caller query the directory.
    pub fn lookup(&self, pk: &Vec<u8>) -> (r: Option<&Vec<u8>>)
        ensures
            r is Some <==> self@.contains_key(pk@),
            r is Some ==> r.unwrap()@ == self@[pk@],
    {
        let n = self.entries.len();
        let mut i: usize = n;
        while i > 0
            invariant
                n == self.entries@.len(),
                0 <= i <= n,
                forall|m: int| i <= m < n ==> (#[trigger] self.entries@[m]).0@ != pk@,
            decreases i,
        {
            i = i - 1;
            if bytes_eq(&self.entries[i].0, pk) {
                proof {
                    lemma_entries_map_found(self.entries@, pk@, i as int);
                }
                return Some(&self.entries[i].1);
            }
        }
        proof {
            lemma_entries_map_absent(self.entries@, pk@);
        }
        None
    }

    /// Records a successful directory answer. The caller never records a
    /// failed lookup, so failures stay retryable.
    pub fn record(&mut self, pk: Vec<u8>, alias: Vec<u8>)
        ensures
            final(self)@ == old(self)@.insert(pk@, alias@),
    {
        let ghost pre = self.entries@;
        self.entries.push((pk, alias));
        proof {
            assert(self.entries@.drop_last() =~= pre);
        }
    }
}

/// Law: once a resolve has recorded the directory's answer for a pubkey,
/// that pubkey resolves from the cache — a later resolve with an unchanged
/// directory takes the hit path and issues no further query.
pub proof fn lemma_recorded_pubkey_resolves_cached(
    m: Map<Seq<u8>, Seq<u8>>,
    pk: Seq<u8>,
    alias: Seq<u8>,
)
    ensures
        m.insert(pk, alias).contains_key(pk),
        m.insert(pk, alias)[pk] == alias,
{
}

/// The directory request naming a pubkey: a JSON object holding the one
/// query string the alias directory answers.
pub open spec fn spec_query_body(pk: Seq<u8>) -> Seq<u8> {
    "{\"query\":\"query{getNodeAlias(pubkey:\\\"".spec_bytes() + pk + "\\\")}\"}".spec_bytes()
}

/// Builds the alias-directory request body for a pubkey.
pub fn alias_query_body(pk: &Vec<u8>) -> (out: Vec<u8>)
    ensures
        out@ == spec_query_body(pk@),
{
    let mut out = "{\"query\":\"query{getNodeAlias(pubkey:\\\"".as_bytes_vec();
    append_bytes(&mut out, pk);
    let tail = "\\\")}\"}".as_bytes_vec();
    append_bytes(&mut out, &tail);
    out
}

} // verus!
