//! The query-parameter multimap: an ordered list of key/value pairs.
//!
//! Keys need not be unique and insertion order is preserved; the
//! [`crate::endpoint::Endpoint::url`] step percent-encodes the pairs
//! into the query string.

use std::collections::HashMap;
use vstd::prelude::*;
use vstd::string::StringExecFns;

verus! {

/// One query parameter: a key and a value.
#[derive(Clone, PartialEq, Eq, Debug)]
pub struct QueryParamPair {
    pub key: String,
    pub value: String,
}

/// The mathematical value of a [`QueryParamPair`].
pub struct QueryParamPairView {
    pub key: Seq<char>,
    pub value: Seq<char>,
}

impl View for QueryParamPair {
    type V = QueryParamPairView;

    open spec fn view(&self) -> QueryParamPairView {
        QueryParamPairView { key: self.key@, value: self.value@ }
    }
}

impl QueryParamPair {
    pub fn new(key: String, value: String) -> (r: Self)
        ensures
            r@.key == key@,
            r@.value == value@,
    {
        QueryParamPair { key, value }
    }
}

impl From<(String, String)> for QueryParamPair {
    fn from(pair: (String, String)) -> (r: Self) {
        QueryParamPair { key: pair.0, value: pair.1 }
    }
}

impl vstd::std_specs::convert::FromSpecImpl<(String, String)> for QueryParamPair {
    open spec fn obeys_from_spec() -> bool {
        true
    }

    open spec fn from_spec(pair: (String, String)) -> Self {
        QueryParamPair { key: pair.0, value: pair.1 }
    }
}

/// An ordered collection of query parameters.
#[derive(Clone, PartialEq, Eq, Debug)]
pub struct QueryParamPairs(pub Vec<QueryParamPair>);

impl View for QueryParamPairs {
    type V = Seq<QueryParamPairView>;

    open spec fn view(&self) -> Seq<QueryParamPairView> {
        self.0@.map_values(|p: QueryParamPair| p@)
    }
}

impl Default for QueryParamPairs {
    /// The default collection is empty.
    fn default() -> (r: Self)
        ensures
            r@ == Seq::<QueryParamPairView>::empty(),
    {
        QueryParamPairs(Vec::new())
    }
}

impl From<Vec<QueryParamPair>> for QueryParamPairs {
    fn from(pairs: Vec<QueryParamPair>) -> (r: Self) {
        QueryParamPairs(pairs)
    }
}

impl vstd::std_specs::convert::FromSpecImpl<Vec<QueryParamPair>> for QueryParamPairs {
    open spec fn obeys_from_spec() -> bool {
        true
    }

    open spec fn from_spec(pairs: Vec<QueryParamPair>) -> Self {
        QueryParamPairs(pairs)
    }
}

/// Relies on std's `HashMap` iteration (`into_iter`, collected): it
/// yields each entry of the map exactly once, in no fixed order.
#[verifier::external_body]
fn hash_map_entries(map: HashMap<String, String>) -> (r: Vec<(String, String)>)
    ensures
        r@.len() == map@.dom().len(),
        forall|i: int|
            0 <= i < r@.len() ==> map@.contains_key((#[trigger] r@[i]).0) && map@[r@[i].0]
                == r@[i].1,
        forall|k: String|
            #[trigger] map@.contains_key(k) ==> exists|i: int|
                0 <= i < r@.len() && (#[trigger] r@[i]) == (k, map@[k]),
        forall|i: int, j: int| 0 <= i < j < r@.len() ==> r@[i].0 != r@[j].0,
{
    map.into_iter().collect()
}

/// Lexicographic order on text, by code point: the order `String`'s
/// own comparison gives (comparing UTF-8 bytes preserves code-point
/// order).
pub open spec fn spec_text_le(a: Seq<char>, b: Seq<char>) -> bool
    decreases a.len(),
{
    if a.len() == 0 {
        true
    } else if b.len() == 0 {
        false
    } else if a[0] != b[0] {
        (a[0] as u32) < (b[0] as u32)
    } else {
        spec_text_le(a.drop_first(), b.drop_first())
    }
}

/// Relies on std's slice `sort_by` with `String`'s comparison: it
/// reorders the pairs without adding or losing any, and leaves them
/// sorted by key in lexicographic order.
#[verifier::external_body]
fn sort_pairs_by_key(pairs: &mut Vec<(String, String)>)
    ensures
        final(pairs)@.to_multiset() == old(pairs)@.to_multiset(),
        forall|i: int, j: int|
            0 <= i < j < final(pairs)@.len() ==> spec_text_le(
                (#[trigger] final(pairs)@[i]).0@,
                (#[trigger] final(pairs)@[j]).0@,
            ),
{
    pairs.sort_by(|a, b| a.0.cmp(&b.0));
}

/// The key under which one entry of a named map of parameters is sent:
/// the map's name followed by the entry's key in brackets.
pub open spec fn spec_map_param_key(name: Seq<char>, key: Seq<char>) -> Seq<char> {
    name + seq!['['] + key + seq![']']
}

/// True when the pair carries one entry of the named map `m`: its key is
/// [`spec_map_param_key`] of some key of `m` and its value is that
/// entry's value.
pub open spec fn spec_is_map_entry(
    p: QueryParamPairView,
    name: Seq<char>,
    m: Map<String, String>,
) -> bool {
    exists|k: String|
        #![trigger m.dom().contains(k)]
        m.contains_key(k) && p.key == spec_map_param_key(name, k@) && p.value == m[k]@
}

/// True when two pairs carry entries of the named map `m` whose keys
/// are in ascending lexicographic order.
pub open spec fn spec_map_entries_ordered(
    p: QueryParamPairView,
    q: QueryParamPairView,
    name: Seq<char>,
    m: Map<String, String>,
) -> bool {
    exists|kp: String, kq: String|
        #![trigger m.dom().contains(kp), m.dom().contains(kq)]
        m.contains_key(kp) && m.contains_key(kq) && p.key == spec_map_param_key(name, kp@)
            && p.value == m[kp]@ && q.key == spec_map_param_key(name, kq@) && q.value == m[kq]@
            && spec_text_le(kp@, kq@)
}

impl QueryParamPairs {
    /// Moves every pair of `other` to the end of `self`, keeping order.
    pub fn append(&mut self, other: QueryParamPairs)
        ensures
            final(self)@ == old(self)@ + other@,
    {
        let ghost before = self@;
        let ghost added = other@;
        let mut from = other.0;
        self.0.append(&mut from);
        proof {
            assert(self@ =~= before + added);
        }
    }

    /// Adds one pair at the end.
    pub fn push(&mut self, value: QueryParamPair)
        ensures
            final(self)@ == old(self)@.push(value@),
    {
        let ghost before = self@;
        let ghost added = value@;
        self.0.push(value);
        proof {
            assert(self@ =~= before.push(added));
        }
    }

    /// Adds one pair for every entry of a named map of parameters, as
    /// `name[key]=value`, sorted by key: the outcome depends on the
    /// map's entries alone, never on its iteration order.
    pub fn push_hashmap(&mut self, name: &str, value: HashMap<String, String>)
        ensures
            final(self)@.len() == old(self)@.len() + value@.dom().len(),
            final(self)@.subrange(0, old(self)@.len() as int) == old(self)@,
            forall|i: int|
                #![trigger final(self)@[i]]
                old(self)@.len() <= i < final(self)@.len() ==> spec_is_map_entry(
                    final(self)@[i],
                    name@,
                    value@,
                ),
            forall|i: int, j: int|
                #![trigger final(self)@[i], final(self)@[j]]
                old(self)@.len() <= i < j < final(self)@.len() ==> spec_map_entries_ordered(
                    final(self)@[i],
                    final(self)@[j],
                    name@,
                    value@,
                ),
            forall|k: String|
                #[trigger] value@.contains_key(k) ==> exists|i: int|
                    old(self)@.len() <= i < final(self)@.len() && (#[trigger] final(self)@[i]).key
                        == spec_map_param_key(name@, k@) && final(self)@[i].value == value@[k]@,
    {
        broadcast use vstd::seq_lib::group_to_multiset_ensures;

        let ghost m = value@;
        let mut entries = hash_map_entries(value);
        let ghost unsorted = entries@;
        sort_pairs_by_key(&mut entries);
        proof {
            assert forall|i: int| 0 <= i < entries@.len() implies m.contains_key(
                (#[trigger] entries@[i]).0,
            ) && m[entries@[i].0] == entries@[i].1 by {
                assert(entries@.contains(entries@[i]));
                assert(entries@.to_multiset().count(entries@[i]) > 0);
                assert(unsorted.to_multiset().count(entries@[i]) > 0);
                assert(unsorted.contains(entries@[i]));
                let j = choose|j: int| 0 <= j < unsorted.len() && unsorted[j] == entries@[i];
                assert(m.contains_key(unsorted[j].0) && m[unsorted[j].0] == unsorted[j].1);
            }
            assert forall|k: String| #[trigger] m.contains_key(k) implies exists|i: int|
                0 <= i < entries@.len() && (#[trigger] entries@[i]) == (k, m[k]) by {
                assert(unsorted.contains((k, m[k])));
                assert(unsorted.to_multiset().count((k, m[k])) > 0);
                assert(entries@.to_multiset().count((k, m[k])) > 0);
                assert(entries@.contains((k, m[k])));
            }
            assert(entries@.to_multiset().len() == unsorted.to_multiset().len());
            assert(entries@.len() == m.dom().len());
        }
        let ghost sorted = entries@;
        let ghost before = self@;
        let n = entries.len();
        let mut i: usize = 0;
        while i < n
            invariant
                n == sorted.len(),
                i <= n,
                entries@ == sorted,
                self@.len() == before.len() + i,
                self@.subrange(0, before.len() as int) == before,
                forall|j: int|
                    0 <= j < i ==> (#[trigger] self@[before.len() + j]).key == spec_map_param_key(
                        name@,
                        sorted[j].0@,
                    ) && self@[before.len() + j].value == sorted[j].1@,
                forall|j: int|
                    0 <= j < sorted.len() ==> m.contains_key((#[trigger] sorted[j]).0)
                        && m[sorted[j].0] == sorted[j].1,
                forall|k: String|
                    #[trigger] m.contains_key(k) ==> exists|j: int|
                        0 <= j < sorted.len() && (#[trigger] sorted[j]) == (k, m[k]),
                m.dom().len() == sorted.len(),
                forall|p: int, q: int|
                    0 <= p < q < sorted.len() ==> spec_text_le(
                        (#[trigger] sorted[p]).0@,
                        (#[trigger] sorted[q]).0@,
                    ),
            decreases n - i,
        {
            let ghost old_view = self@;
            let k = entries[i].0.clone();
            let v = entries[i].1.clone();
            let mut key = String::from_str(name);
            key.append("[");
            key.append(k.as_str());
            key.append("]");
            proof {
                reveal_strlit("[");
                reveal_strlit("]");
                assert(key@ =~= spec_map_param_key(name@, k@));
            }
            self.push(QueryParamPair::new(key, v));
            proof {
                assert(self@.subrange(0, before.len() as int) =~= before);
            }
            i = i + 1;
        }
        proof {
            assert(old(self)@ == before);
            assert(self@.subrange(0, before.len() as int) =~= before);
            assert forall|idx: int| #![trigger self@[idx]]
                old(self)@.len() <= idx < self@.len() implies spec_is_map_entry(
                self@[idx],
                name@,
                value@,
            ) by {
                let j = idx - before.len();
                let k = sorted[j].0;
                assert(self@[before.len() + j] == self@[idx]);
                assert(value@.contains_key(k) && self@[idx].key == spec_map_param_key(name@, k@)
                    && self@[idx].value == value@[k]@);
                assert(value@.dom().contains(k));
            }
            assert forall|k: String| #[trigger] value@.contains_key(k) implies exists|idx: int|
                old(self)@.len() <= idx < self@.len() && (#[trigger] self@[idx]).key
                    == spec_map_param_key(name@, k@) && self@[idx].value == value@[k]@ by {
                let j = choose|j: int|
                    0 <= j < sorted.len() && (#[trigger] sorted[j]) == (k, value@[k]);
                let idx = before.len() + j;
                assert(self@[idx as int].key == spec_map_param_key(name@, k@)
                    && self@[idx as int].value == value@[k]@);
            }
            assert forall|i: int, j: int|
                #![trigger self@[i], self@[j]]
                old(self)@.len() <= i < j < self@.len() implies spec_map_entries_ordered(
                self@[i],
                self@[j],
                name@,
                value@,
            ) by {
                let p = i - before.len();
                let q = j - before.len();
                let kp = sorted[p].0;
                let kq = sorted[q].0;
                assert(self@[before.len() + p] == self@[i]);
                assert(self@[before.len() + q] == self@[j]);
                assert(value@.contains_key(kp) && self@[i].key == spec_map_param_key(name@, kp@)
                    && self@[i].value == value@[kp]@);
                assert(value@.contains_key(kq) && self@[j].key == spec_map_param_key(name@, kq@)
                    && self@[j].value == value@[kq]@);
                assert(spec_text_le(kp@, kq@));
                assert(value@.dom().contains(kp) && value@.dom().contains(kq));
            }
        }
    }
}

} // verus!
