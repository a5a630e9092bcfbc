//! Percent-encoding of query parameters into a query string.
//!
//! Keys and values are percent-encoded by the canonical
//! form-urlencoding of the `url` crate; pairs keep their order, a key
//! and its value are joined by `=`, pairs are joined by `&`, and no
//! trailing separator is emitted.

use crate::query_params::QueryParamPairView;
use crate::query_params::QueryParamPairs;
use vstd::prelude::*;
use vstd::string::StringExecFns;

verus! {

/// What form-urlencoding returns for a given text: the result depends
/// on the text alone.
pub uninterp spec fn encoded_of(s: Seq<char>) -> Seq<char>;

/// True of text that is safe inside a query string: it holds none of
/// the characters that separate pairs and fields (`&`, `=`) or end the
/// query (`?`, `#`), so those characters occur in a built query string
/// only as the separators the builder itself emits.
pub open spec fn spec_query_safe(s: Seq<char>) -> bool {
    forall|i: int|
        0 <= i < s.len() ==> (#[trigger] s[i]) != '&' && s[i] != '=' && s[i] != '?' && s[i] != '#'
}

/// Relies on `url::form_urlencoded::byte_serialize`: percent-encodes
/// the bytes of the text for use in a query string, a pure function of
/// the text. Its output holds only unreserved characters, `+` and
/// percent escapes, so it is query-safe.
#[verifier::external_body]
fn form_urlencode(s: &str) -> (r: String)
    ensures
        r@ == encoded_of(s@),
        spec_query_safe(r@),
{
    url::form_urlencoded::byte_serialize(s.as_bytes()).collect()
}

/// One encoded pair: the encoded key, `=`, the encoded value.
pub open spec fn spec_encoded_pair(p: QueryParamPairView) -> Seq<char> {
    encoded_of(p.key) + seq!['='] + encoded_of(p.value)
}

/// The encoded query string: the encoded pairs joined by `&`, with no
/// trailing separator and nothing at all for an empty sequence.
pub open spec fn spec_query_string(pairs: Seq<QueryParamPairView>) -> Seq<char>
    decreases pairs.len(),
{
    if pairs.len() == 0 {
        Seq::<char>::empty()
    } else if pairs.len() == 1 {
        spec_encoded_pair(pairs[0])
    } else {
        spec_query_string(pairs.drop_last()) + seq!['&'] + spec_encoded_pair(pairs.last())
    }
}

/// True of text that starts no new query and no fragment: it holds
/// neither `?` nor `#`. A built query string is such text, so the one
/// `?` the URL builder emits stays the only one.
pub open spec fn spec_no_query_end(s: Seq<char>) -> bool {
    forall|i: int| 0 <= i < s.len() ==> (#[trigger] s[i]) != '?' && s[i] != '#'
}

/// Builds the encoded query string for the pairs. Keys and values come
/// out query-safe, so `&` and `=` occur only as the separators emitted
/// here, and `?` and `#` not at all.
pub fn encode_query_string(pairs: &QueryParamPairs) -> (r: String)
    ensures
        r@ == spec_query_string(pairs@),
        spec_no_query_end(r@),
{
    let mut out = String::new();
    let n = pairs.0.len();
    let mut i: usize = 0;
    while i < n
        invariant
            i <= n,
            n == pairs@.len(),
            out@ == spec_query_string(pairs@.subrange(0, i as int)),
            spec_no_query_end(out@),
        decreases n - i,
    {
        if i > 0 {
            out.append("&");
        }
        let p = &pairs.0[i];
        let encoded_key = form_urlencode(p.key.as_str());
        out.append(encoded_key.as_str());
        out.append("=");
        let encoded_value = form_urlencode(p.value.as_str());
        out.append(encoded_value.as_str());
        proof {
            reveal_strlit("&");
            reveal_strlit("=");
            let done = pairs@.subrange(0, (i + 1) as int);
            assert(done.drop_last() =~= pairs@.subrange(0, i as int));
            assert(done.last() == pairs@[i as int]);
            assert(out@ =~= spec_query_string(done));
            assert forall|j: int| 0 <= j < out@.len() implies (#[trigger] out@[j]) != '?'
                && out@[j] != '#' by {
                assert("&"@ == seq!['&'] && "="@ == seq!['=']);
            }
        }
        i = i + 1;
    }
    proof {
        assert(pairs@.subrange(0, n as int) =~= pairs@);
    }
    out
}

} // verus!
