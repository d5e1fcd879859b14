//! Redirect-URL inspection: deciding whether a browser location is the
//! identity provider's redirect and extracting the `code` query parameter
//! from it. URLs are handled as bytes; the query is the part after the
//! first `?` up to a `#` fragment, split into `&`-separated `key=value`
//! pairs, and the first pair keyed `code` wins. Values are taken verbatim
//! (no percent-decoding).

use vstd::prelude::*;
use vstd::slice::slice_subrange;

verus! {

pub const QMARK: u8 = 63;

pub const HASH: u8 = 35;

pub const AMP: u8 = 38;

pub const EQ: u8 = 61;

/// Position of the first occurrence of `b` in `s`, if any.
pub open spec fn first_index_of(s: Seq<u8>, b: u8) -> Option<int>
    decreases s.len(),
{
    if s.len() == 0 {
        None
    } else if s[0] == b {
        Some(0)
    } else {
        match first_index_of(s.drop_first(), b) {
            Some(i) => Some(i + 1),
            None => None,
        }
    }
}

/// The first occurrence really is first: it carries `b`, nothing before
/// it does, and `None` means no occurrence at all.
pub proof fn lemma_first_index_of_props(s: Seq<u8>, b: u8)
    ensures
        first_index_of(s, b) matches Some(i) ==> 0 <= i < s.len() && s[i] == b && forall|j: int|
            0 <= j < i ==> s[j] != b,
        first_index_of(s, b) is None ==> forall|j: int| 0 <= j < s.len() ==> s[j] != b,
    decreases s.len(),
{
    if s.len() == 0 {
    } else if s[0] == b {
    } else {
        lemma_first_index_of_props(s.drop_first(), b);
        match first_index_of(s.drop_first(), b) {
            Some(i) => {
                assert(s[i + 1] == s.drop_first()[i]);
                assert forall|j: int| 0 <= j < i + 1 implies s[j] != b by {
                    if j > 0 {
                        assert(s.drop_first()[j - 1] == s[j]);
                    }
                }
            },
            None => {
                assert forall|j: int| 0 <= j < s.len() implies s[j] != b by {
                    if j > 0 {
                        assert(s.drop_first()[j - 1] == s[j]);
                    }
                }
            },
        }
    }
}

/// Conversely, a position carrying `b` with nothing before it is the
/// first occurrence.
pub proof fn lemma_first_index_of_at(s: Seq<u8>, b: u8, i: int)
    requires
        0 <= i < s.len(),
        s[i] == b,
        forall|j: int| 0 <= j < i ==> s[j] != b,
    ensures
        first_index_of(s, b) == Some(i),
    decreases s.len(),
{
    if i == 0 {
    } else {
        assert(s.drop_first()[i - 1] == b);
        assert forall|j: int| 0 <= j < i - 1 implies s.drop_first()[j] != b by {
            assert(s.drop_first()[j] == s[j + 1]);
        }
        lemma_first_index_of_at(s.drop_first(), b, i - 1);
    }
}

/// And if no position carries `b`, there is no first occurrence.
pub proof fn lemma_first_index_of_none(s: Seq<u8>, b: u8)
    requires
        forall|j: int| 0 <= j < s.len() ==> s[j] != b,
    ensures
        first_index_of(s, b) is None,
    decreases s.len(),
{
    if s.len() == 0 {
    } else {
        assert forall|j: int| 0 <= j < s.drop_first().len() implies s.drop_first()[j] != b by {
            assert(s.drop_first()[j] == s[j + 1]);
        }
        lemma_first_index_of_none(s.drop_first(), b);
    }
}

/// Whether `p` is a prefix of `s`.
pub open spec fn is_prefix_of(p: Seq<u8>, s: Seq<u8>) -> bool {
    p.len() <= s.len() && s.subrange(0, p.len() as int) == p
}

/// The query component of a URL: everything after the first `?`, cut
/// before a `#` fragment; `None` when the URL has no `?`.
pub open spec fn query_of(url: Seq<u8>) -> Option<Seq<u8>> {
    match first_index_of(url, QMARK) {
        None => None,
        Some(q) => {
            let tail = url.subrange(q + 1, url.len() as int);
            match first_index_of(tail, HASH) {
                None => Some(tail),
                Some(h) => Some(tail.subrange(0, h)),
            }
        },
    }
}

/// The key of one `key=value` pair: everything before the first `=`, or
/// the whole pair when there is none.
pub open spec fn pair_key(p: Seq<u8>) -> Seq<u8> {
    match first_index_of(p, EQ) {
        None => p,
        Some(e) => p.subrange(0, e),
    }
}

/// The value of one `key=value` pair: everything after the first `=`, or
/// empty when there is none.
pub open spec fn pair_value(p: Seq<u8>) -> Seq<u8> {
    match first_index_of(p, EQ) {
        None => Seq::empty(),
        Some(e) => p.subrange(e + 1, p.len() as int),
    }
}

/// The bytes of the parameter name `code`.
pub open spec fn code_key() -> Seq<u8> {
    seq![99u8, 111u8, 100u8, 101u8]
}

/// The value of the first `code` pair among the `&`-separated pairs of a
/// query, if any.
pub open spec fn find_code(q: Seq<u8>) -> Option<Seq<u8>>
    decreases q.len(),
{
    match first_index_of(q, AMP) {
        None => if pair_key(q) == code_key() {
            Some(pair_value(q))
        } else {
            None
        },
        Some(a) => if 0 <= a < q.len() {
            // the first occurrence lies within the query
            let head = q.subrange(0, a);
            if pair_key(head) == code_key() {
                Some(pair_value(head))
            } else {
                find_code(q.subrange(a + 1, q.len() as int))
            }
        } else {
            None
        },
    }
}

/// The authorization code carried by a URL: the value of the first `code`
/// parameter of its query, if the URL has a query carrying one.
pub open spec fn code_param(url: Seq<u8>) -> Option<Seq<u8>> {
    match query_of(url) {
        None => None,
        Some(q) => find_code(q),
    }
}

/// Position of the first occurrence of `b`, by linear scan.
pub fn find_byte(s: &[u8], b: u8) -> (r: Option<usize>)
    ensures
        r matches Some(i) ==> i < s@.len() && s@[i as int] == b && first_index_of(s@, b) == Some(
            i as int,
        ),
        r is None ==> first_index_of(s@, b) is None,
{
    let n = s.len();
    let mut i: usize = 0;
    while i < n
        invariant
            n == s@.len(),
            0 <= i <= n,
            forall|j: int| 0 <= j < i ==> s@[j] != b,
        decreases n - i,
    {
        if s[i] == b {
            proof {
                lemma_first_index_of_at(s@, b, i as int);
            }
            return Some(i);
        }
        i = i + 1;
    }
    proof {
        lemma_first_index_of_none(s@, b);
    }
    None
}

/// Whether `s` begins with `prefix`.
pub fn starts_with(s: &[u8], prefix: &[u8]) -> (r: bool)
    ensures
        r == is_prefix_of(prefix@, s@),
{
    let pn = prefix.len();
    if pn > s.len() {
        return false;
    }
    let mut i: usize = 0;
    while i < pn
        invariant
            pn == prefix@.len(),
            pn <= s@.len(),
            0 <= i <= pn,
            forall|j: int| 0 <= j < i ==> s@[j] == prefix@[j],
        decreases pn - i,
    {
        if s[i] != prefix[i] {
            proof {
                assert(s@.subrange(0, pn as int)[i as int] != prefix@[i as int]);
            }
            return false;
        }
        i = i + 1;
    }
    proof {
        assert(s@.subrange(0, pn as int) =~= prefix@);
    }
    true
}

/// The query component of the URL, as a slice of it.
pub fn query_slice(url: &[u8]) -> (r: Option<&[u8]>)
    ensures
        r is Some <==> query_of(url@) is Some,
        r matches Some(q) ==> query_of(url@) == Some(q@),
{
    match find_byte(url, QMARK) {
        None => None,
        Some(q) => {
            let n = url.len();
            let tail = slice_subrange(url, q + 1, n);
            match find_byte(tail, HASH) {
                None => Some(tail),
                Some(h) => Some(slice_subrange(tail, 0, h)),
            }
        },
    }
}

/// Whether the pair's key is exactly `code`.
fn is_code_key(p: &[u8]) -> (r: bool)
    ensures
        r == (pair_key(p@) == code_key()),
{
    let klen: usize = match find_byte(p, EQ) {
        Some(e) => e,
        None => p.len(),
    };
    proof {
        assert(pair_key(p@).len() == klen) by {
            if first_index_of(p@, EQ) is None {
            } else {
                lemma_first_index_of_props(p@, EQ);
            }
        }
    }
    if klen != 4 {
        proof {
            assert(code_key().len() == 4);
        }
        return false;
    }
    proof {
        lemma_first_index_of_props(p@, EQ);
        assert forall|j: int| 0 <= j < 4 implies pair_key(p@)[j] == p@[j] by {}
    }
    let r = p[0] == 99 && p[1] == 111 && p[2] == 100 && p[3] == 101;
    proof {
        if r {
            assert(pair_key(p@) =~= code_key());
        } else {
            assert(pair_key(p@) != code_key()) by {
                if pair_key(p@) == code_key() {
                    assert(p@[0] == 99 && p@[1] == 111 && p@[2] == 100 && p@[3] == 101);
                }
            }
        }
    }
    r
}

/// The pair's value, as a slice of it.
fn pair_value_slice(p: &[u8]) -> (r: &[u8])
    ensures
        r@ == pair_value(p@),
{
    match find_byte(p, EQ) {
        None => {
            let r = slice_subrange(p, 0, 0);
            proof {
                assert(r@ =~= pair_value(p@));
            }
            r
        },
        Some(e) => {
            let n = p.len();
            slice_subrange(p, e + 1, n)
        },
    }
}

/// The value of the first `code` pair in a query.
fn code_in_query(q: &[u8]) -> (r: Option<&[u8]>)
    ensures
        r is Some <==> find_code(q@) is Some,
        r matches Some(v) ==> find_code(q@) == Some(v@),
    decreases q@.len(),
{
    match find_byte(q, AMP) {
        None => {
            if is_code_key(q) {
                Some(pair_value_slice(q))
            } else {
                None
            }
        },
        Some(a) => {
            let head = slice_subrange(q, 0, a);
            if is_code_key(head) {
                Some(pair_value_slice(head))
            } else {
                let n = q.len();
                code_in_query(slice_subrange(q, a + 1, n))
            }
        },
    }
}

/// The authorization code carried by the URL, if its query holds a `code`
/// parameter.
pub fn extract_code(url: &[u8]) -> (r: Option<&[u8]>)
    ensures
        r is Some <==> code_param(url@) is Some,
        r matches Some(v) ==> code_param(url@) == Some(v@),
{
    match query_slice(url) {
        None => None,
        Some(q) => code_in_query(q),
    }
}

} // verus!
