//! Headers: the header map that callers fill, and the ordered list of names
//! and values that goes out on the wire.
//!
//! The map is `hyper`'s. This module says what is believed of it and holds the
//! few operations on lists that the request builder needs.

use vstd::prelude::*;
use hyper::header::HeaderName;
use hyper::header::HeaderValue;
use hyper::HeaderMap;
use crate::text::eq_ignore_case;
use crate::text::folded;
use crate::text::same_ignoring_case;

verus! {

/// The mathematical value of a header list.
pub type HeaderSeq = Seq<(Seq<char>, Seq<char>)>;

/// `hyper::HeaderMap`, the header map of the `http` crate, carried as it is.
/// Nothing is known of a map but what the trusted functions below say of its
/// list.
#[verifier::external_type_specification]
#[verifier::external_body]
#[verifier::reject_recursive_types(T)]
pub struct ExHeaderMap<T>(HeaderMap<T>);

/// `hyper::header::HeaderValue`, the type of the values of a header map.
#[verifier::external_type_specification]
#[verifier::external_body]
pub struct ExHeaderValue(HeaderValue);

/// What a header map holds: its names and values as `HeaderMap::iter` yields
/// them, one pair for each value, the names in the lower case in which the map
/// keeps them, the values as text (bytes that are no UTF-8 become the
/// replacement character).
pub uninterp spec fn header_list(map: HeaderMap<HeaderValue>) -> Seq<(Seq<char>, Seq<char>)>;

/// The text with its ASCII capitals turned into small letters.
pub open spec fn lowered(text: Seq<char>) -> Seq<char> {
    Seq::new(text.len(), |i: int| folded(text[i]) as char)
}

/// Whether `after` holds what `before` held under other names, and under the
/// lowered `name` the one `value` and nothing else. Nothing is said of the
/// order.
pub open spec fn holds_replaced(
    before: HeaderSeq,
    after: HeaderSeq,
    name: Seq<char>,
    value: Seq<char>,
) -> bool {
    after.to_multiset() == before.filter(
        |pair: (Seq<char>, Seq<char>)| pair.0 != lowered(name),
    ).to_multiset().insert((lowered(name), value))
}

/// An empty header map, made by `hyper::HeaderMap::new`.
///
/// Trusted: a new map holds nothing.
#[verifier::external_body]
pub(crate) fn new_header_map() -> (map: HeaderMap<HeaderValue>)
    ensures
        header_list(map) == Seq::<(Seq<char>, Seq<char>)>::empty(),
{
    HeaderMap::new()
}

/// Puts a header into the map with `hyper::HeaderMap::try_insert`, after
/// `HeaderName::try_from` and `HeaderValue::try_from` have made a name and a
/// value of the two texts. Returns whether the header went in.
///
/// Trusted: where the header went in, the map holds the value under the
/// lowered name, in place of whatever it held under that name, and everything
/// else as before. Where it did not (a text was refused, or the map is full),
/// the map holds what it held. Nothing is claimed of when a header goes in, nor
/// of the order in the map.
#[verifier::external_body]
pub(crate) fn insert_header(map: &mut HeaderMap<HeaderValue>, name: &str, value: &str) -> (inserted:
    bool)
    ensures
        inserted ==> holds_replaced(header_list(*old(map)), header_list(*final(map)), name@, value@),
        !inserted ==> header_list(*final(map)) == header_list(*old(map)),
{
    match (HeaderName::try_from(name), HeaderValue::try_from(value)) {
        (Ok(name), Ok(value)) => map.try_insert(name, value).is_ok(),
        _ => false,
    }
}

/// Hands out what a map holds, in the order of `hyper::HeaderMap::iter`: each
/// name by `as_str`, each value as text.
///
/// Trusted: the result is the map's list, which is a name and not a
/// description. The contract claims only that it is a function of the map.
#[verifier::external_body]
pub(crate) fn header_pairs(map: &HeaderMap<HeaderValue>) -> (pairs: Vec<(String, String)>)
    ensures
        pairs.deep_view() == header_list(*map),
{
    map.iter().map(
        |(name, value)|
            (name.as_str().to_string(), String::from_utf8_lossy(value.as_bytes()).into_owned()),
    ).collect()
}

/// Whether a header called `name` is in the list, case ignored.
pub open spec fn has_header(headers: HeaderSeq, name: Seq<char>) -> bool {
    exists|i: int| 0 <= i < headers.len() && same_ignoring_case((#[trigger] headers[i]).0, name)
}

/// The list with `(name, value)` at its end, unless it has a header of that
/// name already.
pub open spec fn with_default(headers: HeaderSeq, name: Seq<char>, value: Seq<char>) -> HeaderSeq {
    if has_header(headers, name) {
        headers
    } else {
        headers.push((name, value))
    }
}

/// The test that picks the headers called `name`, case ignored.
pub open spec fn called(name: Seq<char>) -> spec_fn((Seq<char>, Seq<char>)) -> bool {
    |h: (Seq<char>, Seq<char>)| same_ignoring_case(h.0, name)
}

/// A list with a default for `name` has a header called `name`, and still has
/// every header it had.
pub proof fn lemma_with_default_has(
    headers: HeaderSeq,
    name: Seq<char>,
    value: Seq<char>,
    other: Seq<char>,
)
    ensures
        has_header(with_default(headers, name, value), name),
        has_header(headers, other) ==> has_header(with_default(headers, name, value), other),
{
    let out = with_default(headers, name, value);
    assert(same_ignoring_case(name, name));
    if !has_header(headers, name) {
        assert(out[headers.len() as int].0 == name);
    }
    if has_header(headers, other) {
        let k = choose|k: int|
            0 <= k < headers.len() && same_ignoring_case((#[trigger] headers[k]).0, other);
        assert(out[k] == headers[k]);
    }
}

/// What a default changes among the headers called `wanted`: nothing, unless
/// the default is itself called `wanted` and the list had no header of that
/// name, in which case the default is the only one.
pub proof fn lemma_with_default_called(
    headers: HeaderSeq,
    name: Seq<char>,
    value: Seq<char>,
    wanted: Seq<char>,
)
    ensures
        !same_ignoring_case(name, wanted) ==> with_default(headers, name, value).filter(
            called(wanted),
        ) == headers.filter(called(wanted)),
        has_header(headers, wanted) && name == wanted ==> with_default(
            headers,
            name,
            value,
        ).filter(called(wanted)) == headers.filter(called(wanted)),
        !has_header(headers, wanted) && name == wanted ==> with_default(
            headers,
            name,
            value,
        ).filter(called(wanted)) == seq![(name, value)],
{
    let out = with_default(headers, name, value);
    let pick = called(wanted);
    if !has_header(headers, name) {
        assert(out.drop_last() =~= headers);
        assert(out.last() == (name, value));
        assert(out.filter(pick) == if pick(out.last()) {
            out.drop_last().filter(pick).push(out.last())
        } else {
            out.drop_last().filter(pick)
        }) by {
            reveal(Seq::filter);
        }
        if name == wanted {
            assert(same_ignoring_case(name, wanted));
            lemma_none_called(headers, wanted);
            assert(Seq::<(Seq<char>, Seq<char>)>::empty().push((name, value)) =~= seq![
                (name, value),
            ]);
        }
    }
}

/// A list without a header called `name` has nothing among those called `name`.
pub proof fn lemma_none_called(headers: HeaderSeq, name: Seq<char>)
    requires
        !has_header(headers, name),
    ensures
        headers.filter(called(name)) == Seq::<(Seq<char>, Seq<char>)>::empty(),
    decreases headers.len(),
{
    reveal(Seq::filter);
    if headers.len() > 0 {
        assert(!called(name)(headers.last())) by {
            assert(headers[headers.len() - 1] == headers.last());
        }
        assert(!has_header(headers.drop_last(), name)) by {
            if has_header(headers.drop_last(), name) {
                let k = choose|k: int|
                    0 <= k < headers.drop_last().len() && same_ignoring_case(
                        (#[trigger] headers.drop_last()[k]).0,
                        name,
                    );
                assert(headers[k] == headers.drop_last()[k]);
            }
        }
        lemma_none_called(headers.drop_last(), name);
    }
}

/// Whether a header called `name` is in the list, case ignored.
pub fn contains_header(headers: &Vec<(String, String)>, name: &str) -> (found: bool)
    ensures
        found == has_header(headers.deep_view(), name@),
{
    let mut i: usize = 0;
    while i < headers.len()
        invariant
            i <= headers.len(),
            forall|j: int|
                0 <= j < i ==> !same_ignoring_case((#[trigger] headers.deep_view()[j]).0, name@),
        decreases headers.len() - i,
    {
        assert(headers.deep_view()[i as int].0 == headers[i as int].0@);
        if eq_ignore_case(headers[i].0.as_str(), name) {
            return true;
        }
        i += 1;
    }
    false
}

/// A copy of a header list.
pub fn copy_headers(headers: &Vec<(String, String)>) -> (copy: Vec<(String, String)>)
    ensures
        copy.deep_view() == headers.deep_view(),
{
    let mut copy: Vec<(String, String)> = Vec::new();
    let mut i: usize = 0;
    while i < headers.len()
        invariant
            i <= headers.len(),
            copy.len() == i,
            forall|j: int| 0 <= j < i ==> #[trigger] copy[j] == headers[j],
        decreases headers.len() - i,
    {
        let name = headers[i].0.clone();
        let value = headers[i].1.clone();
        copy.push((name, value));
        i += 1;
    }
    assert(copy.deep_view() =~= headers.deep_view());
    copy
}

/// Puts `(name, value)` at the end of the list, unless it has a header of that
/// name already.
pub fn add_default(headers: &mut Vec<(String, String)>, name: &str, value: String)
    ensures
        final(headers).deep_view() == with_default(old(headers).deep_view(), name@, value@),
{
    if !contains_header(headers, name) {
        let ghost before = headers.deep_view();
        headers.push((String::from_str(name), value));
        assert(headers.deep_view() =~= before.push((name@, value@)));
    }
}

} // verus!
