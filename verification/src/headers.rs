//! Sanitization of the derived, guest-visible header set.
//!
//! Before the request is handed to the guest, its header set is replaced
//! by headers derived from the route match and client address. A derived
//! pair whose name or value would not parse as a header field is silently
//! dropped — a best-effort correct request beats rejecting it outright,
//! so the surrounding request never fails for this reason.

use vstd::prelude::*;

verus! {

/// A byte accepted in a header field name: the token characters
/// `!#$%&'*+-.^_`|~`, digits, and letters of either case (parsing
/// lowercases them).
pub open spec fn header_name_byte_ok(b: u8) -> bool {
    ||| 48 <= b <= 57  // 0-9
    ||| 65 <= b <= 90  // A-Z
    ||| 97 <= b <= 122  // a-z
    ||| b == 33  // !
    ||| b == 35  // #
    ||| b == 36  // $
    ||| b == 37  // %
    ||| b == 38  // &
    ||| b == 39  // '
    ||| b == 42  // *
    ||| b == 43  // +
    ||| b == 45  // -
    ||| b == 46  // .
    ||| b == 94  // ^
    ||| b == 95  // _
    ||| b == 96  // `
    ||| b == 124  // |
    ||| b == 126  // ~
}

/// A parseable header field name: non-empty, at most 65535 bytes, token
/// characters only.
pub open spec fn valid_header_name(s: Seq<u8>) -> bool {
    &&& 1 <= s.len() <= 65535
    &&& forall|i: int| 0 <= i < s.len() ==> header_name_byte_ok(s[i])
}

/// A byte accepted in a header field value: horizontal tab or anything
/// from space up, except delete.
pub open spec fn header_value_byte_ok(b: u8) -> bool {
    b == 9 || (b >= 32 && b != 127)
}

/// A parseable header field value: no control bytes other than tab.
pub open spec fn valid_header_value(s: Seq<u8>) -> bool {
    forall|i: int| 0 <= i < s.len() ==> header_value_byte_ok(s[i])
}

#[verifier::external_type_specification]
#[verifier::external_body]
pub struct ExHeaderName(http::HeaderName);

#[verifier::external_type_specification]
#[verifier::external_body]
pub struct ExHeaderValue(http::HeaderValue);

/// The (lowercased) parsed name for a sequence of valid name bytes; it
/// depends on the bytes alone.
pub uninterp spec fn header_name_of(s: Seq<u8>) -> http::HeaderName;

/// The parsed value for a sequence of valid value bytes; it depends on the
/// bytes alone.
pub uninterp spec fn header_value_of(s: Seq<u8>) -> http::HeaderValue;

/// Relies on `http::HeaderName::from_bytes`: it accepts exactly the
/// non-empty names of at most 65535 token bytes (uppercase letters are
/// normalized to lowercase), and the parsed name is a function of the
/// bytes alone.
#[verifier::external_body]
fn parse_header_name(b: &Vec<u8>) -> (r: Option<http::HeaderName>)
    ensures
        r == if valid_header_name(b@) {
            Some(header_name_of(b@))
        } else {
            None::<http::HeaderName>
        },
{
    http::HeaderName::from_bytes(b).ok()
}

/// Relies on `http::HeaderValue::from_bytes`: it accepts exactly the byte
/// sequences free of control bytes other than tab, and the parsed value is
/// a function of the bytes alone.
#[verifier::external_body]
fn parse_header_value(b: &Vec<u8>) -> (r: Option<http::HeaderValue>)
    ensures
        r == if valid_header_value(b@) {
            Some(header_value_of(b@))
        } else {
            None::<http::HeaderValue>
        },
{
    http::HeaderValue::from_bytes(b).ok()
}

/// Whether a derived pair survives sanitization.
pub open spec fn spec_keep(name: Seq<u8>, value: Seq<u8>) -> bool {
    valid_header_name(name) && valid_header_value(value)
}

/// The derived pairs that survive, in order.
pub open spec fn spec_sanitize(hs: Seq<(Seq<u8>, Seq<u8>)>) -> Seq<(Seq<u8>, Seq<u8>)>
    decreases hs.len(),
{
    if hs.len() == 0 {
        Seq::empty()
    } else {
        let rest = spec_sanitize(hs.drop_last());
        if spec_keep(hs.last().0, hs.last().1) {
            rest.push(hs.last())
        } else {
            rest
        }
    }
}

/// The byte sequences of a list of derived pairs.
pub open spec fn views_of(hs: Seq<(Vec<u8>, Vec<u8>)>) -> Seq<(Seq<u8>, Seq<u8>)> {
    hs.map_values(|p: (Vec<u8>, Vec<u8>)| (p.0@, p.1@))
}

/// Parses every derived pair into the guest-visible header set, dropping
/// — never failing on — any pair whose name or value is invalid. The
/// result holds exactly the parses of the surviving pairs, in order.
pub fn sanitize_headers(derived: &Vec<(Vec<u8>, Vec<u8>)>) -> (r: Vec<
    (http::HeaderName, http::HeaderValue),
>)
    ensures
        r@.len() == spec_sanitize(views_of(derived@)).len(),
        forall|j: int|
            0 <= j < r@.len() ==> r@[j].0 == header_name_of(
                spec_sanitize(views_of(derived@))[j].0,
            ) && r@[j].1 == header_value_of(spec_sanitize(views_of(derived@))[j].1),
{
    let mut out: Vec<(http::HeaderName, http::HeaderValue)> = Vec::new();
    let mut i: usize = 0;
    while i < derived.len()
        invariant
            i <= derived.len(),
            out@.len() == spec_sanitize(views_of(derived@).take(i as int)).len(),
            forall|j: int|
                0 <= j < out@.len() ==> out@[j].0 == header_name_of(
                    spec_sanitize(views_of(derived@).take(i as int))[j].0,
                ) && out@[j].1 == header_value_of(
                    spec_sanitize(views_of(derived@).take(i as int))[j].1,
                ),
        decreases derived.len() - i,
    {
        let pair = &derived[i];
        let name = parse_header_name(&pair.0);
        let value = parse_header_value(&pair.1);
        proof {
            let v = views_of(derived@);
            assert(v.take(i as int + 1).drop_last() =~= v.take(i as int));
            assert(v.take(i as int + 1).last() == v[i as int]);
        }
        match (name, value) {
            (Some(n), Some(v)) => out.push((n, v)),
            _ => {},
        }
        i = i + 1;
    }
    proof {
        assert(views_of(derived@).take(derived@.len() as int) =~= views_of(derived@));
    }
    out
}

} // verus!
