//! The boundary to the `http` crate: its URI, header value and header map,
//! with what this library relies on stated for each call.

use vstd::prelude::*;

verus! {

#[verifier::external_type_specification]
#[verifier::external_body]
pub struct ExUri(http::Uri);

#[verifier::external_type_specification]
#[verifier::external_body]
pub struct ExHeaderValue(http::HeaderValue);

#[verifier::external_type_specification]
#[verifier::external_body]
#[verifier::reject_recursive_types(T)]
pub struct ExHeaderMap<T>(http::HeaderMap<T>);

/// The scheme of a URI as `Uri::scheme_str` gives it, in bytes.
pub uninterp spec fn uri_scheme(uri: http::Uri) -> Option<Seq<u8>>;

/// The host of a URI as `Uri::host` gives it, in bytes.
pub uninterp spec fn uri_host(uri: http::Uri) -> Option<Seq<u8>>;

/// The port of a URI as `Uri::port_u16` gives it.
pub uninterp spec fn uri_port(uri: http::Uri) -> Option<u16>;

/// The text of a URI's authority as `Uri::authority` gives it, in bytes.
pub uninterp spec fn uri_authority(uri: http::Uri) -> Option<Seq<u8>>;

/// Whether `Authority::try_from` takes a text as an authority.
pub uninterp spec fn parses_as_authority(text: Seq<u8>) -> bool;

/// The bytes that a header value holds.
pub uninterp spec fn value_bytes(value: http::HeaderValue) -> Seq<u8>;

/// What a header map holds: for each header name that is present, in lower
/// case, the bytes of its values in order.
pub uninterp spec fn entries(map: http::HeaderMap<http::HeaderValue>) -> Map<Seq<u8>, Seq<Seq<u8>>>;

/// The number of distinct header names in a map.
pub uninterp spec fn key_count(map: http::HeaderMap<http::HeaderValue>) -> nat;

/// The name of the `Host` header as the map keeps it: `host`.
pub open spec fn host_name() -> Seq<u8> {
    seq![104u8, 111u8, 115u8, 116u8]
}

/// A URI is sound when its authority, where it has one, is an authority when
/// parsed on its own. Every URI that was parsed from text is sound; one that
/// was put together from parts need not be.
pub open spec fn sound(uri: http::Uri) -> bool {
    match uri_authority(uri) {
        Some(text) => parses_as_authority(text),
        None => true,
    }
}

/// A byte that a header value may hold: anything from 32 up but DEL, and tab.
pub open spec fn value_byte(b: u8) -> bool {
    (b >= 32 && b != 127) || b == 9
}

/// Every byte may stand in a header value.
pub open spec fn value_bytes_ok(bytes: Seq<u8>) -> bool {
    forall|i: int| 0 <= i < bytes.len() ==> value_byte(#[trigger] bytes[i])
}

/// A map with fewer header names than this always takes one more.
pub const ROOM_LIMIT: usize = 6554;

/// `Uri::scheme_str`, copied into bytes. The result is the URI's scheme, or
/// `None` where it has none.
#[verifier::external_body]
pub(crate) fn scheme_of(uri: &http::Uri) -> (r: Option<Vec<u8>>)
    ensures
        (match r {
            Some(s) => Some(s@),
            None => None,
        }) == uri_scheme(*uri),
{
    uri.scheme_str().map(|s| s.as_bytes().to_vec())
}

/// `Uri::host`, copied into bytes. The result is the host part of the URI's
/// authority, or `None` where it has no authority. The call cuts the host
/// out of the authority's text and panics on a text that it cannot cut, which
/// a sound URI never has: `requires` leaves the others out.
#[verifier::external_body]
pub(crate) fn host_of(uri: &http::Uri) -> (r: Option<Vec<u8>>)
    requires
        sound(*uri),
    ensures
        (match r {
            Some(h) => Some(h@),
            None => None,
        }) == uri_host(*uri),
{
    uri.host().map(|h| h.as_bytes().to_vec())
}

/// `Uri::authority`, its text copied into bytes. The result is the text of
/// the URI's authority, or `None` where it has none.
#[verifier::external_body]
pub(crate) fn authority_of(uri: &http::Uri) -> (r: Option<Vec<u8>>)
    ensures
        (match r {
            Some(a) => Some(a@),
            None => None,
        }) == uri_authority(*uri),
{
    uri.authority().map(|a| a.as_str().as_bytes().to_vec())
}

/// `Authority::try_from` on bytes. The result says whether the whole text is
/// taken as an authority.
#[verifier::external_body]
pub(crate) fn is_authority(text: &[u8]) -> (r: bool)
    ensures
        r == parses_as_authority(text@),
{
    http::uri::Authority::try_from(text).is_ok()
}

/// `Uri::port_u16`. The result is the number of the URI's explicit port, or
/// `None` where it has none.
#[verifier::external_body]
pub(crate) fn port_of(uri: &http::Uri) -> (r: Option<u16>)
    ensures
        r == uri_port(*uri),
{
    uri.port_u16()
}

/// `HeaderValue::from_bytes`. It succeeds exactly when every byte may stand in
/// a header value, and the value then holds the bytes it was given.
#[verifier::external_body]
pub(crate) fn value_from_bytes(bytes: &[u8]) -> (r: Option<http::HeaderValue>)
    ensures
        r is Some <==> value_bytes_ok(bytes@),
        r is Some ==> value_bytes(r->0) == bytes@,
{
    http::HeaderValue::from_bytes(bytes).ok()
}

/// `HeaderMap::contains_key` for `Host`. The result says whether the map holds
/// a value under that name.
#[verifier::external_body]
pub(crate) fn contains_host(map: &http::HeaderMap<http::HeaderValue>) -> (r: bool)
    ensures
        r == entries(*map).contains_key(host_name()),
{
    map.contains_key(http::header::HOST)
}

/// `HeaderMap::keys_len`. The result is the number of distinct header names.
#[verifier::external_body]
pub(crate) fn key_len(map: &http::HeaderMap<http::HeaderValue>) -> (r: usize)
    ensures
        r == key_count(*map),
{
    map.keys_len()
}

/// `HeaderMap::try_insert` for `Host`. The result says whether the map took
/// the value. It refuses only when it would have to grow past its maximum,
/// which below `ROOM_LIMIT` names never happens. Where it took the value,
/// `Host` has that value alone and every other header is as before; where it
/// refused, the map holds what it held.
#[verifier::external_body]
pub(crate) fn try_insert_host(
    map: &mut http::HeaderMap<http::HeaderValue>,
    value: http::HeaderValue,
) -> (done: bool)
    ensures
        key_count(*old(map)) < ROOM_LIMIT ==> done,
        done ==> entries(*final(map)) == entries(*old(map)).insert(
            host_name(),
            seq![value_bytes(value)],
        ),
        done ==> key_count(*final(map)) == key_count(*old(map)) + (if entries(
            *old(map),
        ).contains_key(host_name()) {
            0nat
        } else {
            1nat
        }),
        !done ==> entries(*final(map)) == entries(*old(map)),
        !done ==> key_count(*final(map)) == key_count(*old(map)),
{
    map.try_insert(http::header::HOST, value).is_ok()
}

} // verus!
