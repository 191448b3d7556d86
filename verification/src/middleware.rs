//! The middleware: it wraps an inner handler and sees to it that a request
//! carries a `Host` header before the handler gets it.

use crate::headers::{
    authority_of, contains_host, entries, host_name, host_of, is_authority, key_count, key_len,
    port_of, scheme_of, sound, try_insert_host, uri_host, uri_port, uri_scheme, value_bytes,
    value_bytes_ok, value_from_bytes, ROOM_LIMIT,
};
use crate::target::{
    host_with_port, is_secure, lemma_host_value_ok, non_default, secure, shown_port,
    RequestTarget,
};
use vstd::prelude::*;

verus! {

/// The `Host` value that a URI with a host resolves to.
pub open spec fn resolved(uri: http::Uri) -> Seq<u8>
    recommends
        uri_host(uri) is Some,
{
    host_with_port(uri_host(uri)->0, shown_port(uri_scheme(uri), uri_port(uri)))
}

/// A URI can be resolved when it is sound and has a host whose bytes may
/// stand in a header value.
pub open spec fn resolvable(uri: http::Uri) -> bool {
    sound(uri) && uri_host(uri) is Some && value_bytes_ok(uri_host(uri)->0)
}

/// The header map after the middleware has seen it: as before where `Host` is
/// present, else with `Host` set to the given value and nothing else changed.
pub open spec fn with_host(before: Map<Seq<u8>, Seq<Seq<u8>>>, value: Seq<u8>) -> Map<
    Seq<u8>,
    Seq<Seq<u8>>,
> {
    if before.contains_key(host_name()) {
        before
    } else {
        before.insert(host_name(), seq![value])
    }
}

/// Whether the URI is sound: its authority, where it has one, is an
/// authority when parsed on its own.
pub fn is_sound(uri: &http::Uri) -> (r: bool)
    ensures
        r == sound(*uri),
{
    match authority_of(uri) {
        Some(text) => is_authority(text.as_slice()),
        None => true,
    }
}

/// Reads from a sound URI the parts that decide the `Host` header.
pub fn target_of(uri: &http::Uri) -> (t: RequestTarget)
    requires
        sound(*uri),
    ensures
        t.scheme_bytes() == uri_scheme(*uri),
        t.host_bytes() == uri_host(*uri),
        t.port == uri_port(*uri),
{
    RequestTarget { scheme: scheme_of(uri), host: host_of(uri), port: port_of(uri) }
}

/// Whether the URI's scheme is `https` or `wss`, in any letter case.
pub fn is_schema_secure(uri: &http::Uri) -> (r: bool)
    ensures
        r == secure(uri_scheme(*uri)),
{
    is_secure(&scheme_of(uri))
}

/// The URI's explicit port, unless it is the default port of its scheme.
pub fn get_non_default_port(uri: &http::Uri) -> (r: Option<u16>)
    ensures
        r == shown_port(uri_scheme(*uri), uri_port(*uri)),
{
    non_default(&scheme_of(uri), port_of(uri))
}

/// Whether the URI can be resolved.
pub fn can_resolve(uri: &http::Uri) -> (r: bool)
    ensures
        r == resolvable(*uri),
{
    if !is_sound(uri) {
        return false;
    }
    match host_of(uri) {
        Some(host) => value_from_bytes(host.as_slice()).is_some(),
        None => false,
    }
}

/// The `Host` header value for a URI: `<host>`, or `<host>:<port>` where the
/// port is not the default one.
pub fn resolve(uri: &http::Uri) -> (value: http::HeaderValue)
    requires
        resolvable(*uri),
    ensures
        value_bytes(value) == resolved(*uri),
{
    let target = target_of(uri);
    let bytes = target.host_value();
    proof {
        lemma_host_value_ok(uri_host(*uri)->0, shown_port(uri_scheme(*uri), uri_port(*uri)));
    }
    value_from_bytes(bytes.as_slice()).unwrap()
}

/// As `resolve`, for any URI: `None` where the URI cannot be resolved.
pub fn try_resolve(uri: &http::Uri) -> (value: Option<http::HeaderValue>)
    ensures
        value is Some <==> resolvable(*uri),
        value is Some ==> value_bytes(value->0) == resolved(*uri),
{
    if can_resolve(uri) {
        Some(resolve(uri))
    } else {
        None
    }
}

/// Sets `Host` from the URI where the header is absent, and leaves the map
/// alone where it is present.
///
/// Where the header is absent, the URI must be one that can be resolved, and
/// the map must have room for one more name.
pub fn set_host(headers: &mut http::HeaderMap<http::HeaderValue>, uri: &http::Uri)
    requires
        !entries(*old(headers)).contains_key(host_name()) ==> resolvable(*uri) && key_count(
            *old(headers),
        ) < ROOM_LIMIT,
    ensures
        entries(*final(headers)) == with_host(entries(*old(headers)), resolved(*uri)),
        entries(*old(headers)).contains_key(host_name()) ==> *final(headers) == *old(headers),
{
    if !contains_host(headers) {
        let value = resolve(uri);
        let _ = try_insert_host(headers, value);
    }
}

/// As `set_host`, for any map and URI. The result says whether the request
/// now carries `Host`. It does where the header was present, and where it was
/// absent and the URI can be resolved, unless the map could not grow.
/// Otherwise the headers are as before.
pub fn try_set_host(headers: &mut http::HeaderMap<http::HeaderValue>, uri: &http::Uri) -> (done:
    bool)
    ensures
        entries(*old(headers)).contains_key(host_name()) ==> done && *final(headers) == *old(
            headers,
        ),
        !entries(*old(headers)).contains_key(host_name()) && !resolvable(*uri) ==> !done,
        !entries(*old(headers)).contains_key(host_name()) && resolvable(*uri) && key_count(
            *old(headers),
        ) < ROOM_LIMIT ==> done,
        done ==> entries(*final(headers)) == with_host(entries(*old(headers)), resolved(*uri)),
        !done ==> entries(*final(headers)) == entries(*old(headers)),
{
    if contains_host(headers) {
        return true;
    }
    if key_len(headers) < ROOM_LIMIT {
        if can_resolve(uri) {
            set_host(headers, uri);
            true
        } else {
            false
        }
    } else {
        match try_resolve(uri) {
            Some(value) => try_insert_host(headers, value),
            None => false,
        }
    }
}

/// A map that has `Host` stays as it is, whatever value the URI resolves to.
pub proof fn lemma_present_host_kept(before: Map<Seq<u8>, Seq<Seq<u8>>>, value: Seq<u8>)
    requires
        before.contains_key(host_name()),
    ensures
        with_host(before, value) == before,
        with_host(before, value)[host_name()] == before[host_name()],
{
}

/// Setting the header twice is setting it once: the second pass finds `Host`
/// present and changes nothing, whatever it would have resolved to.
pub proof fn lemma_with_host_idempotent(
    before: Map<Seq<u8>, Seq<Seq<u8>>>,
    first: Seq<u8>,
    second: Seq<u8>,
)
    ensures
        with_host(before, first).contains_key(host_name()),
        with_host(with_host(before, first), second) == with_host(before, first),
{
}

/// No header but `Host` is ever touched.
pub proof fn lemma_other_headers_kept(
    before: Map<Seq<u8>, Seq<Seq<u8>>>,
    value: Seq<u8>,
    name: Seq<u8>,
)
    requires
        name != host_name(),
    ensures
        with_host(before, value).contains_key(name) == before.contains_key(name),
        before.contains_key(name) ==> with_host(before, value)[name] == before[name],
{
}

} // verus!
