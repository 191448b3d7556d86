//! The request target as the resolver reads it, and the `Host` value that
//! follows from it.

use crate::ascii::{
    bytes_eq_ignore_case, decimal, eq_ignore_case, lemma_decimal_digits, push_decimal,
};
use crate::headers::{value_byte, value_bytes_ok};
use vstd::prelude::*;

verus! {

/// The bytes of `https`.
pub open spec fn https_bytes() -> Seq<u8> {
    seq![104u8, 116u8, 116u8, 112u8, 115u8]
}

/// The bytes of `wss`.
pub open spec fn wss_bytes() -> Seq<u8> {
    seq![119u8, 115u8, 115u8]
}

/// The bytes of `http`.
pub open spec fn http_bytes() -> Seq<u8> {
    seq![104u8, 116u8, 116u8, 112u8]
}

/// The bytes of `ws`.
pub open spec fn ws_bytes() -> Seq<u8> {
    seq![119u8, 115u8]
}

/// A scheme is secure when it is `https` or `wss`, in any letter case.
/// No scheme at all is not secure.
pub open spec fn secure(scheme: Option<Seq<u8>>) -> bool {
    match scheme {
        Some(s) => eq_ignore_case(s, https_bytes()) || eq_ignore_case(s, wss_bytes()),
        None => false,
    }
}

/// The port that has to appear in `Host`: the explicit port, unless it is the
/// default of the scheme (443 when secure, 80 when not).
pub open spec fn shown_port(scheme: Option<Seq<u8>>, port: Option<u16>) -> Option<u16> {
    match port {
        Some(p) => if (p == 443 && secure(scheme)) || (p == 80 && !secure(scheme)) {
            None
        } else {
            Some(p)
        },
        None => None,
    }
}

/// The `Host` value for a host and the port to show: `<host>` or
/// `<host>:<port>`, the port in decimal.
pub open spec fn host_with_port(host: Seq<u8>, port: Option<u16>) -> Seq<u8> {
    match port {
        Some(p) => host + seq![58u8] + decimal(p as nat),
        None => host,
    }
}

/// An optional text as a byte sequence.
pub open spec fn bytes_of(text: Option<Vec<u8>>) -> Option<Seq<u8>> {
    match text {
        Some(t) => Some(t@),
        None => None,
    }
}

/// Whether a scheme is `https` or `wss`, in any letter case.
pub fn is_secure(scheme: &Option<Vec<u8>>) -> (r: bool)
    ensures
        r == secure(bytes_of(*scheme)),
{
    match scheme {
        Some(s) => {
            let https: [u8; 5] = [104, 116, 116, 112, 115];
            let wss: [u8; 3] = [119, 115, 115];
            assert(https@ =~= https_bytes());
            assert(wss@ =~= wss_bytes());
            bytes_eq_ignore_case(s.as_slice(), https.as_slice()) || bytes_eq_ignore_case(
                s.as_slice(),
                wss.as_slice(),
            )
        },
        None => false,
    }
}

/// The explicit port, unless it is the default port of the scheme: 443 with
/// a secure scheme, 80 without one.
pub fn non_default(scheme: &Option<Vec<u8>>, port: Option<u16>) -> (r: Option<u16>)
    ensures
        r == shown_port(bytes_of(*scheme), port),
{
    match port {
        Some(p) => {
            let secure = is_secure(scheme);
            if (p == 443 && secure) || (p == 80 && !secure) {
                None
            } else {
                Some(p)
            }
        },
        None => None,
    }
}

/// The parts of a request-target URI that decide the `Host` header.
#[derive(Clone, Debug)]
pub struct RequestTarget {
    /// The scheme, as written in the URI.
    pub scheme: Option<Vec<u8>>,
    /// The host part of the authority.
    pub host: Option<Vec<u8>>,
    /// The explicit port of the authority.
    pub port: Option<u16>,
}

impl RequestTarget {
    /// The scheme as a byte sequence.
    pub open spec fn scheme_bytes(&self) -> Option<Seq<u8>> {
        bytes_of(self.scheme)
    }

    /// The host as a byte sequence.
    pub open spec fn host_bytes(&self) -> Option<Seq<u8>> {
        bytes_of(self.host)
    }

    /// The `Host` value of a target that has a host.
    pub open spec fn host_value_spec(&self) -> Seq<u8>
        recommends
            self.host is Some,
    {
        host_with_port(self.host->0@, shown_port(self.scheme_bytes(), self.port))
    }

    /// Whether the scheme is one of the secure ones.
    pub fn is_secure_scheme(&self) -> (r: bool)
        ensures
            r == secure(self.scheme_bytes()),
    {
        is_secure(&self.scheme)
    }

    /// The explicit port, unless it is the default port of the scheme.
    pub fn non_default_port(&self) -> (r: Option<u16>)
        ensures
            r == shown_port(self.scheme_bytes(), self.port),
    {
        non_default(&self.scheme, self.port)
    }

    /// The bytes of the `Host` value: the host, followed by a colon and the
    /// port where the port is not the default one.
    pub fn host_value(&self) -> (r: Vec<u8>)
        requires
            self.host is Some,
        ensures
            r@ == self.host_value_spec(),
    {
        let mut out: Vec<u8> = Vec::new();
        match &self.host {
            Some(h) => {
                let mut i: usize = 0;
                while i < h.len()
                    invariant
                        i <= h.len(),
                        out@ == h@.subrange(0, i as int),
                    decreases h.len() - i,
                {
                    out.push(h[i]);
                    i += 1;
                }
                assert(out@ =~= h@);
            },
            None => {},
        }
        match self.non_default_port() {
            Some(p) => {
                out.push(58);
                push_decimal(&mut out, p);
            },
            None => {},
        }
        out
    }
}

/// A `Host` value may stand in a header exactly when its host may: a colon
/// and decimal digits add no forbidden byte.
pub proof fn lemma_host_value_ok(host: Seq<u8>, port: Option<u16>)
    ensures
        value_bytes_ok(host_with_port(host, port))
            <==> value_bytes_ok(host),
{
    let v = host_with_port(host, port);
    if let Some(p) = port {
        lemma_decimal_digits(p as nat);
        let d = decimal(p as nat);
        if value_bytes_ok(host) {
            assert forall|i: int| 0 <= i < v.len() implies value_byte(
                #[trigger] v[i],
            ) by {
                if i < host.len() {
                    assert(v[i] == host[i]);
                } else if i == host.len() {
                    assert(v[i] == 58u8);
                } else {
                    assert(v[i] == d[i - host.len() - 1]);
                }
            }
        }
        if value_bytes_ok(v) {
            assert forall|i: int| 0 <= i < host.len() implies value_byte(
                #[trigger] host[i],
            ) by {
                assert(v[i] == host[i]);
            }
        }
    }
}

/// With `https` or `wss` and no explicit port, the `Host` value is exactly
/// the host.
pub proof fn lemma_secure_without_port(scheme: Seq<u8>, host: Seq<u8>)
    requires
        scheme == https_bytes() || scheme == wss_bytes(),
    ensures
        host_with_port(host, shown_port(Some(scheme), None)) == host,
{
}

/// With `https` or `wss` and the explicit port 443, the port is left out and
/// the `Host` value is exactly the host.
pub proof fn lemma_secure_default_port(scheme: Seq<u8>, host: Seq<u8>)
    requires
        scheme == https_bytes() || scheme == wss_bytes(),
    ensures
        secure(Some(scheme)),
        shown_port(Some(scheme), Some(443u16)) == None::<u16>,
        host_with_port(host, shown_port(Some(scheme), Some(443u16))) == host,
{
}

/// With `https` or `wss` and an explicit port other than 443, the `Host`
/// value is the host, a colon and the port in decimal.
pub proof fn lemma_secure_other_port(scheme: Seq<u8>, host: Seq<u8>, port: u16)
    requires
        scheme == https_bytes() || scheme == wss_bytes(),
        port != 443,
    ensures
        host_with_port(host, shown_port(Some(scheme), Some(port))) == host + seq![58u8] + decimal(
            port as nat,
        ),
{
}

/// With `http` or `ws`, the explicit port 80 is left out and every other
/// explicit port is kept.
pub proof fn lemma_plain_port(scheme: Seq<u8>, host: Seq<u8>, port: u16)
    requires
        scheme == http_bytes() || scheme == ws_bytes(),
    ensures
        !secure(Some(scheme)),
        port == 80 ==> host_with_port(host, shown_port(Some(scheme), Some(port))) == host,
        port != 80 ==> host_with_port(host, shown_port(Some(scheme), Some(port))) == host
            + seq![58u8] + decimal(port as nat),
{
}

/// No port but 443 and 80 is ever left out: 443 only with a secure scheme,
/// 80 only without one.
pub proof fn lemma_only_defaults_hidden(scheme: Option<Seq<u8>>, port: u16)
    ensures
        shown_port(scheme, Some(port)) is None <==> (port == 443 && secure(scheme)) || (port == 80
            && !secure(scheme)),
        shown_port(scheme, Some(port)) is Some ==> shown_port(scheme, Some(port)) == Some(port),
{
}

} // verus!
