use set_host::ascii::{bytes_eq_ignore_case, push_decimal, to_lower};
use set_host::target::RequestTarget;

fn target(scheme: Option<&str>, host: &str, port: Option<u16>) -> RequestTarget {
    RequestTarget {
        scheme: scheme.map(|s| s.as_bytes().to_vec()),
        host: Some(host.as_bytes().to_vec()),
        port,
    }
}

fn host_of(scheme: Option<&str>, host: &str, port: Option<u16>) -> String {
    String::from_utf8(target(scheme, host, port).host_value()).unwrap()
}

#[test]
fn secure_scheme_is_https_or_wss() {
    assert!(target(Some("https"), "example.org", None).is_secure_scheme());
    assert!(target(Some("wss"), "example.org", None).is_secure_scheme());
    assert!(!target(Some("http"), "example.org", None).is_secure_scheme());
    assert!(!target(Some("ws"), "example.org", None).is_secure_scheme());
    assert!(!target(Some("ftp"), "example.org", None).is_secure_scheme());
    assert!(!target(Some("httpss"), "example.org", None).is_secure_scheme());
    assert!(!target(Some(""), "example.org", None).is_secure_scheme());
}

#[test]
fn missing_scheme_is_not_secure() {
    assert!(!target(None, "example.org", None).is_secure_scheme());
    assert_eq!(target(None, "example.org", Some(80)).non_default_port(), None);
    assert_eq!(target(None, "example.org", Some(443)).non_default_port(), Some(443));
}

#[test]
fn secure_scheme_ignores_letter_case() {
    assert!(target(Some("HTTPS"), "example.org", None).is_secure_scheme());
    assert!(target(Some("Wss"), "example.org", None).is_secure_scheme());
    assert!(target(Some("hTtPs"), "example.org", None).is_secure_scheme());
    assert_eq!(host_of(Some("WSS"), "example.org", Some(443)), "example.org");
    assert_eq!(host_of(Some("HTTP"), "example.org", Some(443)), "example.org:443");
}

#[test]
fn no_port_gives_no_port() {
    assert_eq!(target(Some("https"), "example.org", None).non_default_port(), None);
    assert_eq!(target(Some("http"), "example.org", None).non_default_port(), None);
    assert_eq!(host_of(Some("https"), "example.org", None), "example.org");
    assert_eq!(host_of(Some("wss"), "example.org", None), "example.org");
    assert_eq!(host_of(Some("http"), "example.org", None), "example.org");
}

#[test]
fn secure_default_port_is_left_out() {
    assert_eq!(target(Some("https"), "example.org", Some(443)).non_default_port(), None);
    assert_eq!(target(Some("wss"), "example.org", Some(443)).non_default_port(), None);
    assert_eq!(host_of(Some("https"), "example.org", Some(443)), "example.org");
    assert_eq!(host_of(Some("wss"), "example.org", Some(443)), "example.org");
}

#[test]
fn secure_other_port_is_kept() {
    assert_eq!(target(Some("https"), "example.org", Some(8443)).non_default_port(), Some(8443));
    assert_eq!(host_of(Some("https"), "example.org", Some(8443)), "example.org:8443");
    assert_eq!(host_of(Some("https"), "example.org", Some(80)), "example.org:80");
    assert_eq!(host_of(Some("wss"), "example.org", Some(80)), "example.org:80");
}

#[test]
fn plain_default_port_is_left_out() {
    assert_eq!(target(Some("http"), "example.org", Some(80)).non_default_port(), None);
    assert_eq!(target(Some("ws"), "example.org", Some(80)).non_default_port(), None);
    assert_eq!(host_of(Some("http"), "example.org", Some(80)), "example.org");
    assert_eq!(host_of(Some("ws"), "example.org", Some(80)), "example.org");
}

#[test]
fn plain_other_port_is_kept() {
    assert_eq!(host_of(Some("http"), "example.org", Some(8080)), "example.org:8080");
    assert_eq!(host_of(Some("http"), "example.org", Some(443)), "example.org:443");
    assert_eq!(host_of(Some("ws"), "example.org", Some(443)), "example.org:443");
    assert_eq!(target(Some("ws"), "example.org", Some(81)).non_default_port(), Some(81));
}

#[test]
fn port_is_written_in_decimal() {
    assert_eq!(host_of(Some("http"), "h", Some(0)), "h:0");
    assert_eq!(host_of(Some("http"), "h", Some(9)), "h:9");
    assert_eq!(host_of(Some("http"), "h", Some(10)), "h:10");
    assert_eq!(host_of(Some("http"), "h", Some(100)), "h:100");
    assert_eq!(host_of(Some("http"), "h", Some(65535)), "h:65535");
    assert_eq!(host_of(Some("https"), "[::1]", Some(3000)), "[::1]:3000");
}

#[test]
fn empty_host_is_kept_as_it_is() {
    assert_eq!(host_of(Some("http"), "", None), "");
    assert_eq!(host_of(Some("http"), "", Some(81)), ":81");
}

#[test]
fn push_decimal_appends_digits() {
    let mut out = b"ab".to_vec();
    push_decimal(&mut out, 8443);
    assert_eq!(out, b"ab8443".to_vec());
    let mut zero = Vec::new();
    push_decimal(&mut zero, 0);
    assert_eq!(zero, b"0".to_vec());
    let mut max = Vec::new();
    push_decimal(&mut max, u16::MAX);
    assert_eq!(max, b"65535".to_vec());
}

#[test]
fn to_lower_folds_letters_only() {
    assert_eq!(to_lower(b'A'), b'a');
    assert_eq!(to_lower(b'Z'), b'z');
    assert_eq!(to_lower(b'a'), b'a');
    assert_eq!(to_lower(b'@'), b'@');
    assert_eq!(to_lower(b'['), b'[');
    assert_eq!(to_lower(b'5'), b'5');
    assert_eq!(to_lower(200), 200);
}

#[test]
fn compare_ignoring_case() {
    assert!(bytes_eq_ignore_case(b"HttpS", b"https"));
    assert!(bytes_eq_ignore_case(b"", b""));
    assert!(!bytes_eq_ignore_case(b"http", b"https"));
    assert!(!bytes_eq_ignore_case(b"https", b"http"));
    assert!(!bytes_eq_ignore_case(b"wss", b"wsx"));
    assert!(!bytes_eq_ignore_case(b"@", b"`"));
}

#[test]
fn only_the_two_default_ports_are_ever_left_out() {
    for port in 0..=u16::MAX {
        let secure = target(Some("https"), "h", Some(port)).non_default_port();
        let plain = target(Some("http"), "h", Some(port)).non_default_port();
        let bare = target(None, "h", Some(port)).non_default_port();
        assert_eq!(secure, if port == 443 { None } else { Some(port) });
        assert_eq!(plain, if port == 80 { None } else { Some(port) });
        assert_eq!(bare, plain);
    }
}

#[test]
fn every_port_is_written_as_std_writes_it() {
    for port in 0..=u16::MAX {
        let mut out = Vec::new();
        push_decimal(&mut out, port);
        assert_eq!(out, port.to_string().into_bytes());
    }
}
