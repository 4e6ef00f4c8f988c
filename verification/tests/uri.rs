// Tests of the upstream target rewrite: dotted-quad authority and the full
// request target with and without a front-side path-and-query.

use vortex::backend::Endpoint;
use vortex::uri::{authority_string, upstream_uri};

#[test]
fn test_authority_renders_dotted_quad_and_port() {
    let e = Endpoint { ip: 0x7f000001, port: 9090 };
    assert_eq!(authority_string(&e), "127.0.0.1:9090");
}

#[test]
fn test_authority_renders_all_octets() {
    let e = Endpoint { ip: 0xc0a80a02, port: 80 };
    assert_eq!(authority_string(&e), "192.168.10.2:80");

    let zeros = Endpoint { ip: 0, port: 0 };
    assert_eq!(authority_string(&zeros), "0.0.0.0:0");

    let max = Endpoint { ip: u32::MAX, port: u16::MAX };
    assert_eq!(authority_string(&max), "255.255.255.255:65535");
}

#[test]
fn test_upstream_uri_copies_path_and_query() {
    let e = Endpoint { ip: 0x7f000001, port: 9090 };
    assert_eq!(
        upstream_uri(&e, Some("/api/v1?q=2")),
        "http://127.0.0.1:9090/api/v1?q=2"
    );
}

#[test]
fn test_upstream_uri_defaults_to_root_path() {
    let e = Endpoint { ip: 0x7f000001, port: 9090 };
    assert_eq!(upstream_uri(&e, None), "http://127.0.0.1:9090/");
}
