use std::collections::HashMap;

use edge_runtime::server::ConfigError;
use edge_runtime::server::Ipv4Address;
use edge_runtime::server::Server;
use edge_runtime::server::parse_ipv4;

fn parse(s: &str) -> Option<Ipv4Address> {
    parse_ipv4(&s.as_bytes().to_vec())
}

#[test]
fn parses_dotted_quads() {
    assert_eq!(parse("127.0.0.1"), Some(Ipv4Address { o0: 127, o1: 0, o2: 0, o3: 1 }));
    assert_eq!(parse("0.0.0.0"), Some(Ipv4Address { o0: 0, o1: 0, o2: 0, o3: 0 }));
    assert_eq!(
        parse("255.255.255.255"),
        Some(Ipv4Address { o0: 255, o1: 255, o2: 255, o3: 255 })
    );
    assert_eq!(parse("10.20.30.40"), Some(Ipv4Address { o0: 10, o1: 20, o2: 30, o3: 40 }));
}

#[test]
fn rejects_out_of_range_octets() {
    assert_eq!(parse("256.0.0.1"), None);
    assert_eq!(parse("1.2.3.999"), None);
}

#[test]
fn rejects_leading_zeros() {
    assert_eq!(parse("01.2.3.4"), None);
    assert_eq!(parse("1.2.3.04"), None);
    assert_eq!(parse("0.00.0.0"), None);
}

#[test]
fn rejects_malformed_literals() {
    assert_eq!(parse(""), None);
    assert_eq!(parse("1.2.3"), None);
    assert_eq!(parse("1.2.3.4.5"), None);
    assert_eq!(parse("1..2.3"), None);
    assert_eq!(parse(".1.2.3"), None);
    assert_eq!(parse("1.2.3."), None);
    assert_eq!(parse("a.b.c.d"), None);
    assert_eq!(parse("1.2.3.4 "), None);
    assert_eq!(parse("1234.1.1.1"), None);
}

#[test]
fn server_new_validates_ip() {
    let env: HashMap<String, String> = HashMap::new();
    let srv = Server::new(
        &b"0.0.0.0".to_vec(),
        9000,
        "./services".to_string(),
        150,
        60,
        false,
        None,
        env,
    )
    .expect("valid config");
    assert_eq!(srv.ip, Ipv4Address { o0: 0, o1: 0, o2: 0, o3: 0 });
    assert_eq!(srv.port, 9000);
    assert_eq!(srv.services_dir, "./services");
    assert_eq!(srv.mem_limit, 150);
    assert_eq!(srv.service_timeout, 60);
    assert!(!srv.no_module_cache);
    assert_eq!(srv.import_map_path, None);

    let env: HashMap<String, String> = HashMap::new();
    let err = Server::new(
        &b"localhost".to_vec(),
        9000,
        "./services".to_string(),
        150,
        60,
        false,
        None,
        env,
    );
    assert!(matches!(err, Err(ConfigError::InvalidIpAddress)));
}
