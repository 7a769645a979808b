//! Server configuration: the listen address is validated as a dotted-quad
//! IPv4 literal before the supervisor binds it. The parser is exact: it
//! accepts precisely the four-octet decimal form without leading zeros.

use vstd::prelude::*;
use std::collections::HashMap;
use crate::routing::DOT;

verus! {

/// An IPv4 address as its four octets.
#[derive(Debug, Clone, Copy, PartialEq, Eq, Structural)]
pub struct Ipv4Address {
    pub o0: u8,
    pub o1: u8,
    pub o2: u8,
    pub o3: u8,
}

/// ASCII decimal digit.
pub open spec fn is_ascii_digit(b: u8) -> bool {
    48 <= b && b <= 57
}

/// The value of a string of decimal digits.
pub open spec fn dec_value(s: Seq<u8>) -> int
    decreases s.len(),
{
    if s.len() == 0 {
        0
    } else {
        dec_value(s.drop_last()) * 10 + (s.last() - 48)
    }
}

/// `s` writes one octet in decimal: one to three digits, no leading zero,
/// value at most 255.
pub open spec fn is_octet_text(s: Seq<u8>) -> bool {
    &&& 1 <= s.len() <= 3
    &&& (forall|i: int| 0 <= i < s.len() ==> is_ascii_digit(s[i]))
    &&& (s.len() > 1 ==> s[0] != 48)
    &&& dec_value(s) <= 255
}

/// `s` is `a`, `b`, `c`, `d` — four octet texts — joined by dots.
pub open spec fn ipv4_text_parts(
    s: Seq<u8>,
    a: Seq<u8>,
    b: Seq<u8>,
    c: Seq<u8>,
    d: Seq<u8>,
) -> bool {
    &&& is_octet_text(a)
    &&& is_octet_text(b)
    &&& is_octet_text(c)
    &&& is_octet_text(d)
    &&& s == a + seq![DOT] + b + seq![DOT] + c + seq![DOT] + d
}

/// `s` is the dotted-quad decimal text of the address `ip`.
pub open spec fn parses_to(s: Seq<u8>, ip: Ipv4Address) -> bool {
    exists|a: Seq<u8>, b: Seq<u8>, c: Seq<u8>, d: Seq<u8>|
        ipv4_text_parts(s, a, b, c, d) && dec_value(a) == ip.o0 && dec_value(b) == ip.o1
            && dec_value(c) == ip.o2 && dec_value(d) == ip.o3
}

/// `s` is a dotted-quad IPv4 literal.
pub open spec fn is_ipv4_text(s: Seq<u8>) -> bool {
    exists|a: Seq<u8>, b: Seq<u8>, c: Seq<u8>, d: Seq<u8>| ipv4_text_parts(s, a, b, c, d)
}

/// Powers of ten.
pub open spec fn pow10(n: nat) -> int
    decreases n,
{
    if n == 0 {
        1
    } else {
        10 * pow10((n - 1) as nat)
    }
}

/// A string of `n` decimal digits has a value in `[0, pow10(n))`.
proof fn lemma_dec_value_bound(s: Seq<u8>)
    requires
        forall|i: int| 0 <= i < s.len() ==> is_ascii_digit(s[i]),
    ensures
        0 <= dec_value(s) < pow10(s.len()),
    decreases s.len(),
{
    if s.len() > 0 {
        lemma_dec_value_bound(s.drop_last());
    }
}

/// Every position of a split dotted-quad: the three dots sit exactly at
/// the part boundaries and every other position holds one of the parts'
/// digits.
proof fn lemma_parts_structure(s: Seq<u8>, a: Seq<u8>, b: Seq<u8>, c: Seq<u8>, d: Seq<u8>)
    requires
        ipv4_text_parts(s, a, b, c, d),
    ensures
        s.len() == a.len() + b.len() + c.len() + d.len() + 3,
        s[a.len() as int] == DOT,
        s[(a.len() + 1 + b.len()) as int] == DOT,
        s[(a.len() + b.len() + c.len() + 2) as int] == DOT,
        forall|i: int| 0 <= i < a.len() ==> s[i] == a[i] && is_ascii_digit(s[i]),
        forall|i: int|
            a.len() + 1 <= i < a.len() + 1 + b.len() ==> s[i] == b[i - (a.len() + 1)]
                && is_ascii_digit(s[i]),
        forall|i: int|
            a.len() + b.len() + 2 <= i < a.len() + b.len() + 2 + c.len() ==> s[i] == c[i - (a.len()
                + b.len() + 2)] && is_ascii_digit(s[i]),
        forall|i: int|
            a.len() + b.len() + c.len() + 3 <= i < s.len() ==> s[i] == d[i - (a.len() + b.len()
                + c.len() + 3)] && is_ascii_digit(s[i]),
        a == s.subrange(0, a.len() as int),
        b == s.subrange(a.len() + 1 as int, a.len() + 1 + b.len() as int),
        c == s.subrange(a.len() + b.len() + 2 as int, a.len() + b.len() + 2 + c.len() as int),
        d == s.subrange(a.len() + b.len() + c.len() + 3 as int, s.len() as int),
{
    assert(a =~= s.subrange(0, a.len() as int));
    assert(b =~= s.subrange(a.len() + 1 as int, a.len() + 1 + b.len() as int));
    assert(c =~= s.subrange(a.len() + b.len() + 2 as int, a.len() + b.len() + 2 + c.len() as int));
    assert(d =~= s.subrange(a.len() + b.len() + c.len() + 3 as int, s.len() as int));
}

/// Finds the first dot at or after `from`.
fn find_dot(s: &Vec<u8>, from: usize) -> (r: Option<usize>)
    requires
        from <= s@.len(),
    ensures
        match r {
            Some(p) => from <= p < s@.len() && s@[p as int] == DOT && (forall|j: int|
                from <= j < p ==> s@[j] != DOT),
            None => forall|j: int| from <= j < s@.len() ==> s@[j] != DOT,
        },
{
    let mut i: usize = from;
    while i < s.len()
        invariant
            from <= i <= s@.len(),
            forall|j: int| from <= j < i ==> s@[j] != DOT,
        decreases s@.len() - i,
    {
        if s[i] == DOT {
            return Some(i);
        }
        i = i + 1;
    }
    None
}

/// Parses the decimal octet written at `s[start..end]`; returns its value
/// exactly when that range is a well-formed octet text.
fn parse_octet(s: &Vec<u8>, start: usize, end: usize) -> (r: Option<u8>)
    requires
        start <= end <= s@.len(),
    ensures
        match r {
            Some(v) => is_octet_text(s@.subrange(start as int, end as int)) && dec_value(
                s@.subrange(start as int, end as int),
            ) == v,
            None => !is_octet_text(s@.subrange(start as int, end as int)),
        },
{
    let ghost t = s@.subrange(start as int, end as int);
    let len = end - start;
    if len == 0 || len > 3 {
        return None;
    }
    if len > 1 && s[start] == 48 {
        assert(t[0] == 48);
        return None;
    }
    let mut val: u32 = 0;
    let mut i: usize = start;
    while i < end
        invariant
            start <= i <= end <= s@.len(),
            t == s@.subrange(start as int, end as int),
            t.len() == end - start <= 3,
            forall|j: int| 0 <= j < i - start ==> is_ascii_digit(t[j]),
            val == dec_value(s@.subrange(start as int, i as int)),
            0 <= val < 1000,
        decreases end - i,
    {
        let b = s[i];
        if b < 48 || b > 57 {
            assert(t[i - start] == s@[i as int]);
            assert(!is_ascii_digit(t[i - start]));
            return None;
        }
        proof {
            let prefix = s@.subrange(start as int, i as int);
            let next = s@.subrange(start as int, i + 1 as int);
            assert(next.drop_last() =~= prefix);
            assert(next.last() == s@[i as int]);
            assert(forall|j: int| 0 <= j < next.len() ==> is_ascii_digit(next[j]));
            lemma_dec_value_bound(next);
            assert(pow10(0) == 1);
            assert(pow10(1) == 10);
            assert(pow10(2) == 100);
            assert(pow10(3) == 1000);
        }
        val = val * 10 + (b - 48) as u32;
        i = i + 1;
    }
    assert(s@.subrange(start as int, i as int) == t);
    if val > 255 {
        return None;
    }
    assert(is_octet_text(t));
    Some(val as u8)
}

/// In a split dotted-quad, the first dot of the text sits exactly at the
/// end of the first part: `p` is the first dot position (or the length if
/// there is no dot), so the first part ends there.
proof fn lemma_first_boundary(s: Seq<u8>, a: Seq<u8>, b: Seq<u8>, c: Seq<u8>, d: Seq<u8>, p: int)
    requires
        ipv4_text_parts(s, a, b, c, d),
        0 <= p <= s.len(),
        forall|j: int| 0 <= j < p ==> s[j] != DOT,
        p == s.len() || s[p] == DOT,
    ensures
        a.len() == p,
{
    lemma_parts_structure(s, a, b, c, d);
    if a.len() < p {
        assert(s[a.len() as int] == DOT);
        assert(false);
    }
    if a.len() > p {
        assert(p < s.len());
        assert(is_ascii_digit(s[p]));
        assert(false);
    }
}

/// The second dot of a split dotted-quad sits exactly at the end of the
/// second part.
proof fn lemma_second_boundary(
    s: Seq<u8>,
    a: Seq<u8>,
    b: Seq<u8>,
    c: Seq<u8>,
    d: Seq<u8>,
    p1: int,
    p: int,
)
    requires
        ipv4_text_parts(s, a, b, c, d),
        a.len() == p1,
        p1 + 1 <= p <= s.len(),
        forall|j: int| p1 + 1 <= j < p ==> s[j] != DOT,
        p == s.len() || s[p] == DOT,
    ensures
        a.len() + 1 + b.len() == p,
{
    lemma_parts_structure(s, a, b, c, d);
    let q = a.len() + 1 + b.len();
    if q < p {
        assert(s[(a.len() + 1 + b.len()) as int] == DOT);
        assert(false);
    }
    if q > p {
        assert(p < s.len());
        assert(is_ascii_digit(s[p]));
        assert(false);
    }
}

/// The third dot of a split dotted-quad sits exactly at the end of the
/// third part.
proof fn lemma_third_boundary(
    s: Seq<u8>,
    a: Seq<u8>,
    b: Seq<u8>,
    c: Seq<u8>,
    d: Seq<u8>,
    p2: int,
    p: int,
)
    requires
        ipv4_text_parts(s, a, b, c, d),
        a.len() + 1 + b.len() == p2,
        p2 + 1 <= p <= s.len(),
        forall|j: int| p2 + 1 <= j < p ==> s[j] != DOT,
        p == s.len() || s[p] == DOT,
    ensures
        a.len() + b.len() + c.len() + 2 == p,
{
    lemma_parts_structure(s, a, b, c, d);
    let q = a.len() + b.len() + c.len() + 2;
    if q < p {
        assert(s[(a.len() + b.len() + c.len() + 2) as int] == DOT);
        assert(false);
    }
    if q > p {
        assert(p < s.len());
        assert(is_ascii_digit(s[p]));
        assert(false);
    }
}

/// Splitting a text at three dot positions and rejoining the four pieces
/// with dots gives the text back.
proof fn lemma_assemble_parts(s: Seq<u8>, p1: int, p2: int, p3: int)
    requires
        0 <= p1 < p2 < p3 < s.len(),
        s[p1] == DOT,
        s[p2] == DOT,
        s[p3] == DOT,
    ensures
        s =~= s.subrange(0, p1) + seq![DOT] + s.subrange(p1 + 1, p2) + seq![DOT] + s.subrange(
            p2 + 1,
            p3,
        ) + seq![DOT] + s.subrange(p3 + 1, s.len() as int),
{
}

/// Parses a dotted-quad IPv4 literal. Returns the address exactly when the
/// bytes are four decimal octets without leading zeros joined by dots, and
/// `None` for every other input.
#[verifier::rlimit(50)]
pub fn parse_ipv4(s: &Vec<u8>) -> (r: Option<Ipv4Address>)
    ensures
        match r {
            Some(ip) => parses_to(s@, ip),
            None => !is_ipv4_text(s@),
        },
{
    let n = s.len();
    let p1 = match find_dot(s, 0) {
        Some(p) => p,
        None => {
            proof {
                assert forall|a: Seq<u8>, b: Seq<u8>, c: Seq<u8>, d: Seq<u8>| !ipv4_text_parts(
                    s@,
                    a,
                    b,
                    c,
                    d,
                ) by {
                    if ipv4_text_parts(s@, a, b, c, d) {
                        lemma_parts_structure(s@, a, b, c, d);
                        lemma_first_boundary(s@, a, b, c, d, s@.len() as int);
                        assert(false);
                    }
                }
            }
            return None;
        },
    };
    let p2 = match find_dot(s, p1 + 1) {
        Some(p) => p,
        None => {
            proof {
                assert forall|a: Seq<u8>, b: Seq<u8>, c: Seq<u8>, d: Seq<u8>| !ipv4_text_parts(
                    s@,
                    a,
                    b,
                    c,
                    d,
                ) by {
                    if ipv4_text_parts(s@, a, b, c, d) {
                        lemma_parts_structure(s@, a, b, c, d);
                        lemma_first_boundary(s@, a, b, c, d, p1 as int);
                        lemma_second_boundary(s@, a, b, c, d, p1 as int, s@.len() as int);
                        assert(false);
                    }
                }
            }
            return None;
        },
    };
    let p3 = match find_dot(s, p2 + 1) {
        Some(p) => p,
        None => {
            proof {
                assert forall|a: Seq<u8>, b: Seq<u8>, c: Seq<u8>, d: Seq<u8>| !ipv4_text_parts(
                    s@,
                    a,
                    b,
                    c,
                    d,
                ) by {
                    if ipv4_text_parts(s@, a, b, c, d) {
                        lemma_parts_structure(s@, a, b, c, d);
                        lemma_first_boundary(s@, a, b, c, d, p1 as int);
                        lemma_second_boundary(s@, a, b, c, d, p1 as int, p2 as int);
                        lemma_third_boundary(s@, a, b, c, d, p2 as int, s@.len() as int);
                        assert(false);
                    }
                }
            }
            return None;
        },
    };
    let oa = parse_octet(s, 0, p1);
    let ob = parse_octet(s, p1 + 1, p2);
    let oc = parse_octet(s, p2 + 1, p3);
    let od = parse_octet(s, p3 + 1, n);
    match (oa, ob, oc, od) {
        (Some(v0), Some(v1), Some(v2), Some(v3)) => {
            let ip = Ipv4Address { o0: v0, o1: v1, o2: v2, o3: v3 };
            proof {
                let a = s@.subrange(0, p1 as int);
                let b = s@.subrange(p1 + 1, p2 as int);
                let c = s@.subrange(p2 + 1, p3 as int);
                let d = s@.subrange(p3 + 1, n as int);
                lemma_assemble_parts(s@, p1 as int, p2 as int, p3 as int);
                assert(ipv4_text_parts(s@, a, b, c, d));
                assert(parses_to(s@, ip));
            }
            Some(ip)
        },
        _ => {
            proof {
                assert forall|a: Seq<u8>, b: Seq<u8>, c: Seq<u8>, d: Seq<u8>| !ipv4_text_parts(
                    s@,
                    a,
                    b,
                    c,
                    d,
                ) by {
                    if ipv4_text_parts(s@, a, b, c, d) {
                        lemma_parts_structure(s@, a, b, c, d);
                        lemma_first_boundary(s@, a, b, c, d, p1 as int);
                        lemma_second_boundary(s@, a, b, c, d, p1 as int, p2 as int);
                        lemma_third_boundary(s@, a, b, c, d, p2 as int, p3 as int);
                        assert(a == s@.subrange(0, p1 as int));
                        assert(b == s@.subrange(p1 + 1, p2 as int));
                        assert(c == s@.subrange(p2 + 1, p3 as int));
                        assert(d == s@.subrange(p3 + 1, n as int));
                        assert(false);
                    }
                }
            }
            None
        },
    }
}

/// Law: a dotted-quad literal names exactly one address: two addresses the
/// same text parses to are equal.
pub proof fn lemma_ipv4_text_unique(s: Seq<u8>, ip1: Ipv4Address, ip2: Ipv4Address)
    requires
        parses_to(s, ip1),
        parses_to(s, ip2),
    ensures
        ip1 == ip2,
{
    let (a1, b1, c1, d1) = choose|a: Seq<u8>, b: Seq<u8>, c: Seq<u8>, d: Seq<u8>|
        ipv4_text_parts(s, a, b, c, d) && dec_value(a) == ip1.o0 && dec_value(b) == ip1.o1
            && dec_value(c) == ip1.o2 && dec_value(d) == ip1.o3;
    let (a2, b2, c2, d2) = choose|a: Seq<u8>, b: Seq<u8>, c: Seq<u8>, d: Seq<u8>|
        ipv4_text_parts(s, a, b, c, d) && dec_value(a) == ip2.o0 && dec_value(b) == ip2.o1
            && dec_value(c) == ip2.o2 && dec_value(d) == ip2.o3;
    lemma_parts_structure(s, a1, b1, c1, d1);
    lemma_parts_structure(s, a2, b2, c2, d2);
    assert(a1.len() == a2.len());
    assert(b1.len() == b2.len());
    assert(c1.len() == c2.len());
    assert(a1 == a2 && b1 == b2 && c1 == c2 && d1 == d2);
}

/// Configuration error of the supervisor.
#[derive(Debug, Clone, Copy, PartialEq, Eq, Structural)]
pub enum ConfigError {
    /// The listen address is not a dotted-quad IPv4 literal.
    InvalidIpAddress,
}

/// The supervisor's immutable configuration.
pub struct Server {
    /// Listen address.
    pub ip: Ipv4Address,
    /// Listen port.
    pub port: u16,
    /// Directory under which function names resolve to service directories.
    pub services_dir: String,
    /// Per-sandbox heap limit, MiB.
    pub mem_limit: u16,
    /// Per-sandbox wall-clock limit, milliseconds.
    pub service_timeout: u16,
    /// Disables the module cache when set.
    pub no_module_cache: bool,
    /// Path of the optional import-map document.
    pub import_map_path: Option<String>,
    /// Environment mapping handed to every sandbox.
    pub env_vars: HashMap<String, String>,
}

impl Server {
    /// Builds the supervisor configuration, validating the listen address.
    /// Succeeds exactly when `ip` is a dotted-quad IPv4 literal; every
    /// other field is taken as given.
    pub fn new(
        ip: &Vec<u8>,
        port: u16,
        services_dir: String,
        mem_limit: u16,
        service_timeout: u16,
        no_module_cache: bool,
        import_map_path: Option<String>,
        env_vars: HashMap<String, String>,
    ) -> (r: Result<Server, ConfigError>)
        ensures
            match r {
                Ok(srv) => parses_to(ip@, srv.ip) && srv.port == port && srv.services_dir
                    == services_dir && srv.mem_limit == mem_limit && srv.service_timeout
                    == service_timeout && srv.no_module_cache == no_module_cache
                    && srv.import_map_path == import_map_path && srv.env_vars == env_vars,
                Err(e) => !is_ipv4_text(ip@) && e == ConfigError::InvalidIpAddress,
            },
    {
        match parse_ipv4(ip) {
            Some(addr) => Ok(
                Server {
                    ip: addr,
                    port,
                    services_dir,
                    mem_limit,
                    service_timeout,
                    no_module_cache,
                    import_map_path,
                    env_vars,
                },
            ),
            None => Err(ConfigError::InvalidIpAddress),
        }
    }
}

} // verus!
