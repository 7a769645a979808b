//! Request routing: the first non-empty path segment names the function a
//! request is dispatched to. The name is not trusted beyond path-segment
//! syntax; traversal segments are rejected before any sandbox is spawned.

use vstd::prelude::*;

verus! {

/// Path separator byte, `/`.
pub const SLASH: u8 = 47;

/// Dot byte, `.`.
pub const DOT: u8 = 46;

/// `seg` is the first segment of `path`: the path starts with a separator,
/// `seg` follows it immediately, holds no separator itself, and runs up to
/// the next separator or to the end of the path.
pub open spec fn is_first_segment(path: Seq<u8>, seg: Seq<u8>) -> bool {
    &&& path.len() >= 1
    &&& path[0] == SLASH
    &&& 1 + seg.len() <= path.len()
    &&& seg == path.subrange(1, 1 + seg.len() as int)
    &&& (forall|i: int| 0 <= i < seg.len() ==> seg[i] != SLASH)
    &&& (1 + seg.len() == path.len() || path[1 + seg.len() as int] == SLASH)
}

/// A function name is trusted only to path-segment syntax: it must be
/// non-empty and must not be the `.` or `..` traversal segment.
pub open spec fn is_valid_function_name(seg: Seq<u8>) -> bool {
    &&& seg.len() > 0
    &&& !(seg.len() == 1 && seg[0] == DOT)
    &&& !(seg.len() == 2 && seg[0] == DOT && seg[1] == DOT)
}

/// The path has a first segment and that segment is a usable function name.
pub open spec fn has_valid_function_name(path: Seq<u8>) -> bool {
    exists|seg: Seq<u8>| is_first_segment(path, seg) && is_valid_function_name(seg)
}

/// A path has at most one first segment.
pub proof fn lemma_first_segment_unique(path: Seq<u8>, s1: Seq<u8>, s2: Seq<u8>)
    requires
        is_first_segment(path, s1),
        is_first_segment(path, s2),
    ensures
        s1 == s2,
{
    if s1.len() < s2.len() {
        assert(1 + s1.len() < path.len());
        assert(path[1 + s1.len() as int] == SLASH);
        assert(s2[s1.len() as int] == path[1 + s1.len() as int]);
        assert(false);
    } else if s2.len() < s1.len() {
        assert(1 + s2.len() < path.len());
        assert(path[1 + s2.len() as int] == SLASH);
        assert(s1[s2.len() as int] == path[1 + s2.len() as int]);
        assert(false);
    } else {
        assert(s1 =~= s2);
    }
}

/// Extracts the first path segment as the function name, enforcing
/// path-segment syntax; returns `None` exactly when the path carries no
/// usable function name.
pub fn parse_function_name(path: &Vec<u8>) -> (r: Option<Vec<u8>>)
    ensures
        match r {
            Some(name) => is_first_segment(path@, name@) && is_valid_function_name(name@),
            None => !has_valid_function_name(path@),
        },
{
    if path.len() == 0 || path[0] != SLASH {
        return None;
    }
    let mut name: Vec<u8> = Vec::new();
    let mut i: usize = 1;
    while i < path.len() && path[i] != SLASH
        invariant
            1 <= i <= path@.len(),
            path@.len() >= 1,
            path@[0] == SLASH,
            name@ == path@.subrange(1, i as int),
            forall|j: int| 0 <= j < name@.len() ==> name@[j] != SLASH,
        decreases path@.len() - i,
    {
        let b = path[i];
        name.push(b);
        proof {
            assert(path@.subrange(1, i + 1 as int) =~= path@.subrange(1, i as int).push(
                path@[i as int],
            ));
        }
        i = i + 1;
    }
    proof {
        assert(is_first_segment(path@, name@));
    }
    let n = name.len();
    let valid: bool = if n == 0 {
        false
    } else if n == 1 && name[0] == DOT {
        false
    } else if n == 2 && name[0] == DOT && name[1] == DOT {
        false
    } else {
        true
    };
    if valid {
        Some(name)
    } else {
        proof {
            assert(!is_valid_function_name(name@));
            assert forall|seg: Seq<u8>| is_first_segment(path@, seg) implies !is_valid_function_name(
                seg,
            ) by {
                lemma_first_segment_unique(path@, seg, name@);
            }
        }
        None
    }
}

/// What the router answers for one request.
pub enum RouteDecision {
    /// The path carries no usable function name: HTTP 400.
    BadRequest,
    /// The named function has no service directory: HTTP 404.
    NotFound,
    /// Dispatch to the named function over a fresh sandbox.
    Dispatch(Vec<u8>),
}

/// Routes one request from its path and whether the named service directory
/// exists. A path without a usable function name is a client error and is
/// never dispatched; a well-formed name without a service directory is
/// unknown; otherwise the request is dispatched to the named function.
pub fn route_request(path: &Vec<u8>, service_exists: bool) -> (r: RouteDecision)
    ensures
        !has_valid_function_name(path@) ==> r is BadRequest,
        has_valid_function_name(path@) && !service_exists ==> r is NotFound,
        has_valid_function_name(path@) && service_exists ==> (r matches RouteDecision::Dispatch(
            name,
        ) && is_first_segment(path@, name@) && is_valid_function_name(name@)),
{
    match parse_function_name(path) {
        None => RouteDecision::BadRequest,
        Some(name) => {
            proof {
                assert(is_first_segment(path@, name@) && is_valid_function_name(name@));
            }
            if service_exists {
                RouteDecision::Dispatch(name)
            } else {
                RouteDecision::NotFound
            }
        },
    }
}

/// Law: a request whose first segment is empty, `.`, or `..` carries no
/// usable function name, so the router answers it with a client error and
/// no sandbox is dispatched for it.
pub proof fn lemma_path_sanitation(path: Seq<u8>, seg: Seq<u8>)
    requires
        is_first_segment(path, seg),
        seg.len() == 0 || (seg.len() == 1 && seg[0] == DOT) || (seg.len() == 2 && seg[0] == DOT
            && seg[1] == DOT),
    ensures
        !has_valid_function_name(path),
{
    assert forall|s2: Seq<u8>| is_first_segment(path, s2) implies !is_valid_function_name(s2) by {
        lemma_first_segment_unique(path, s2, seg);
    }
}

/// The virtual host a request is served under: the `Host` header when one
/// is present, else the compatibility default. Routing never depends on it.
pub fn virtual_host(host_header: Option<String>) -> (r: String)
    ensures
        match host_header {
            Some(h) => r@ == h@,
            None => r@ == "example.com"@,
        },
{
    match host_header {
        Some(h) => h,
        None => "example.com".to_owned(),
    }
}

} // verus!
