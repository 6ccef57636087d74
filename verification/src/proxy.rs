//! Route table for the gateway's reverse proxy: upstreams, routes, and the
//! longest-priority route selection. The forwarding of requests over the
//! network lives in the application layer; the selection logic is verified
//! here.

use vstd::prelude::*;
use vstd::string::StringSliceAdditionalSpecFns;
use vstd::utf8::encode_utf8;

use crate::text::{spec_starts_with, str_starts_with};

verus! {

/// Errors arising while proxying a request.
#[derive(Debug, Clone)]
pub enum ProxyError {
    ConnectionFailed(String),
    Timeout,
    NoHealthyUpstream,
    RequestError(String),
}

/// An upstream service the gateway can forward to.
#[derive(Debug, Clone)]
pub struct Upstream {
    pub name: String,
    pub host: String,
    pub port: u16,
    pub is_healthy: bool,
    pub tls_verify: bool,
}

/// A routing rule: requests whose path starts with the prefix go to the
/// upstream; among matching rules the highest priority wins.
#[derive(Debug, Clone)]
pub struct Route {
    pub path_prefix: String,
    pub upstream: Upstream,
    pub strip_prefix: bool,
    pub priority: i32,
}

/// A route matches a path when the path starts with its prefix and its
/// upstream is healthy.
pub open spec fn spec_route_matches(route: Route, path: Seq<u8>) -> bool {
    spec_starts_with(path, encode_utf8(route.path_prefix@)) && route.upstream.is_healthy
}

/// The path to present to the upstream: the route's prefix is stripped when
/// the route asks for it and the path carries it (on a character boundary);
/// otherwise the path is passed through unchanged.
pub fn upstream_path<'a>(route: &Route, path: &'a str) -> (r: &'a str)
    ensures
        ({
            &&& route.strip_prefix
            &&& spec_starts_with(path.spec_bytes(), encode_utf8(route.path_prefix@))
            &&& vstd::utf8::is_char_boundary(
                path.spec_bytes(),
                encode_utf8(route.path_prefix@).len() as int,
            )
        }) ==> r.spec_bytes() == path.spec_bytes().skip(
            encode_utf8(route.path_prefix@).len() as int,
        ),
        !({
            &&& route.strip_prefix
            &&& spec_starts_with(path.spec_bytes(), encode_utf8(route.path_prefix@))
            &&& vstd::utf8::is_char_boundary(
                path.spec_bytes(),
                encode_utf8(route.path_prefix@).len() as int,
            )
        }) ==> r.spec_bytes() == path.spec_bytes(),
{
    let plen = route.path_prefix.as_str().as_bytes().len();
    proof {
        assert(plen == encode_utf8(route.path_prefix@).len());
    }
    if route.strip_prefix && str_starts_with(path, route.path_prefix.as_str())
        && path.is_char_boundary(plen) {
        let (_, rest) = path.split_at(plen);
        proof {
            assert(path.spec_bytes().skip(plen as int) =~= path.spec_bytes().subrange(
                plen as int,
                path.spec_bytes().len() as int,
            ));
            assert(rest.spec_bytes() =~= path.spec_bytes().skip(plen as int));
        }
        rest
    } else {
        path
    }
}

/// The proxy service: an ordered route table and an upstream timeout.
pub struct ProxyService {
    routes: Vec<Route>,
    timeout_secs: u64,
}

impl ProxyService {
    /// The route table.
    pub closed spec fn spec_routes(self) -> Seq<Route> {
        self.routes@
    }

    /// The upstream timeout in seconds.
    pub closed spec fn spec_timeout_secs(self) -> u64 {
        self.timeout_secs
    }

    /// Create a proxy service over a route table with the given upstream
    /// timeout in seconds.
    pub fn new(routes: Vec<Route>, timeout_secs: u64) -> (r: Self)
        ensures
            r.spec_routes() == routes@,
            r.spec_timeout_secs() == timeout_secs,
    {
        ProxyService { routes, timeout_secs }
    }

    /// The upstream timeout in seconds.
    pub fn timeout_secs(&self) -> (r: u64)
        ensures
            r == self.spec_timeout_secs(),
    {
        self.timeout_secs
    }

    /// Find the route for a path: among the routes whose prefix matches and
    /// whose upstream is healthy, the one with the highest priority — the
    /// last such on a tie. `None` exactly when no route matches.
    pub fn find_route(&self, path: &str) -> (r: Option<&Route>)
        ensures
            r is None <==> (forall|j: int|
                0 <= j < self.spec_routes().len() ==> !spec_route_matches(
                    #[trigger] self.spec_routes()[j],
                    path.spec_bytes(),
                )),
            r matches Some(route) ==> exists|i: int|
                {
                    &&& 0 <= i < self.spec_routes().len()
                    &&& *route == self.spec_routes()[i]
                    &&& spec_route_matches(*route, path.spec_bytes())
                    &&& forall|j: int|
                        0 <= j < self.spec_routes().len() && spec_route_matches(
                            #[trigger] self.spec_routes()[j],
                            path.spec_bytes(),
                        ) ==> self.spec_routes()[j].priority <= route.priority && (
                        self.spec_routes()[j].priority == route.priority ==> j <= i)
                },
    {
        let n = self.routes.len();
        let mut best: Option<usize> = None;
        for i in 0..n
            invariant
                n == self.routes@.len(),
                best is None ==> (forall|j: int|
                    0 <= j < i ==> !spec_route_matches(
                        #[trigger] self.routes@[j],
                        path.spec_bytes(),
                    )),
                best matches Some(b) ==> {
                    &&& 0 <= b < i
                    &&& spec_route_matches(self.routes@[b as int], path.spec_bytes())
                    &&& forall|j: int|
                        0 <= j < i && spec_route_matches(
                            #[trigger] self.routes@[j],
                            path.spec_bytes(),
                        ) ==> self.routes@[j].priority <= self.routes@[b as int].priority && (
                        self.routes@[j].priority == self.routes@[b as int].priority ==> j
                            <= b as int)
                },
        {
            let matches_here = str_starts_with(path, self.routes[i].path_prefix.as_str())
                && self.routes[i].upstream.is_healthy;
            if matches_here {
                match best {
                    None => {
                        best = Some(i);
                    },
                    Some(b) => {
                        if self.routes[b].priority <= self.routes[i].priority {
                            best = Some(i);
                        }
                    },
                }
            }
        }
        match best {
            None => None,
            Some(b) => {
                proof {
                    assert(self.spec_routes()[b as int] == self.routes@[b as int]);
                }
                Some(&self.routes[b])
            },
        }
    }
}

} // verus!
