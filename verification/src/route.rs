//! Route catalog: every concrete way to reach a logical endpoint.
//!
//! A route is one independent, retry-safe way to connect. The catalog
//! enumerates them for a given configuration in preference order: direct
//! connectivity first, then domain-fronted, then proxied. The catalog is
//! a pure function of the configuration; which routes actually work is
//! the racer's business.

use vstd::prelude::*;

verus! {

/// Which proxy protocol a proxied route speaks.
#[derive(Clone, Copy, Debug, PartialEq, Eq, Structural)]
pub enum ProxyKind {
    /// An HTTP proxy reached with a CONNECT request.
    Http,
    /// A SOCKS proxy.
    Socks,
}

/// A proxy through which the endpoint can be reached.
#[derive(Clone, Debug, PartialEq, Eq)]
pub struct ProxyConfig {
    /// Which protocol the proxy speaks.
    pub kind: ProxyKind,
    /// The proxy's own hostname.
    pub host: String,
    /// The proxy's own port.
    pub port: u16,
}

/// One concrete way to reach an endpoint.
#[derive(Clone, Debug, PartialEq, Eq)]
pub enum Route {
    /// Plain TLS-over-TCP to the endpoint itself.
    Direct { host: String, port: u16 },
    /// TLS to a permitted front host that forwards to the real one.
    DomainFronted { front_host: String, real_host: String, port: u16 },
    /// A tunnel through an HTTP CONNECT proxy.
    HttpProxy { proxy_host: String, proxy_port: u16, target_host: String, target_port: u16 },
    /// A tunnel through a SOCKS proxy.
    SocksProxy { proxy_host: String, proxy_port: u16, target_host: String, target_port: u16 },
}

/// The logical identity of a service endpoint, plus how it may be
/// reached. Immutable once constructed; borrowed for one connection
/// attempt at a time.
#[derive(Clone, Debug)]
pub struct EndpointConfig {
    /// The endpoint's hostnames, in preference order.
    pub hostnames: Vec<String>,
    /// The endpoint's port.
    pub port: u16,
    /// Whether direct routes may be used at all.
    pub direct_allowed: bool,
    /// A front hostname for domain-fronted fallback, if configured.
    pub front_host: Option<String>,
    /// A proxy for proxied fallback, if configured.
    pub proxy: Option<ProxyConfig>,
    /// The enclave code measurements the endpoint may present.
    pub expected_measurements: Vec<Vec<u8>>,
    /// Per-attempt timeout, in milliseconds.
    pub attempt_timeout_ms: u64,
    /// Hard ceiling across all attempts, in milliseconds.
    pub overall_timeout_ms: u64,
    /// Upper bound on backup/restore session rotations.
    pub max_rotation_steps: u32,
}

/// The priority tier of a route: lower tiers are raced first.
pub open spec fn spec_route_tier(r: Route) -> u8 {
    match r {
        Route::Direct { .. } => 0,
        Route::DomainFronted { .. } => 1,
        Route::HttpProxy { .. } => 2,
        Route::SocksProxy { .. } => 2,
    }
}

/// The priority tier of a route: lower tiers are raced first. Direct
/// connectivity is preferred, then domain fronting, then proxies.
pub fn route_tier(r: &Route) -> (t: u8)
    ensures
        t == spec_route_tier(*r),
{
    match r {
        Route::Direct { .. } => 0,
        Route::DomainFronted { .. } => 1,
        Route::HttpProxy { .. } => 2,
        Route::SocksProxy { .. } => 2,
    }
}

/// The direct routes of a configuration: one per hostname, in the
/// configuration's preference order, when direct routes are allowed.
pub open spec fn spec_direct_routes(c: EndpointConfig) -> Seq<Route> {
    if c.direct_allowed {
        Seq::new(
            c.hostnames@.len(),
            |i: int| Route::Direct { host: c.hostnames@[i], port: c.port },
        )
    } else {
        Seq::empty()
    }
}

/// The domain-fronted routes of a configuration: one per hostname when a
/// front host is configured.
pub open spec fn spec_fronted_routes(c: EndpointConfig) -> Seq<Route> {
    match c.front_host {
        Some(front) => Seq::new(
            c.hostnames@.len(),
            |i: int| Route::DomainFronted {
                front_host: front,
                real_host: c.hostnames@[i],
                port: c.port,
            },
        ),
        None => Seq::empty(),
    }
}

/// The proxied routes of a configuration: one per hostname when a proxy
/// is configured.
pub open spec fn spec_proxied_routes(c: EndpointConfig) -> Seq<Route> {
    match c.proxy {
        Some(p) => Seq::new(
            c.hostnames@.len(),
            |i: int| match p.kind {
                ProxyKind::Http => Route::HttpProxy {
                    proxy_host: p.host,
                    proxy_port: p.port,
                    target_host: c.hostnames@[i],
                    target_port: c.port,
                },
                ProxyKind::Socks => Route::SocksProxy {
                    proxy_host: p.host,
                    proxy_port: p.port,
                    target_host: c.hostnames@[i],
                    target_port: c.port,
                },
            },
        ),
        None => Seq::empty(),
    }
}

/// Every route the configuration admits, in preference order.
pub open spec fn spec_routes_for(c: EndpointConfig) -> Seq<Route> {
    spec_direct_routes(c) + spec_fronted_routes(c) + spec_proxied_routes(c)
}

/// Enumerate the candidate routes for an endpoint, in preference order:
/// direct routes first, then domain-fronted, then proxied. The result is
/// a pure function of the configuration, finite, and restartable.
pub fn routes_for(c: &EndpointConfig) -> (r: Vec<Route>)
    ensures
        r@ == spec_routes_for(*c),
{
    let mut out: Vec<Route> = Vec::new();
    let n = c.hostnames.len();
    if c.direct_allowed {
        let mut i: usize = 0;
        while i < n
            invariant
                n == c.hostnames@.len(),
                i <= n,
                c.direct_allowed,
                out@ =~= spec_direct_routes(*c).subrange(0, i as int),
            decreases n - i,
        {
            out.push(Route::Direct { host: c.hostnames[i].clone(), port: c.port });
            assert(out@ =~= spec_direct_routes(*c).subrange(0, i + 1));
            i = i + 1;
        }
    }
    assert(out@ =~= spec_direct_routes(*c));
    match &c.front_host {
        Some(front) => {
            let mut i: usize = 0;
            while i < n
                invariant
                    n == c.hostnames@.len(),
                    c.front_host == Some(*front),
                    i <= n,
                    out@ =~= spec_direct_routes(*c) + spec_fronted_routes(*c).subrange(
                        0,
                        i as int,
                    ),
                decreases n - i,
            {
                out.push(
                    Route::DomainFronted {
                        front_host: front.clone(),
                        real_host: c.hostnames[i].clone(),
                        port: c.port,
                    },
                );
                assert(out@ =~= spec_direct_routes(*c) + spec_fronted_routes(*c).subrange(
                    0,
                    i + 1,
                ));
                i = i + 1;
            }
        },
        None => {},
    }
    assert(out@ =~= spec_direct_routes(*c) + spec_fronted_routes(*c));
    match &c.proxy {
        Some(p) => {
            let mut i: usize = 0;
            while i < n
                invariant
                    n == c.hostnames@.len(),
                    c.proxy == Some(*p),
                    i <= n,
                    out@ =~= spec_direct_routes(*c) + spec_fronted_routes(*c)
                        + spec_proxied_routes(*c).subrange(0, i as int),
                decreases n - i,
            {
                let target_host = c.hostnames[i].clone();
                let route = match p.kind {
                    ProxyKind::Http => Route::HttpProxy {
                        proxy_host: p.host.clone(),
                        proxy_port: p.port,
                        target_host,
                        target_port: c.port,
                    },
                    ProxyKind::Socks => Route::SocksProxy {
                        proxy_host: p.host.clone(),
                        proxy_port: p.port,
                        target_host,
                        target_port: c.port,
                    },
                };
                out.push(route);
                assert(out@ =~= spec_direct_routes(*c) + spec_fronted_routes(*c)
                    + spec_proxied_routes(*c).subrange(0, i + 1));
                i = i + 1;
            }
        },
        None => {},
    }
    assert(out@ =~= spec_routes_for(*c));
    out
}

/// What a transport negotiated, reported uniformly over every concrete
/// transport so upper layers stay route-agnostic.
#[derive(Clone, Copy, Debug, PartialEq, Eq, Structural)]
pub struct TransportInfo {
    /// Whether the stream is TLS-protected end to end.
    pub uses_tls: bool,
    /// Whether the stream runs through a proxy tunnel.
    pub via_proxy: bool,
    /// Whether the TLS front hostname differs from the real one.
    pub domain_fronted: bool,
}

/// The transport metadata of a route.
pub open spec fn spec_transport_info(r: Route) -> TransportInfo {
    match r {
        Route::Direct { .. } => TransportInfo {
            uses_tls: true,
            via_proxy: false,
            domain_fronted: false,
        },
        Route::DomainFronted { .. } => TransportInfo {
            uses_tls: true,
            via_proxy: false,
            domain_fronted: true,
        },
        Route::HttpProxy { .. } => TransportInfo {
            uses_tls: true,
            via_proxy: true,
            domain_fronted: false,
        },
        Route::SocksProxy { .. } => TransportInfo {
            uses_tls: true,
            via_proxy: true,
            domain_fronted: false,
        },
    }
}

/// The metadata of the transport a route produces, for logging and
/// diagnostics: pure delegation by variant, nothing more.
pub fn transport_info(r: &Route) -> (t: TransportInfo)
    ensures
        t == spec_transport_info(*r),
{
    match r {
        Route::Direct { .. } => TransportInfo {
            uses_tls: true,
            via_proxy: false,
            domain_fronted: false,
        },
        Route::DomainFronted { .. } => TransportInfo {
            uses_tls: true,
            via_proxy: false,
            domain_fronted: true,
        },
        Route::HttpProxy { .. } => TransportInfo {
            uses_tls: true,
            via_proxy: true,
            domain_fronted: false,
        },
        Route::SocksProxy { .. } => TransportInfo {
            uses_tls: true,
            via_proxy: true,
            domain_fronted: false,
        },
    }
}

/// The catalog's preference order is by tier: a route never precedes one
/// of a strictly lower tier.
pub proof fn lemma_routes_ordered_by_tier(c: EndpointConfig, i: int, j: int)
    requires
        0 <= i <= j < spec_routes_for(c).len(),
    ensures
        spec_route_tier(spec_routes_for(c)[i]) <= spec_route_tier(spec_routes_for(c)[j]),
{
    let d = spec_direct_routes(c).len() as int;
    let f = spec_fronted_routes(c).len() as int;
}

} // verus!
