use attested_net::race::{AttemptError, RaceAction, RaceOutcome, RaceState};
use attested_net::route::{
    route_tier, routes_for, transport_info, EndpointConfig, ProxyConfig, ProxyKind, Route,
    TransportInfo,
};
use attested_net::errors::RetryLater;

fn config(direct: bool, front: Option<&str>, proxy: Option<ProxyKind>) -> EndpointConfig {
    EndpointConfig {
        hostnames: vec![String::from("chat.zonarosa.io"), String::from("backup.zonarosa.io")],
        port: 443,
        direct_allowed: direct,
        front_host: front.map(String::from),
        proxy: proxy.map(|kind| ProxyConfig {
            kind,
            host: String::from("proxy.example.org"),
            port: 8080,
        }),
        expected_measurements: vec![],
        attempt_timeout_ms: 5_000,
        overall_timeout_ms: 30_000,
        max_rotation_steps: 3,
    }
}

fn tiers_of(routes: &[Route]) -> Vec<u8> {
    routes.iter().map(route_tier).collect()
}

#[test]
fn catalog_orders_direct_then_fronted_then_proxied() {
    let c = config(true, Some("front.example.net"), Some(ProxyKind::Http));
    let routes = routes_for(&c);
    assert_eq!(routes.len(), 6);
    assert_eq!(
        routes[0],
        Route::Direct { host: String::from("chat.zonarosa.io"), port: 443 }
    );
    assert_eq!(
        routes[1],
        Route::Direct { host: String::from("backup.zonarosa.io"), port: 443 }
    );
    assert_eq!(
        routes[2],
        Route::DomainFronted {
            front_host: String::from("front.example.net"),
            real_host: String::from("chat.zonarosa.io"),
            port: 443
        }
    );
    assert_eq!(
        routes[5],
        Route::HttpProxy {
            proxy_host: String::from("proxy.example.org"),
            proxy_port: 8080,
            target_host: String::from("backup.zonarosa.io"),
            target_port: 443
        }
    );
    let tiers = tiers_of(&routes);
    for w in tiers.windows(2) {
        assert!(w[0] <= w[1]);
    }
}

#[test]
fn catalog_skips_disabled_direct_routes() {
    let c = config(false, None, Some(ProxyKind::Socks));
    let routes = routes_for(&c);
    assert_eq!(routes.len(), 2);
    assert!(matches!(routes[0], Route::SocksProxy { .. }));
}

#[test]
fn transport_info_reports_route_metadata() {
    let c = config(true, Some("front.example.net"), Some(ProxyKind::Http));
    let routes = routes_for(&c);
    assert_eq!(
        transport_info(&routes[0]),
        TransportInfo { uses_tls: true, via_proxy: false, domain_fronted: false }
    );
    assert_eq!(
        transport_info(&routes[2]),
        TransportInfo { uses_tls: true, via_proxy: false, domain_fronted: true }
    );
    assert_eq!(
        transport_info(&routes[4]),
        TransportInfo { uses_tls: true, via_proxy: true, domain_fronted: false }
    );
}

#[test]
fn reachable_direct_route_wins_and_proxy_is_never_attempted() {
    // Endpoint with two direct routes (one reachable, one not) and one
    // proxy route: the reachable direct route wins and the proxy route
    // is never attempted.
    let tiers = vec![0u8, 0u8, 2u8];
    let mut race = RaceState::new(tiers);
    let a = race.start();
    assert_eq!(a, RaceAction::StartAttempts(vec![0, 1]));
    let a = race.on_attempt_failure(1, AttemptError::TransportConnect);
    assert_eq!(a, RaceAction::Wait);
    let a = race.on_attempt_success(0);
    assert_eq!(a, RaceAction::CancelAttempts(vec![]));
    assert_eq!(race.outcome(), Some(RaceOutcome::Connected(0)));
    assert!(!race.was_attempted(2));
}

#[test]
fn winner_cancels_other_attempts_in_flight() {
    let tiers = vec![0u8, 0u8, 0u8];
    let mut race = RaceState::new(tiers);
    let a = race.start();
    assert_eq!(a, RaceAction::StartAttempts(vec![0, 1, 2]));
    let a = race.on_attempt_success(1);
    assert_eq!(a, RaceAction::CancelAttempts(vec![0, 2]));
    assert_eq!(race.outcome(), Some(RaceOutcome::Connected(1)));
}

#[test]
fn exhausted_tier_starts_the_next_one() {
    let tiers = vec![0u8, 1u8];
    let mut race = RaceState::new(tiers);
    assert_eq!(race.start(), RaceAction::StartAttempts(vec![0]));
    let a = race.on_attempt_failure(0, AttemptError::AttemptTimedOut);
    assert_eq!(a, RaceAction::StartAttempts(vec![1]));
    let a = race.on_attempt_success(1);
    assert_eq!(a, RaceAction::CancelAttempts(vec![]));
    assert_eq!(race.outcome(), Some(RaceOutcome::Connected(1)));
}

#[test]
fn all_attempts_failed_records_one_error_per_route() {
    let tiers = vec![0u8, 0u8, 1u8];
    let mut race = RaceState::new(tiers);
    assert_eq!(race.start(), RaceAction::StartAttempts(vec![0, 1]));
    assert_eq!(
        race.on_attempt_failure(0, AttemptError::TransportConnect),
        RaceAction::Wait
    );
    assert_eq!(
        race.on_attempt_failure(1, AttemptError::TlsHandshake),
        RaceAction::StartAttempts(vec![2])
    );
    assert_eq!(
        race.on_attempt_failure(2, AttemptError::ProxyRefused),
        RaceAction::Finished
    );
    assert_eq!(race.outcome(), Some(RaceOutcome::AllAttemptsFailed));
    assert_eq!(race.error_of(0), Some(AttemptError::TransportConnect));
    assert_eq!(race.error_of(1), Some(AttemptError::TlsHandshake));
    assert_eq!(race.error_of(2), Some(AttemptError::ProxyRefused));
}

#[test]
fn empty_route_list_fails_immediately() {
    let mut race = RaceState::new(vec![]);
    assert_eq!(race.start(), RaceAction::Finished);
    assert_eq!(race.outcome(), Some(RaceOutcome::AllAttemptsFailed));
}

#[test]
fn server_backoff_short_circuits_the_race() {
    let tiers = vec![0u8, 0u8, 1u8];
    let mut race = RaceState::new(tiers);
    assert_eq!(race.start(), RaceAction::StartAttempts(vec![0, 1]));
    let backoff = RetryLater { retry_after_seconds: 42 };
    let a = race.on_attempt_failure(0, AttemptError::RetryLater(backoff));
    assert_eq!(a, RaceAction::CancelAttempts(vec![1]));
    assert_eq!(race.outcome(), Some(RaceOutcome::ShortCircuit(backoff)));
    assert!(!race.was_attempted(2));
}

#[test]
fn overall_timeout_cancels_everything_in_flight() {
    let tiers = vec![0u8, 0u8];
    let mut race = RaceState::new(tiers);
    assert_eq!(race.start(), RaceAction::StartAttempts(vec![0, 1]));
    assert_eq!(
        race.on_attempt_failure(0, AttemptError::TransportConnect),
        RaceAction::Wait
    );
    let a = race.on_overall_timeout();
    assert_eq!(a, RaceAction::CancelAttempts(vec![1]));
    assert_eq!(race.outcome(), Some(RaceOutcome::TimedOut));
}
