use attested_net::dns::{log_safe_domain, FallbackEntry, Resolver};

fn host(name: &str) -> String {
    String::from(name)
}

#[test]
fn fresh_lookup_is_deduplicated_and_cached() {
    let mut r = Resolver::new(vec![]);
    let got = r
        .resolve_with(&host("chat.zonarosa.io"), Some(vec![1, 2, 1, 3, 2]))
        .expect("lookup succeeded");
    assert_eq!(got, vec![1, 2, 3]);

    // The second resolution answers from the cache even though the
    // lookup fails this time.
    let cached = r
        .resolve_with(&host("chat.zonarosa.io"), None)
        .expect("cache answers");
    assert_eq!(cached, vec![1, 2, 3]);
}

#[test]
fn network_change_clears_the_whole_cache() {
    let mut r = Resolver::new(vec![]);
    r.resolve_with(&host("a.example"), Some(vec![10])).unwrap();
    r.resolve_with(&host("b.example"), Some(vec![20])).unwrap();
    r.invalidate_all();
    assert!(r.resolve_with(&host("a.example"), None).is_err());
    assert!(r.resolve_with(&host("b.example"), None).is_err());
}

#[test]
fn failed_lookup_falls_back_to_the_static_list() {
    let fallback = vec![FallbackEntry { hostname: host("chat.zonarosa.io"), addrs: vec![99, 98] }];
    let mut r = Resolver::new(fallback);
    let got = r
        .resolve_with(&host("chat.zonarosa.io"), None)
        .expect("fallback answers");
    assert_eq!(got, vec![99, 98]);
}

#[test]
fn empty_lookup_result_counts_as_failure() {
    let fallback = vec![FallbackEntry { hostname: host("h.example"), addrs: vec![4] }];
    let mut r = Resolver::new(fallback);
    assert_eq!(
        r.resolve_with(&host("h.example"), Some(vec![])).unwrap(),
        vec![4]
    );
}

#[test]
fn unresolvable_hostname_reports_an_error() {
    let mut r = Resolver::new(vec![]);
    assert!(r.resolve_with(&host("nowhere.example"), None).is_err());
}

#[test]
fn last_good_marker_sticks_to_a_known_address() {
    let mut r = Resolver::new(vec![]);
    r.resolve_with(&host("h.example"), Some(vec![1, 2, 3])).unwrap();
    r.mark_last_good(&host("h.example"), 2);
    assert_eq!(r.cache[0].addresses.last_good, Some(2));
    // An address the set does not hold is ignored.
    r.mark_last_good(&host("h.example"), 9);
    assert_eq!(r.cache[0].addresses.last_good, Some(2));
}

#[test]
fn log_safe_domain_keeps_own_domains_only() {
    assert_eq!(log_safe_domain("localhost"), "localhost");
    assert_eq!(log_safe_domain("chat.zonarosa.io"), "chat.zonarosa.io");
    assert_eq!(log_safe_domain(".zonarosa.io"), ".zonarosa.io");
    assert_eq!(log_safe_domain("example.com"), "REDACTED");
    assert_eq!(log_safe_domain(""), "REDACTED");
    assert_eq!(log_safe_domain("localhost2"), "REDACTED");
    assert_eq!(log_safe_domain("zonarosa.io"), "REDACTED");
}
