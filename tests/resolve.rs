use cfurl::command::{resolve, security_page, Command};
use cfurl::url::{account_url, zone_url};

const ROOT: &str = "https://dash.cloudflare.com/?to=/:account";

fn zone(z: &str) -> String {
    z.to_string()
}

fn zone_scoped(z: &str) -> Vec<(Command, &'static str)> {
    vec![
        (Command::Dns { zone: zone(z) }, "dns"),
        (Command::Analytics { zone: zone(z) }, "analytics"),
        (Command::Ssl { zone: zone(z) }, "ssl-tls"),
        (Command::Caching { zone: zone(z) }, "caching"),
        (Command::Rules { zone: zone(z) }, "rules"),
        (Command::Speed { zone: zone(z) }, "speed"),
        (Command::Email { zone: zone(z) }, "email"),
        (Command::Spectrum { zone: zone(z) }, "spectrum"),
        (Command::Network { zone: zone(z) }, "network"),
        (Command::Traffic { zone: zone(z) }, "traffic"),
        (Command::Scrape { zone: zone(z) }, "content-protection"),
        (Command::Zaraz { zone: zone(z) }, "zaraz"),
    ]
}

#[test]
fn zone_scoped_commands_hold_zone_then_page() {
    for (cmd, page) in zone_scoped("example.com") {
        let url = resolve(&cmd);
        assert!(url.contains(&format!("/example.com/{page}")), "{url}");
        assert_eq!(url, format!("{ROOT}/example.com/{page}"));
    }
}

#[test]
fn zone_overview_has_no_page() {
    let url = resolve(&Command::Zone { zone: zone("example.com") });
    assert_eq!(url, "https://dash.cloudflare.com/?to=/:account/example.com");
}

#[test]
fn dns_exact_url() {
    let url = resolve(&Command::Dns { zone: zone("miguel.build") });
    assert_eq!(url, "https://dash.cloudflare.com/?to=/:account/miguel.build/dns");
}

#[test]
fn security_known_section() {
    let url = resolve(&Command::Security { zone: zone("z"), section: Some("waf".to_string()) });
    assert!(url.ends_with("/z/security/waf"));
    for s in ["waf", "events", "ddos", "bots"] {
        let url = resolve(&Command::Security { zone: zone("z"), section: Some(s.to_string()) });
        assert_eq!(url, format!("{ROOT}/z/security/{s}"));
    }
}

#[test]
fn security_unknown_or_missing_section_falls_back() {
    let bogus = resolve(&Command::Security { zone: zone("z"), section: Some("bogus".to_string()) });
    let none = resolve(&Command::Security { zone: zone("z"), section: None });
    assert!(bogus.ends_with("/z/security"));
    assert!(none.ends_with("/z/security"));
    assert_eq!(bogus, none);
    let upper = resolve(&Command::Security { zone: zone("z"), section: Some("WAF".to_string()) });
    assert_eq!(upper, format!("{ROOT}/z/security"));
}

#[test]
fn security_page_table() {
    assert_eq!(security_page(&Some("ddos".to_string())), "security/ddos");
    assert_eq!(security_page(&Some(String::new())), "security");
    assert_eq!(security_page(&None), "security");
}

#[test]
fn workers_with_and_without_name() {
    let list = resolve(&Command::Workers { name: None });
    assert!(list.ends_with("workers-and-pages"));
    assert_eq!(list, format!("{ROOT}/workers-and-pages"));
    let one = resolve(&Command::Workers { name: Some("svc".to_string()) });
    assert!(one.ends_with("workers/services/view/svc"));
    assert_eq!(one, format!("{ROOT}/workers/services/view/svc"));
}

#[test]
fn resource_listings() {
    assert_eq!(resolve(&Command::Pages { name: None }), format!("{ROOT}/workers-and-pages"));
    assert_eq!(
        resolve(&Command::Pages { name: Some("site".to_string()) }),
        format!("{ROOT}/pages/view/site")
    );
    assert_eq!(resolve(&Command::R2 { bucket: None }), format!("{ROOT}/r2"));
    assert_eq!(
        resolve(&Command::R2 { bucket: Some("b".to_string()) }),
        format!("{ROOT}/r2/default/buckets/b")
    );
    assert_eq!(resolve(&Command::D1 { database: None }), format!("{ROOT}/workers/d1"));
    assert_eq!(
        resolve(&Command::D1 { database: Some("db".to_string()) }),
        format!("{ROOT}/workers/d1/databases/db")
    );
    assert_eq!(resolve(&Command::Kv { namespace: None }), format!("{ROOT}/workers/kv"));
    assert_eq!(
        resolve(&Command::Kv { namespace: Some("ns".to_string()) }),
        format!("{ROOT}/workers/kv/namespaces/ns")
    );
}

#[test]
fn names_are_interpolated_verbatim() {
    let url = resolve(&Command::R2 { bucket: Some("a/b?c".to_string()) });
    assert_eq!(url, format!("{ROOT}/r2/default/buckets/a/b?c"));
}

#[test]
fn logs_account_or_zone() {
    assert_eq!(resolve(&Command::Logs { zone: None }), format!("{ROOT}/logs"));
    let url = resolve(&Command::Logs { zone: Some("z".to_string()) });
    assert!(url.ends_with("z/analytics/logs"));
    assert_eq!(url, format!("{ROOT}/z/analytics/logs"));
}

#[test]
fn zero_trust_and_access_share_a_url() {
    assert_eq!(resolve(&Command::ZeroTrust), resolve(&Command::Access));
    assert_eq!(resolve(&Command::Access), format!("{ROOT}/access"));
}

#[test]
fn resolving_twice_gives_the_same_url() {
    let cmd = Command::Security { zone: zone("example.com"), section: Some("bots".to_string()) };
    assert_eq!(resolve(&cmd), resolve(&cmd));
    let cmd = Command::Kv { namespace: Some("ns".to_string()) };
    assert_eq!(resolve(&cmd), resolve(&cmd));
}

#[test]
fn fixed_account_pages() {
    let cases = [
        (Command::Tunnels, "/access/tunnels"),
        (Command::Stream, "/stream"),
        (Command::Images, "/images"),
        (Command::Queues, "/queues"),
        (Command::Ai, "/ai"),
        (Command::Vectorize, "/vectorize"),
        (Command::Hyperdrive, "/hyperdrive"),
        (Command::DurableObjects, "/workers/durable-objects"),
        (Command::Account, ""),
        (Command::Billing, "/billing"),
        (Command::AuditLog, "/audit-log"),
        (Command::Registrar, "/domains"),
        (Command::Turnstile, "/turnstile"),
        (Command::WebAnalytics, "/web-analytics"),
    ];
    for (cmd, tail) in cases {
        assert_eq!(resolve(&cmd), format!("{ROOT}{tail}"));
    }
}

#[test]
fn api_tokens_and_home() {
    assert_eq!(resolve(&Command::ApiTokens), "https://dash.cloudflare.com/profile/api-tokens");
    assert_eq!(resolve(&Command::Dash), "https://dash.cloudflare.com");
}

#[test]
fn url_builders() {
    assert_eq!(zone_url("a.com", ""), format!("{ROOT}/a.com"));
    assert_eq!(zone_url("a.com", "x/y"), format!("{ROOT}/a.com/x/y"));
    assert_eq!(zone_url("", "dns"), format!("{ROOT}//dns"));
    assert_eq!(account_url(""), ROOT);
    assert_eq!(account_url("billing"), format!("{ROOT}/billing"));
}
