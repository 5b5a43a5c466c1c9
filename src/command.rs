//! The dashboard pages that can be asked for, and the URL of each.

use vstd::prelude::*;
use crate::url::{
    account_root, account_url, account_url_spec, ends_with, zone_url, zone_url_spec, DASH_BASE,
};

verus! {

/// A request for one dashboard page, with the zone or resource it is about.
///
/// Names are taken verbatim: they are neither escaped nor checked.
#[derive(Debug)]
pub enum Command {
    Dns { zone: String },
    Workers { name: Option<String> },
    Pages { name: Option<String> },
    R2 { bucket: Option<String> },
    D1 { database: Option<String> },
    Kv { namespace: Option<String> },
    Analytics { zone: String },
    Security { zone: String, section: Option<String> },
    Ssl { zone: String },
    Caching { zone: String },
    Rules { zone: String },
    Speed { zone: String },
    Email { zone: String },
    Spectrum { zone: String },
    Network { zone: String },
    Traffic { zone: String },
    Scrape { zone: String },
    ZeroTrust,
    Access,
    Tunnels,
    Stream,
    Images,
    Queues,
    Ai,
    Vectorize,
    Hyperdrive,
    DurableObjects,
    Account,
    Billing,
    AuditLog,
    ApiTokens,
    Registrar,
    Turnstile,
    Zaraz { zone: String },
    WebAnalytics,
    Logs { zone: Option<String> },
    Zone { zone: String },
    Dash,
}

/// A [`Command`] with its names as character sequences.
pub enum CommandView {
    Dns { zone: Seq<char> },
    Workers { name: Option<Seq<char>> },
    Pages { name: Option<Seq<char>> },
    R2 { bucket: Option<Seq<char>> },
    D1 { database: Option<Seq<char>> },
    Kv { namespace: Option<Seq<char>> },
    Analytics { zone: Seq<char> },
    Security { zone: Seq<char>, section: Option<Seq<char>> },
    Ssl { zone: Seq<char> },
    Caching { zone: Seq<char> },
    Rules { zone: Seq<char> },
    Speed { zone: Seq<char> },
    Email { zone: Seq<char> },
    Spectrum { zone: Seq<char> },
    Network { zone: Seq<char> },
    Traffic { zone: Seq<char> },
    Scrape { zone: Seq<char> },
    ZeroTrust,
    Access,
    Tunnels,
    Stream,
    Images,
    Queues,
    Ai,
    Vectorize,
    Hyperdrive,
    DurableObjects,
    Account,
    Billing,
    AuditLog,
    ApiTokens,
    Registrar,
    Turnstile,
    Zaraz { zone: Seq<char> },
    WebAnalytics,
    Logs { zone: Option<Seq<char>> },
    Zone { zone: Seq<char> },
    Dash,
}

pub open spec fn opt_view(o: Option<String>) -> Option<Seq<char>> {
    match o {
        Some(s) => Some(s@),
        None => None,
    }
}

impl View for Command {
    type V = CommandView;

    open spec fn view(&self) -> CommandView {
        match self {
            Command::Dns { zone } => CommandView::Dns { zone: zone@ },
            Command::Workers { name } => CommandView::Workers { name: opt_view(*name) },
            Command::Pages { name } => CommandView::Pages { name: opt_view(*name) },
            Command::R2 { bucket } => CommandView::R2 { bucket: opt_view(*bucket) },
            Command::D1 { database } => CommandView::D1 { database: opt_view(*database) },
            Command::Kv { namespace } => CommandView::Kv { namespace: opt_view(*namespace) },
            Command::Analytics { zone } => CommandView::Analytics { zone: zone@ },
            Command::Security { zone, section } => CommandView::Security {
                zone: zone@,
                section: opt_view(*section),
            },
            Command::Ssl { zone } => CommandView::Ssl { zone: zone@ },
            Command::Caching { zone } => CommandView::Caching { zone: zone@ },
            Command::Rules { zone } => CommandView::Rules { zone: zone@ },
            Command::Speed { zone } => CommandView::Speed { zone: zone@ },
            Command::Email { zone } => CommandView::Email { zone: zone@ },
            Command::Spectrum { zone } => CommandView::Spectrum { zone: zone@ },
            Command::Network { zone } => CommandView::Network { zone: zone@ },
            Command::Traffic { zone } => CommandView::Traffic { zone: zone@ },
            Command::Scrape { zone } => CommandView::Scrape { zone: zone@ },
            Command::ZeroTrust => CommandView::ZeroTrust,
            Command::Access => CommandView::Access,
            Command::Tunnels => CommandView::Tunnels,
            Command::Stream => CommandView::Stream,
            Command::Images => CommandView::Images,
            Command::Queues => CommandView::Queues,
            Command::Ai => CommandView::Ai,
            Command::Vectorize => CommandView::Vectorize,
            Command::Hyperdrive => CommandView::Hyperdrive,
            Command::DurableObjects => CommandView::DurableObjects,
            Command::Account => CommandView::Account,
            Command::Billing => CommandView::Billing,
            Command::AuditLog => CommandView::AuditLog,
            Command::ApiTokens => CommandView::ApiTokens,
            Command::Registrar => CommandView::Registrar,
            Command::Turnstile => CommandView::Turnstile,
            Command::Zaraz { zone } => CommandView::Zaraz { zone: zone@ },
            Command::WebAnalytics => CommandView::WebAnalytics,
            Command::Logs { zone } => CommandView::Logs { zone: opt_view(*zone) },
            Command::Zone { zone } => CommandView::Zone { zone: zone@ },
            Command::Dash => CommandView::Dash,
        }
    }
}

/// Where a URL points: a page of a zone, a page of the account, or a path
/// under the dashboard's origin.
pub enum Route {
    ZonePage { zone: Seq<char>, page: Seq<char> },
    AccountPage { page: Seq<char> },
    Fixed { path: Seq<char> },
}

/// The URL of a route.
pub open spec fn render(r: Route) -> Seq<char> {
    match r {
        Route::ZonePage { zone, page } => zone_url_spec(zone, page),
        Route::AccountPage { page } => account_url_spec(page),
        Route::Fixed { path } => DASH_BASE@ + path,
    }
}

/// The vocabulary of security sections that have a page of their own.
pub open spec fn is_known_section(s: Seq<char>) -> bool {
    s == "waf"@ || s == "events"@ || s == "ddos"@ || s == "bots"@
}

/// A section is given, and it is one of the known ones.
pub open spec fn names_known_section(section: Option<Seq<char>>) -> bool {
    section matches Some(s) && is_known_section(s)
}

/// The zone page for the security settings: the named section's page when it
/// is known, the general page otherwise.
pub open spec fn section_page(section: Option<Seq<char>>) -> Seq<char> {
    match section {
        Some(s) => if s == "waf"@ {
            "security/waf"@
        } else if s == "events"@ {
            "security/events"@
        } else if s == "ddos"@ {
            "security/ddos"@
        } else if s == "bots"@ {
            "security/bots"@
        } else {
            "security"@
        },
        None => "security"@,
    }
}

/// An account page that lists resources (`list`), or shows the one named
/// (`item` followed by the name).
pub open spec fn listing(name: Option<Seq<char>>, list: Seq<char>, item: Seq<char>) -> Seq<char> {
    match name {
        Some(n) => item + n,
        None => list,
    }
}

/// The page that each command asks for.
pub open spec fn route(c: CommandView) -> Route {
    match c {
        CommandView::Dns { zone } => Route::ZonePage { zone, page: "dns"@ },
        CommandView::Analytics { zone } => Route::ZonePage { zone, page: "analytics"@ },
        CommandView::Security { zone, section } => Route::ZonePage {
            zone,
            page: section_page(section),
        },
        CommandView::Ssl { zone } => Route::ZonePage { zone, page: "ssl-tls"@ },
        CommandView::Caching { zone } => Route::ZonePage { zone, page: "caching"@ },
        CommandView::Rules { zone } => Route::ZonePage { zone, page: "rules"@ },
        CommandView::Speed { zone } => Route::ZonePage { zone, page: "speed"@ },
        CommandView::Email { zone } => Route::ZonePage { zone, page: "email"@ },
        CommandView::Spectrum { zone } => Route::ZonePage { zone, page: "spectrum"@ },
        CommandView::Network { zone } => Route::ZonePage { zone, page: "network"@ },
        CommandView::Traffic { zone } => Route::ZonePage { zone, page: "traffic"@ },
        CommandView::Scrape { zone } => Route::ZonePage { zone, page: "content-protection"@ },
        CommandView::Zaraz { zone } => Route::ZonePage { zone, page: "zaraz"@ },
        CommandView::Zone { zone } => Route::ZonePage { zone, page: ""@ },
        CommandView::Logs { zone } => match zone {
            Some(z) => Route::ZonePage { zone: z, page: "analytics/logs"@ },
            None => Route::AccountPage { page: "logs"@ },
        },
        CommandView::Workers { name } => Route::AccountPage {
            page: listing(name, "workers-and-pages"@, "workers/services/view/"@),
        },
        CommandView::Pages { name } => Route::AccountPage {
            page: listing(name, "workers-and-pages"@, "pages/view/"@),
        },
        CommandView::R2 { bucket } => Route::AccountPage {
            page: listing(bucket, "r2"@, "r2/default/buckets/"@),
        },
        CommandView::D1 { database } => Route::AccountPage {
            page: listing(database, "workers/d1"@, "workers/d1/databases/"@),
        },
        CommandView::Kv { namespace } => Route::AccountPage {
            page: listing(namespace, "workers/kv"@, "workers/kv/namespaces/"@),
        },
        CommandView::ZeroTrust => Route::AccountPage { page: "access"@ },
        CommandView::Access => Route::AccountPage { page: "access"@ },
        CommandView::Tunnels => Route::AccountPage { page: "access/tunnels"@ },
        CommandView::Stream => Route::AccountPage { page: "stream"@ },
        CommandView::Images => Route::AccountPage { page: "images"@ },
        CommandView::Queues => Route::AccountPage { page: "queues"@ },
        CommandView::Ai => Route::AccountPage { page: "ai"@ },
        CommandView::Vectorize => Route::AccountPage { page: "vectorize"@ },
        CommandView::Hyperdrive => Route::AccountPage { page: "hyperdrive"@ },
        CommandView::DurableObjects => Route::AccountPage { page: "workers/durable-objects"@ },
        CommandView::Account => Route::AccountPage { page: ""@ },
        CommandView::Billing => Route::AccountPage { page: "billing"@ },
        CommandView::AuditLog => Route::AccountPage { page: "audit-log"@ },
        CommandView::ApiTokens => Route::Fixed { path: "/profile/api-tokens"@ },
        CommandView::Registrar => Route::AccountPage { page: "domains"@ },
        CommandView::Turnstile => Route::AccountPage { page: "turnstile"@ },
        CommandView::WebAnalytics => Route::AccountPage { page: "web-analytics"@ },
        CommandView::Dash => Route::Fixed { path: Seq::empty() },
    }
}

/// The URL that a command opens.
pub open spec fn destination(c: CommandView) -> Seq<char> {
    render(route(c))
}

/// The commands that open a fixed page of the zone they are given.
pub open spec fn is_zone_scoped(c: CommandView) -> bool {
    ||| c is Dns
    ||| c is Analytics
    ||| c is Ssl
    ||| c is Caching
    ||| c is Rules
    ||| c is Speed
    ||| c is Email
    ||| c is Spectrum
    ||| c is Network
    ||| c is Traffic
    ||| c is Scrape
    ||| c is Zaraz
    ||| c is Zone
}

/// The zone that a zone-scoped command is given.
pub open spec fn zone_arg(c: CommandView) -> Seq<char> {
    match c {
        CommandView::Dns { zone } => zone,
        CommandView::Analytics { zone } => zone,
        CommandView::Ssl { zone } => zone,
        CommandView::Caching { zone } => zone,
        CommandView::Rules { zone } => zone,
        CommandView::Speed { zone } => zone,
        CommandView::Email { zone } => zone,
        CommandView::Spectrum { zone } => zone,
        CommandView::Network { zone } => zone,
        CommandView::Traffic { zone } => zone,
        CommandView::Scrape { zone } => zone,
        CommandView::Zaraz { zone } => zone,
        CommandView::Zone { zone } => zone,
        _ => Seq::empty(),
    }
}

/// What follows the account root in the URL of `page` in `zone`.
pub open spec fn zone_tail(zone: Seq<char>, page: Seq<char>) -> Seq<char> {
    if page.len() == 0 {
        "/"@ + zone
    } else {
        "/"@ + zone + "/"@ + page
    }
}

proof fn lemma_ends_with_concat(a: Seq<char>, t: Seq<char>)
    ensures
        ends_with(a + t, t),
{
    assert((a + t).subrange(a.len() as int, (a + t).len() as int) =~= t);
}

proof fn lemma_zone_url_tail(zone: Seq<char>, page: Seq<char>)
    ensures
        zone_url_spec(zone, page) =~= account_root() + zone_tail(zone, page),
        ends_with(zone_url_spec(zone, page), zone_tail(zone, page)),
{
    assert(zone_url_spec(zone, page) =~= account_root() + zone_tail(zone, page));
    lemma_ends_with_concat(account_root(), zone_tail(zone, page));
}

/// A zone-scoped command opens a page of the zone it is given: its URL ends
/// with `/`, the zone, then `/` and the command's page, and only the zone
/// overview has no page.
pub proof fn lemma_zone_scoped_url(c: CommandView)
    requires
        is_zone_scoped(c),
    ensures
        route(c) matches Route::ZonePage { zone, page } && zone == zone_arg(c) && (page.len()
            == 0 <==> c is Zone) && destination(c) == account_root() + zone_tail(zone, page)
            && ends_with(destination(c), zone_tail(zone, page)),
{
    reveal_strlit("dns");
    reveal_strlit("analytics");
    reveal_strlit("ssl-tls");
    reveal_strlit("caching");
    reveal_strlit("rules");
    reveal_strlit("speed");
    reveal_strlit("email");
    reveal_strlit("spectrum");
    reveal_strlit("network");
    reveal_strlit("traffic");
    reveal_strlit("content-protection");
    reveal_strlit("zaraz");
    reveal_strlit("");
    if let Route::ZonePage { zone, page } = route(c) {
        lemma_zone_url_tail(zone, page);
    }
}

/// The security page of a known section is that section under `security/`;
/// any other section, or none, opens the general security page.
pub proof fn lemma_security_section(zone: Seq<char>, section: Option<Seq<char>>)
    ensures
        section matches Some(s) ==> (is_known_section(s) ==> destination(
            CommandView::Security { zone, section },
        ) == zone_url_spec(zone, "security/"@ + s) && ends_with(
            destination(CommandView::Security { zone, section }),
            "/"@ + zone + "/security/"@ + s,
        )),
        !names_known_section(section) ==> destination(CommandView::Security { zone, section })
            == destination(CommandView::Security { zone, section: None }) && ends_with(
            destination(CommandView::Security { zone, section }),
            "/"@ + zone + "/security"@,
        ),
{
    reveal_strlit("security");
    reveal_strlit("security/");
    reveal_strlit("/security");
    reveal_strlit("/security/");
    reveal_strlit("security/waf");
    reveal_strlit("security/events");
    reveal_strlit("security/ddos");
    reveal_strlit("security/bots");
    reveal_strlit("waf");
    reveal_strlit("events");
    reveal_strlit("ddos");
    reveal_strlit("bots");
    reveal_strlit("/");
    let page = section_page(section);
    lemma_zone_url_tail(zone, page);
    if let Some(s) = section {
        if is_known_section(s) {
            assert(page =~= "security/"@ + s);
            assert(zone_tail(zone, page) =~= "/"@ + zone + "/security/"@ + s);
        } else {
            assert(zone_tail(zone, page) =~= "/"@ + zone + "/security"@);
        }
    } else {
        assert(zone_tail(zone, page) =~= "/"@ + zone + "/security"@);
    }
}

/// Zero Trust and Access are two names for one page.
pub proof fn lemma_zero_trust_is_access()
    ensures
        destination(CommandView::ZeroTrust) == destination(CommandView::Access),
{
}

/// A URL depends on the command and its names alone: the same request gives
/// the same URL each time.
pub proof fn lemma_resolve_deterministic(a: Command, b: Command)
    requires
        a@ == b@,
    ensures
        destination(a@) == destination(b@),
{
}

/// The zone page for the security settings, given the section asked for.
pub fn security_page(section: &Option<String>) -> (r: &'static str)
    ensures
        r@ == section_page(opt_view(*section)),
{
    match section {
        Some(s) => {
            if *s == String::from_str("waf") {
                "security/waf"
            } else if *s == String::from_str("events") {
                "security/events"
            } else if *s == String::from_str("ddos") {
                "security/ddos"
            } else if *s == String::from_str("bots") {
                "security/bots"
            } else {
                "security"
            }
        },
        None => "security",
    }
}

/// The account URL of a resource listing: `list` without a name, `item`
/// followed by the name with one.
fn listing_url(name: &Option<String>, list: &str, item: &str) -> (r: String)
    ensures
        r@ == account_url_spec(listing(opt_view(*name), list@, item@)),
{
    match name {
        Some(n) => {
            let mut page = String::from_str(item);
            page.append(n.as_str());
            account_url(page.as_str())
        },
        None => account_url(list),
    }
}

/// The dashboard URL that `cmd` opens.
pub fn resolve(cmd: &Command) -> (r: String)
    ensures
        r@ == destination(cmd@),
{
    match cmd {
        Command::Dns { zone } => zone_url(zone.as_str(), "dns"),
        Command::Analytics { zone } => zone_url(zone.as_str(), "analytics"),
        Command::Security { zone, section } => zone_url(zone.as_str(), security_page(section)),
        Command::Ssl { zone } => zone_url(zone.as_str(), "ssl-tls"),
        Command::Caching { zone } => zone_url(zone.as_str(), "caching"),
        Command::Rules { zone } => zone_url(zone.as_str(), "rules"),
        Command::Speed { zone } => zone_url(zone.as_str(), "speed"),
        Command::Email { zone } => zone_url(zone.as_str(), "email"),
        Command::Spectrum { zone } => zone_url(zone.as_str(), "spectrum"),
        Command::Network { zone } => zone_url(zone.as_str(), "network"),
        Command::Traffic { zone } => zone_url(zone.as_str(), "traffic"),
        Command::Scrape { zone } => zone_url(zone.as_str(), "content-protection"),
        Command::Zaraz { zone } => zone_url(zone.as_str(), "zaraz"),
        Command::Zone { zone } => zone_url(zone.as_str(), ""),
        Command::Logs { zone } => match zone {
            Some(z) => zone_url(z.as_str(), "analytics/logs"),
            None => account_url("logs"),
        },
        Command::Workers { name } => listing_url(name, "workers-and-pages", "workers/services/view/"),
        Command::Pages { name } => listing_url(name, "workers-and-pages", "pages/view/"),
        Command::R2 { bucket } => listing_url(bucket, "r2", "r2/default/buckets/"),
        Command::D1 { database } => listing_url(database, "workers/d1", "workers/d1/databases/"),
        Command::Kv { namespace } => listing_url(
            namespace,
            "workers/kv",
            "workers/kv/namespaces/",
        ),
        Command::ZeroTrust | Command::Access => account_url("access"),
        Command::Tunnels => account_url("access/tunnels"),
        Command::Stream => account_url("stream"),
        Command::Images => account_url("images"),
        Command::Queues => account_url("queues"),
        Command::Ai => account_url("ai"),
        Command::Vectorize => account_url("vectorize"),
        Command::Hyperdrive => account_url("hyperdrive"),
        Command::DurableObjects => account_url("workers/durable-objects"),
        Command::Account => account_url(""),
        Command::Billing => account_url("billing"),
        Command::AuditLog => account_url("audit-log"),
        Command::ApiTokens => {
            let mut r = String::from_str(DASH_BASE);
            r.append("/profile/api-tokens");
            r
        },
        Command::Registrar => account_url("domains"),
        Command::Turnstile => account_url("turnstile"),
        Command::WebAnalytics => account_url("web-analytics"),
        Command::Dash => {
            assert(DASH_BASE@ + Seq::<char>::empty() =~= DASH_BASE@);
            String::from_str(DASH_BASE)
        },
    }
}

} // verus!
