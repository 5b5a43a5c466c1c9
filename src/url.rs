//! The two URL shapes of the dashboard: a page of a zone, and a page of the
//! account.

use vstd::prelude::*;

verus! {

/// Origin of every dashboard URL.
pub const DASH_BASE: &'static str = "https://dash.cloudflare.com";

/// The redirect prefix that selects the signed-in account.
pub const ACCOUNT_REDIRECT: &'static str = "/?to=/:account";

/// `base/?to=/:account`: the account's home, which the other URLs extend.
pub open spec fn account_root() -> Seq<char> {
    DASH_BASE@ + ACCOUNT_REDIRECT@
}

/// The URL of `path` within `zone`; an empty `path` is the zone's overview.
pub open spec fn zone_url_spec(zone: Seq<char>, path: Seq<char>) -> Seq<char> {
    if path.len() == 0 {
        account_root() + "/"@ + zone
    } else {
        account_root() + "/"@ + zone + "/"@ + path
    }
}

/// The URL of `path` within the account; an empty `path` is the account's home.
pub open spec fn account_url_spec(path: Seq<char>) -> Seq<char> {
    if path.len() == 0 {
        account_root()
    } else {
        account_root() + "/"@ + path
    }
}

/// `s` ends with `t`.
pub open spec fn ends_with(s: Seq<char>, t: Seq<char>) -> bool {
    t.len() <= s.len() && s.subrange(s.len() - t.len(), s.len() as int) == t
}

/// Builds the dashboard URL of `path` in `zone`, both taken verbatim.
pub fn zone_url(zone: &str, path: &str) -> (r: String)
    ensures
        r@ == zone_url_spec(zone@, path@),
{
    let mut r = String::from_str(DASH_BASE);
    r.append(ACCOUNT_REDIRECT);
    r.append("/");
    r.append(zone);
    if !path.is_empty() {
        r.append("/");
        r.append(path);
    }
    r
}

/// Builds the dashboard URL of `path` in the account, taken verbatim.
pub fn account_url(path: &str) -> (r: String)
    ensures
        r@ == account_url_spec(path@),
{
    let mut r = String::from_str(DASH_BASE);
    r.append(ACCOUNT_REDIRECT);
    if !path.is_empty() {
        r.append("/");
        r.append(path);
    }
    r
}

} // verus!
