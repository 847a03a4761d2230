//! The scripts the shell injects into the main window's web content.
//!
//! One script announces a freshly arrived deep-link URL to the embedded
//! application; two fixed scripts navigate it to its dashboard and incidents
//! routes via a hash change.

use vstd::prelude::*;

use crate::escape::escape_single_quotes;
use crate::escape::escaped;

verus! {

/// Opening of the deep-link injection script, up to the first spliced URL.
pub open spec fn deep_link_script_head() -> Seq<char> {
    "window.__DEEP_LINK_URL__ = '"@
}

/// Middle of the deep-link injection script, between the two spliced URLs.
pub open spec fn deep_link_script_mid() -> Seq<char> {
    "'; window.dispatchEvent(new CustomEvent('deep-link', { detail: '"@
}

/// Tail of the deep-link injection script, after the second spliced URL.
pub open spec fn deep_link_script_tail() -> Seq<char> {
    "' }));"@
}

/// The script injected when a deep-link URL arrives: it stores the escaped
/// URL on a well-known global variable and dispatches a custom event named
/// "deep-link" carrying the same URL as detail.
pub open spec fn deep_link_script(url: Seq<char>) -> Seq<char> {
    deep_link_script_head() + escaped(url) + deep_link_script_mid() + escaped(url)
        + deep_link_script_tail()
}

/// The script that navigates the embedded application to its dashboard
/// route.
pub open spec fn dashboard_script() -> Seq<char> {
    "window.location.hash = '#/dashboard';"@
}

/// The script that navigates the embedded application to its incidents
/// route.
pub open spec fn incidents_script() -> Seq<char> {
    "window.location.hash = '#/incidents';"@
}

/// Builds the deep-link injection script for one URL, escaping its single
/// quotes at both splice points.
pub fn build_deep_link_script(url: &str) -> (r: String)
    ensures
        r@ == deep_link_script(url@),
{
    let escaped_url = escape_single_quotes(url);
    let mut r = String::from_str("window.__DEEP_LINK_URL__ = '");
    r.append(escaped_url.as_str());
    r.append("'; window.dispatchEvent(new CustomEvent('deep-link', { detail: '");
    r.append(escaped_url.as_str());
    r.append("' }));");
    proof {
        assert(r@ =~= deep_link_script(url@));
    }
    r
}

/// Builds the dashboard navigation script.
pub fn build_dashboard_script() -> (r: String)
    ensures
        r@ == dashboard_script(),
{
    String::from_str("window.location.hash = '#/dashboard';")
}

/// Builds the incidents navigation script.
pub fn build_incidents_script() -> (r: String)
    ensures
        r@ == incidents_script(),
{
    String::from_str("window.location.hash = '#/incidents';")
}

} // verus!
