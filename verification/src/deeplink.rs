//! Deep-link URL arrival.
//!
//! The host framework delivers the event payload as text: a JSON array of
//! URL strings.  The handler parses it, takes the first URL of a non-empty
//! list, and asks for the deep-link injection script to be run in the main
//! window.  An empty list or a payload that is not a JSON array of strings
//! is dropped silently.

use vstd::prelude::*;

use crate::directive::DirectiveSpec;
use crate::directive::WindowDirective;
use crate::script::build_deep_link_script;
use crate::script::deep_link_script;

verus! {

/// What the JSON parser yields for a deep-link payload: the URL strings in
/// order if the payload is a JSON array of strings, and nothing otherwise.
/// The JSON grammar is the parser's own; this crate only names its result.
pub uninterp spec fn json_url_list(payload: Seq<char>) -> Option<Seq<Seq<char>>>;

/// Relies on serde_json::from_str::<Vec<String>>: whether a payload parses
/// as a JSON array of strings, and which strings it holds, depend on the
/// payload text alone.
#[verifier::external_body]
fn parse_url_list(payload: &str) -> (r: Option<Vec<String>>)
    ensures
        match r {
            Some(urls) => json_url_list(payload@) == Some(urls.deep_view()),
            None => json_url_list(payload@) is None,
        },
{
    serde_json::from_str::<Vec<String>>(payload).ok()
}

/// The directive owed for a parsed deep-link payload: the first URL of a
/// non-empty list is announced to the embedded application through the
/// deep-link injection script; an empty list or an unparsable payload is
/// ignored.
pub open spec fn deep_link_directive(urls: Option<Seq<Seq<char>>>) -> DirectiveSpec {
    match urls {
        Some(list) => if list.len() > 0 {
            DirectiveSpec::RevealAndRun { script: deep_link_script(list[0]) }
        } else {
            DirectiveSpec::Ignore
        },
        None => DirectiveSpec::Ignore,
    }
}

/// Chooses the directive for an already parsed deep-link payload.
pub fn directive_for_url_list(urls: &Option<Vec<String>>) -> (d: WindowDirective)
    ensures
        d@ == deep_link_directive(urls.deep_view()),
{
    match urls {
        Some(list) => {
            if list.len() > 0 {
                let first: &String = &list[0];
                WindowDirective::RevealAndRun { script: build_deep_link_script(first.as_str()) }
            } else {
                WindowDirective::Ignore
            }
        },
        None => WindowDirective::Ignore,
    }
}

/// Handles one deep-link event payload: parses it and chooses the directive
/// the payload is owed.
pub fn handle_deep_link(payload: &str) -> (d: WindowDirective)
    ensures
        d@ == deep_link_directive(json_url_list(payload@)),
{
    let urls = parse_url_list(payload);
    directive_for_url_list(&urls)
}

/// Law: for every parsed payload holding at least one URL, the handler
/// selects exactly the first URL — the directive reveals the main window
/// and runs the injection script built from that URL — and the remaining
/// URLs play no part.
pub proof fn lemma_first_url_selected(list: Seq<Seq<char>>)
    requires
        list.len() >= 1,
    ensures
        deep_link_directive(Some(list)) == (DirectiveSpec::RevealAndRun {
            script: deep_link_script(list[0]),
        }),
{
}

/// Law: an empty URL list, or a payload that does not parse as a JSON array
/// of strings, yields no action at all.
pub proof fn lemma_empty_or_malformed_ignored(urls: Option<Seq<Seq<char>>>)
    requires
        urls matches Some(list) ==> list.len() == 0,
    ensures
        deep_link_directive(urls) is Ignore,
{
}

} // verus!
