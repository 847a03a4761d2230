//! The tray menu: its fixed entries and the dispatch of menu events.
//!
//! Menu events arrive keyed by a flat identity tag.  The tag is parsed once
//! into a closed action type at the call boundary, and the action is then
//! dispatched by exhaustive match, so no identity outside the closed set can
//! reach an action.

use vstd::prelude::*;

use crate::directive::DirectiveSpec;
use crate::directive::WindowDirective;
use crate::script::build_dashboard_script;
use crate::script::build_incidents_script;
use crate::script::dashboard_script;
use crate::script::incidents_script;

verus! {

/// The closed set of actions a tray-menu entry can trigger.
#[derive(Clone, Copy, PartialEq, Eq, Structural, Debug)]
pub enum MenuAction {
    /// Reveal and focus the main window.
    Show,
    /// Reveal the main window and navigate to the dashboard route.
    Dashboard,
    /// Reveal the main window and navigate to the incidents route.
    Incidents,
    /// Terminate the process.
    Quit,
}

/// The action a menu identity tag stands for, if any.
pub open spec fn menu_action_of(id: Seq<char>) -> Option<MenuAction> {
    if id == "show"@ {
        Some(MenuAction::Show)
    } else if id == "dashboard"@ {
        Some(MenuAction::Dashboard)
    } else if id == "incidents"@ {
        Some(MenuAction::Incidents)
    } else if id == "quit"@ {
        Some(MenuAction::Quit)
    } else {
        None
    }
}

/// The directive each menu action is owed.
pub open spec fn action_directive(a: MenuAction) -> DirectiveSpec {
    match a {
        MenuAction::Show => DirectiveSpec::Reveal,
        MenuAction::Dashboard => DirectiveSpec::RevealAndRun { script: dashboard_script() },
        MenuAction::Incidents => DirectiveSpec::RevealAndRun { script: incidents_script() },
        MenuAction::Quit => DirectiveSpec::Exit { code: 0 },
    }
}

/// The directive owed for a menu event with the given identity tag: the
/// tag's action where the tag is one of the closed set, and no action at
/// all otherwise.
pub open spec fn menu_directive(id: Seq<char>) -> DirectiveSpec {
    match menu_action_of(id) {
        Some(a) => action_directive(a),
        None => DirectiveSpec::Ignore,
    }
}

/// Compares two strings by their character content.
fn str_eq(a: &str, b: &str) -> (r: bool)
    ensures
        r == (a@ == b@),
{
    let sa = a.to_owned();
    let sb = b.to_owned();
    sa == sb
}

/// Parses a menu identity tag into its action, once, at the call boundary.
pub fn parse_menu_id(id: &str) -> (a: Option<MenuAction>)
    ensures
        a == menu_action_of(id@),
{
    if str_eq(id, "show") {
        Some(MenuAction::Show)
    } else if str_eq(id, "dashboard") {
        Some(MenuAction::Dashboard)
    } else if str_eq(id, "incidents") {
        Some(MenuAction::Incidents)
    } else if str_eq(id, "quit") {
        Some(MenuAction::Quit)
    } else {
        None
    }
}

/// Dispatches one parsed menu action to its directive.
pub fn dispatch_action(a: MenuAction) -> (d: WindowDirective)
    ensures
        d@ == action_directive(a),
{
    match a {
        MenuAction::Show => WindowDirective::Reveal,
        MenuAction::Dashboard => WindowDirective::RevealAndRun {
            script: build_dashboard_script(),
        },
        MenuAction::Incidents => WindowDirective::RevealAndRun {
            script: build_incidents_script(),
        },
        MenuAction::Quit => WindowDirective::Exit { code: 0 },
    }
}

/// Handles one tray-menu event: parses the identity tag and dispatches it.
pub fn handle_menu_event(id: &str) -> (d: WindowDirective)
    ensures
        d@ == menu_directive(id@),
{
    match parse_menu_id(id) {
        Some(a) => dispatch_action(a),
        None => WindowDirective::Ignore,
    }
}

/// Law: each of the four fixed menu identities yields exactly its
/// documented action — show reveals the window, dashboard and incidents
/// reveal it and run their navigation scripts, quit exits with code zero.
pub proof fn lemma_menu_identities()
    ensures
        menu_directive("show"@) == DirectiveSpec::Reveal,
        menu_directive("dashboard"@) == (DirectiveSpec::RevealAndRun {
            script: dashboard_script(),
        }),
        menu_directive("incidents"@) == (DirectiveSpec::RevealAndRun {
            script: incidents_script(),
        }),
        menu_directive("quit"@) == (DirectiveSpec::Exit { code: 0 }),
{
    reveal_strlit("show");
    reveal_strlit("dashboard");
    reveal_strlit("incidents");
    reveal_strlit("quit");
    assert("show"@.len() == 4);
    assert("dashboard"@.len() == 9);
    assert("incidents"@.len() == 9);
    assert("quit"@.len() == 4);
    assert("dashboard"@[0] == 'd');
    assert("incidents"@[0] == 'i');
    assert("show"@[0] == 's');
    assert("quit"@[0] == 'q');
}

/// Law: a menu identity outside the closed set yields no action at all.
pub proof fn lemma_unknown_menu_id_ignored(id: Seq<char>)
    requires
        id != "show"@,
        id != "dashboard"@,
        id != "incidents"@,
        id != "quit"@,
    ensures
        menu_directive(id) is Ignore,
{
}

/// Specification-level form of a tray-menu entry.
pub enum MenuEntrySpec {
    /// A clickable entry, with its identity tag and visible label.
    Item { id: Seq<char>, label: Seq<char> },
    /// A separator between entry groups.
    Separator,
}

/// One entry of the tray menu as built at startup.
pub enum MenuEntry {
    /// A clickable entry, with its identity tag and visible label.
    Item { id: String, label: String },
    /// A separator between entry groups.
    Separator,
}

impl View for MenuEntry {
    type V = MenuEntrySpec;

    open spec fn view(&self) -> MenuEntrySpec {
        match self {
            MenuEntry::Item { id, label } => MenuEntrySpec::Item { id: id@, label: label@ },
            MenuEntry::Separator => MenuEntrySpec::Separator,
        }
    }
}

impl DeepView for MenuEntry {
    type V = MenuEntrySpec;

    open spec fn deep_view(&self) -> MenuEntrySpec {
        self.view()
    }
}

/// The tray menu as built at startup: the show entry, then a separator,
/// then the dashboard and incidents entries, then a separator, then the
/// quit entry.
pub open spec fn tray_menu_spec() -> Seq<MenuEntrySpec> {
    seq![
        MenuEntrySpec::Item { id: "show"@, label: "Show DisasterConnect"@ },
        MenuEntrySpec::Separator,
        MenuEntrySpec::Item { id: "dashboard"@, label: "Open Dashboard"@ },
        MenuEntrySpec::Item { id: "incidents"@, label: "View Incidents"@ },
        MenuEntrySpec::Separator,
        MenuEntrySpec::Item { id: "quit"@, label: "Quit"@ },
    ]
}

/// Builds the fixed tray menu, in order.
pub fn tray_menu_entries() -> (v: Vec<MenuEntry>)
    ensures
        v.deep_view() == tray_menu_spec(),
{
    let mut v: Vec<MenuEntry> = Vec::new();
    v.push(
        MenuEntry::Item {
            id: String::from_str("show"),
            label: String::from_str("Show DisasterConnect"),
        },
    );
    v.push(MenuEntry::Separator);
    v.push(
        MenuEntry::Item {
            id: String::from_str("dashboard"),
            label: String::from_str("Open Dashboard"),
        },
    );
    v.push(
        MenuEntry::Item {
            id: String::from_str("incidents"),
            label: String::from_str("View Incidents"),
        },
    );
    v.push(MenuEntry::Separator);
    v.push(MenuEntry::Item { id: String::from_str("quit"), label: String::from_str("Quit") });
    proof {
        assert(v.deep_view() =~= tray_menu_spec());
    }
    v
}

/// Law: every clickable entry of the startup menu carries an identity tag
/// that the menu handler maps to an action, so no entry of the menu is a
/// dead end.
pub proof fn lemma_menu_entries_all_dispatch()
    ensures
        forall|i: int|
            0 <= i < tray_menu_spec().len() ==> (#[trigger] tray_menu_spec()[i] matches
                MenuEntrySpec::Item { id, .. } ==> menu_action_of(id) is Some),
{
    reveal_strlit("show");
    reveal_strlit("dashboard");
    reveal_strlit("incidents");
    reveal_strlit("quit");
    assert(menu_action_of("show"@) is Some);
    assert("dashboard"@.len() == 9);
    assert("show"@.len() == 4);
    assert(menu_action_of("dashboard"@) is Some);
    assert("incidents"@[0] == 'i');
    assert("dashboard"@[0] == 'd');
    assert(menu_action_of("incidents"@) is Some);
    assert("quit"@[0] == 'q');
    assert("show"@[0] == 's');
    assert("incidents"@.len() == 9);
    assert("quit"@.len() == 4);
    assert(menu_action_of("quit"@) is Some);
}

/// Law: selecting quit terminates the process with exit code zero and asks
/// for nothing else — its directive is exactly the exit directive, with no
/// reveal and no script.
pub proof fn lemma_quit_only_exits()
    ensures
        menu_directive("quit"@) == (DirectiveSpec::Exit { code: 0 }),
{
    lemma_menu_identities();
}

} // verus!
