//! Direct interactions with the tray icon itself, and its tooltip.

use vstd::prelude::*;

use crate::directive::DirectiveSpec;
use crate::directive::WindowDirective;

verus! {

/// The kinds of direct interaction the host framework reports on the tray
/// icon itself, as opposed to its menu.
#[derive(Clone, Copy, PartialEq, Eq, Structural, Debug)]
pub enum TrayIconInteraction {
    /// A single click on the icon.
    Click,
    /// A double click on the icon.
    DoubleClick,
    /// The pointer entered the icon's area.
    Enter,
    /// The pointer moved within the icon's area.
    Move,
    /// The pointer left the icon's area.
    Leave,
}

/// The directive owed for a tray-icon interaction: a double click reveals
/// and focuses the main window; every other interaction is ignored.
pub open spec fn tray_icon_directive(e: TrayIconInteraction) -> DirectiveSpec {
    if e is DoubleClick {
        DirectiveSpec::Reveal
    } else {
        DirectiveSpec::Ignore
    }
}

/// Handles one tray-icon interaction.
pub fn handle_tray_icon_event(e: TrayIconInteraction) -> (d: WindowDirective)
    ensures
        d@ == tray_icon_directive(e),
{
    match e {
        TrayIconInteraction::DoubleClick => WindowDirective::Reveal,
        _ => WindowDirective::Ignore,
    }
}

/// The tray icon's tooltip text.
pub open spec fn tray_tooltip_spec() -> Seq<char> {
    "DisasterConnect"@
}

/// Returns the tray icon's tooltip text.
pub fn tray_tooltip() -> (r: String)
    ensures
        r@ == tray_tooltip_spec(),
{
    String::from_str("DisasterConnect")
}

/// Law: a double click on the tray icon reveals and focuses the main
/// window.  The directive depends on the interaction alone, so it holds
/// regardless of the window's current visibility state.
pub proof fn lemma_double_click_reveals()
    ensures
        tray_icon_directive(TrayIconInteraction::DoubleClick) == DirectiveSpec::Reveal,
{
}

} // verus!
