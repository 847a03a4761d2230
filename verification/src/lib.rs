//! Event-dispatch core of the DisasterConnect desktop shell.
//!
//! The shell wires a GUI host framework (window, tray icon, native menu,
//! deep-link URLs) to an embedded web application.  The host framework itself
//! is outside this crate; what lives here is every decision the shell makes
//! when an event arrives: which window directive a deep-link payload yields,
//! what each tray-menu entry does, how URLs are escaped before script
//! injection, and the fixed menu and plugin tables built at startup.

mod deeplink;
mod directive;
mod escape;
mod greet;
mod menu;
mod plugins;
mod script;
mod tray;

pub use deeplink::deep_link_directive;
pub use deeplink::directive_for_url_list;
pub use deeplink::handle_deep_link;
pub use deeplink::json_url_list;
pub use deeplink::lemma_empty_or_malformed_ignored;
pub use deeplink::lemma_first_url_selected;
pub use directive::DirectiveSpec;
pub use directive::WindowDirective;
pub use escape::escape_single_quotes;
pub use escape::escaped;
pub use escape::escaped_char;
pub use escape::lemma_escaped_quotes_are_escaped;
pub use greet::greet;
pub use greet::greeting_head;
pub use greet::greeting_of;
pub use greet::greeting_tail;
pub use menu::action_directive;
pub use menu::dispatch_action;
pub use menu::handle_menu_event;
pub use menu::lemma_menu_entries_all_dispatch;
pub use menu::lemma_menu_identities;
pub use menu::lemma_quit_only_exits;
pub use menu::lemma_unknown_menu_id_ignored;
pub use menu::menu_action_of;
pub use menu::menu_directive;
pub use menu::parse_menu_id;
pub use menu::tray_menu_entries;
pub use menu::tray_menu_spec;
pub use menu::MenuAction;
pub use menu::MenuEntry;
pub use menu::MenuEntrySpec;
pub use plugins::plugin_registration_order;
pub use plugins::plugin_registration_spec;
pub use plugins::Plugin;
pub use script::build_dashboard_script;
pub use script::build_deep_link_script;
pub use script::build_incidents_script;
pub use script::dashboard_script;
pub use script::deep_link_script;
pub use script::incidents_script;
pub use tray::handle_tray_icon_event;
pub use tray::lemma_double_click_reveals;
pub use tray::tray_icon_directive;
pub use tray::tray_tooltip;
pub use tray::tray_tooltip_spec;
pub use tray::TrayIconInteraction;
