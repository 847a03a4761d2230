//! The fixed list of host-framework plugins the shell registers at startup.

use vstd::prelude::*;

verus! {

/// The host-framework plugins the shell registers at startup.
#[derive(Clone, Copy, PartialEq, Eq, Structural, Debug)]
pub enum Plugin {
    /// Opens URLs and paths with the system's default handlers.
    Opener,
    /// Persistent key-value store.
    Store,
    /// Desktop notifications.
    Notification,
    /// Local SQL database access.
    Sql,
    /// Native dialogs.
    Dialog,
    /// Filesystem access.
    Fs,
    /// Process control.
    Process,
    /// Application update checking.
    Updater,
    /// Deep-link URL handling.
    DeepLink,
}

/// The registration order used at startup.  The order carries no meaning of
/// its own beyond the host framework's registration requirements; it is
/// fixed here so that startup is deterministic.
pub open spec fn plugin_registration_spec() -> Seq<Plugin> {
    seq![
        Plugin::Opener,
        Plugin::Store,
        Plugin::Notification,
        Plugin::Sql,
        Plugin::Dialog,
        Plugin::Fs,
        Plugin::Process,
        Plugin::Updater,
        Plugin::DeepLink,
    ]
}

/// Returns the plugins to register at startup, in order.
pub fn plugin_registration_order() -> (v: Vec<Plugin>)
    ensures
        v@ == plugin_registration_spec(),
{
    let mut v: Vec<Plugin> = Vec::new();
    v.push(Plugin::Opener);
    v.push(Plugin::Store);
    v.push(Plugin::Notification);
    v.push(Plugin::Sql);
    v.push(Plugin::Dialog);
    v.push(Plugin::Fs);
    v.push(Plugin::Process);
    v.push(Plugin::Updater);
    v.push(Plugin::DeepLink);
    proof {
        assert(v@ =~= plugin_registration_spec());
    }
    v
}

} // verus!
