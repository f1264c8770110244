//! The startup sequence: the ordered list of host plugins that the entry
//! point registers before handing control to the host's event loop. The
//! plugins are independent capabilities — no step depends on another's side
//! effects — but the order is fixed here so the shell follows one explicit
//! list instead of an implicit chain of calls.

use vstd::prelude::*;

verus! {

/// One independently packaged capability registered with the host at startup.
#[derive(Clone, Copy, PartialEq, Eq, Structural, Debug)]
pub enum StartupPlugin {
    /// Opens URLs and files in the operating system's shell.
    Opener,
    /// Structured-query persistence.
    Sql,
    /// Filesystem access.
    Fs,
    /// Native dialogs.
    Dialog,
}

/// The fixed registration order of the startup plugins.
pub open spec fn startup_sequence() -> Seq<StartupPlugin> {
    seq![
        StartupPlugin::Opener,
        StartupPlugin::Sql,
        StartupPlugin::Fs,
        StartupPlugin::Dialog,
    ]
}

/// Lists the plugins the entry point registers, in registration order.
pub fn startup_plugins() -> (plugins: Vec<StartupPlugin>)
    ensures
        plugins@ == startup_sequence(),
{
    let mut plugins: Vec<StartupPlugin> = Vec::new();
    plugins.push(StartupPlugin::Opener);
    plugins.push(StartupPlugin::Sql);
    plugins.push(StartupPlugin::Fs);
    plugins.push(StartupPlugin::Dialog);
    proof {
        assert(plugins@ =~= startup_sequence());
    }
    plugins
}

} // verus!
