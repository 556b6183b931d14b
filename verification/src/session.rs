//! Decisions of the session manager.
//!
//! Launching the browser process, acquiring the tab and enabling protocol
//! domains are external work; what the manager decides — the launch
//! parameters and the ordered list of instrumentation domains to enable
//! before the first navigation — is fixed here. Any failure while launching
//! or enabling aborts startup as a launch error; a partially instrumented
//! session is never used.

use vstd::prelude::*;

verus! {

/// Parameters the browser process is launched with.
#[derive(Clone, Copy, Debug, PartialEq, Eq, Structural)]
pub struct LaunchParams {
    /// Whether the process sandbox is enabled.
    pub sandbox: bool,
    /// Viewport width in pixels.
    pub width: u32,
    /// Viewport height in pixels.
    pub height: u32,
}

impl LaunchParams {
    /// The fixed launch parameters of a run: sandboxed, 1280 by 720.
    pub fn standard() -> (r: LaunchParams)
        ensures
            r.sandbox,
            r.width == 1280,
            r.height == 720,
    {
        LaunchParams { sandbox: true, width: 1280, height: 720 }
    }
}

/// An instrumentation domain that must be enabled on the tab.
#[derive(Clone, Copy, Debug, PartialEq, Eq, Structural)]
pub enum Domain {
    Log,
    Runtime,
    Debugger,
    Profiler,
    Fetch,
    Performance,
    Dom,
    Network,
    Page,
}

/// The ordered list of domains enabled on a fresh tab before the handle is
/// handed to the journey executor. The performance, network and page domains
/// are all present, so they are active before the first navigation.
pub fn required_domains() -> (r: Vec<Domain>)
    ensures
        r@ =~= seq![
            Domain::Log,
            Domain::Runtime,
            Domain::Debugger,
            Domain::Profiler,
            Domain::Fetch,
            Domain::Performance,
            Domain::Dom,
            Domain::Network,
            Domain::Page,
        ],
        r@.contains(Domain::Performance),
        r@.contains(Domain::Network),
        r@.contains(Domain::Page),
{
    let mut v: Vec<Domain> = Vec::new();
    v.push(Domain::Log);
    v.push(Domain::Runtime);
    v.push(Domain::Debugger);
    v.push(Domain::Profiler);
    v.push(Domain::Fetch);
    v.push(Domain::Performance);
    v.push(Domain::Dom);
    v.push(Domain::Network);
    v.push(Domain::Page);
    proof {
        assert(v@ =~= seq![
            Domain::Log,
            Domain::Runtime,
            Domain::Debugger,
            Domain::Profiler,
            Domain::Fetch,
            Domain::Performance,
            Domain::Dom,
            Domain::Network,
            Domain::Page,
        ]);
        assert(v@[5] == Domain::Performance);
        assert(v@[7] == Domain::Network);
        assert(v@[8] == Domain::Page);
    }
    v
}

} // verus!
