//! Startup composition: one call that turns a validated configuration
//! into the create-window request and the freshly started chain.
//!
//! The window request exists, visible and at the configured size,
//! before any completion event has been processed; a fresh chain is
//! still waiting for the environment, so no navigation can have been
//! issued yet, and none can arise from its first event.

use vstd::prelude::*;
use crate::chain::{chain_transition, Action, Chain, Event};
use crate::config::WindowConfig;
use crate::window::{window_request, WindowRequest};

verus! {

/// Builds the visible create-window request for the configured size and
/// starts the initialization chain on the configured URL. The window
/// request precedes every chain event, so the window is on screen
/// before any navigation can occur.
pub fn start_shell(config: WindowConfig) -> (r: (WindowRequest, Chain))
    requires
        config.wf(),
    ensures
        r.0.width == config.width,
        r.0.height == config.height,
        r.0.visible,
        r.1.url@ == config.url@,
        r.1.state is EnvRequested,
        !r.1.env_observed,
        !r.1.controller_observed,
        r.1.wf(),
{
    let request = window_request(&config);
    let chain = Chain::new(config.url);
    (request, chain)
}

/// A chain still waiting for its environment cannot navigate on its
/// next event: with the window already visible at startup, the window
/// therefore precedes any navigation, whatever event arrives first.
pub proof fn lemma_no_navigate_from_start(pre: Chain, event: Event, post: Chain, a: Action)
    requires
        pre.state is EnvRequested,
        chain_transition(pre, event, post, a),
    ensures
        !(a is Navigate),
{
}

} // verus!
