//! Window-host decisions: what the window procedure does with each
//! message, what the create-window request looks like, and when the
//! message pump terminates.
//!
//! The operating system owns the real window; this module only decides.
//! The binary forwards every message it receives to [`handle_message`]
//! and carries the returned decision out.

use vstd::prelude::*;
use crate::config::WindowConfig;

verus! {

/// The message number by which the host reports that the window was
/// destroyed (the close action already ran its course).
pub const MSG_DESTROY: u32 = 2;

/// What the window procedure does with one incoming message.
#[derive(Debug, Clone, Copy, PartialEq, Eq, Structural)]
pub enum MsgDecision {
    /// Post a quit signal with the given status; the pump then stops.
    PostQuit(i32),
    /// Hand the message to the platform's default processing.
    ForwardToDefault,
}

/// The parameters of the one create-window request made at startup.
#[derive(Debug, Clone, Copy, PartialEq, Eq, Structural)]
pub struct WindowRequest {
    pub width: i32,
    pub height: i32,
    /// The window is created visible, so it is on screen before any
    /// browser initialization step completes.
    pub visible: bool,
}

/// Decides the window procedure's answer to one message: a destroy
/// notification posts a quit signal with status zero, everything else is
/// forwarded to default processing.
pub fn handle_message(msg: u32) -> (d: MsgDecision)
    ensures
        msg == MSG_DESTROY ==> d == MsgDecision::PostQuit(0i32),
        msg != MSG_DESTROY ==> d == MsgDecision::ForwardToDefault,
{
    if msg == MSG_DESTROY {
        MsgDecision::PostQuit(0)
    } else {
        MsgDecision::ForwardToDefault
    }
}

/// Builds the create-window request for a validated configuration: the
/// window is requested visible, at exactly the configured size.
pub fn window_request(config: &WindowConfig) -> (r: WindowRequest)
    requires
        config.wf(),
    ensures
        r.width == config.width,
        r.height == config.height,
        r.visible,
{
    WindowRequest { width: config.width, height: config.height, visible: true }
}

/// Runs the pump's decision logic over a queue of incoming messages, in
/// order: each message goes through [`handle_message`]; the first quit
/// decision stops the pump, whose process then exits with the posted
/// status. `Some(code)` means the pump stopped with exit status `code`;
/// `None` means the queue ran out with the window still open.
///
/// A destroy notification always stops the pump with status zero,
/// whatever else the queue holds and whatever state the browser
/// initialization chain had reached.
pub fn pump_outcome(msgs: &Vec<u32>) -> (r: Option<i32>)
    ensures
        (exists|i: int| 0 <= i < msgs@.len() && msgs@[i] == MSG_DESTROY) <==> r == Some(0i32),
        r is Some ==> r == Some(0i32),
        r is None <==> (forall|i: int| 0 <= i < msgs@.len() ==> msgs@[i] != MSG_DESTROY),
{
    let mut i: usize = 0;
    while i < msgs.len()
        invariant
            0 <= i <= msgs@.len(),
            forall|j: int| 0 <= j < i ==> msgs@[j] != MSG_DESTROY,
        decreases msgs@.len() - i,
    {
        let decision = handle_message(msgs[i]);
        match decision {
            MsgDecision::PostQuit(code) => {
                return Some(code);
            },
            MsgDecision::ForwardToDefault => {},
        }
        i += 1;
    }
    None
}

} // verus!
