//! The browser-control initialization chain.
//!
//! The embeddable browser engine is built in two asynchronous steps:
//! first an environment (an engine session), then a controller binding a
//! rendering surface to the window. Each step's completion arrives as an
//! event on the window's own message loop. This module is the chain's
//! decision logic: from the current state and one event it produces the
//! next state and the one action the host must carry out. The host (the
//! binary around this library) performs the requests and feeds the
//! completions back in.
//!
//! The order is fixed by the engine: the controller request may only
//! follow a successful environment completion, and the navigate command
//! may only follow a successful controller completion. A failure
//! reported by either completion ends the chain; the window stays open
//! but nothing is navigated.

use vstd::prelude::*;
use crate::wide::{encode_wide, utf16z};

verus! {

/// Where the chain stands.
#[derive(Debug, Clone, Copy, PartialEq, Eq, Structural)]
pub enum ChainState {
    /// The environment request is out; its completion has not been
    /// observed yet.
    EnvRequested,
    /// The environment arrived; the controller request is out.
    ControllerRequested,
    /// The navigate command was issued; the chain is done.
    Navigated,
    /// A completion reported failure; the chain stops here.
    Failed,
}

/// One completion report: whether the constructed object was delivered,
/// and the status code the engine sent with it. A missing object counts
/// as failure whatever the code says.
#[derive(Debug, Clone, Copy, PartialEq, Eq, Structural)]
pub struct Completion {
    pub delivered: bool,
    pub code: i32,
}

/// The completion events the engine can deliver.
#[derive(Debug, Clone, Copy, PartialEq, Eq, Structural)]
pub enum Event {
    /// The environment-creation step finished.
    EnvCompleted(Completion),
    /// The controller-creation step finished.
    ControllerCompleted(Completion),
}

/// What the host must do after one event.
#[derive(Debug, PartialEq, Eq)]
pub enum Action {
    /// Ask the delivered environment for a controller bound to the
    /// window.
    RequestController,
    /// Hand the browser surface this null-terminated UTF-16 URL.
    Navigate(Vec<u16>),
    /// Stop the chain and carry this status code upward.
    Fail(i32),
    /// The event does not belong to the current state; do nothing.
    Ignore,
}

/// The chain's state together with the captured navigation target. The
/// URL is captured once, at construction, and never changes.
#[derive(Debug)]
pub struct Chain {
    pub url: String,
    pub state: ChainState,
    /// Whether the environment completion has been observed.
    pub env_observed: bool,
    /// Whether the controller completion has been observed.
    pub controller_observed: bool,
}

/// An event at the wrong state changes nothing: each completion is
/// consumed at most once.
pub open spec fn event_ignored(pre: Chain, post: Chain, a: Action) -> bool {
    &&& post.url@ == pre.url@
    &&& post.state == pre.state
    &&& post.env_observed == pre.env_observed
    &&& post.controller_observed == pre.controller_observed
    &&& a is Ignore
}

/// The chain's whole step relation: what one event does to the state
/// and which action it produces.
pub open spec fn chain_transition(pre: Chain, event: Event, post: Chain, a: Action) -> bool {
    &&& post.url@ == pre.url@
    &&& match event {
        Event::EnvCompleted(c) => if pre.state is EnvRequested {
            &&& post.env_observed
            &&& post.controller_observed == pre.controller_observed
            &&& if c.delivered {
                post.state is ControllerRequested && a is RequestController
            } else {
                post.state is Failed && a == Action::Fail(c.code)
            }
        } else {
            event_ignored(pre, post, a)
        },
        Event::ControllerCompleted(c) => if pre.state is ControllerRequested {
            &&& post.env_observed == pre.env_observed
            &&& post.controller_observed
            &&& if c.delivered {
                &&& post.state is Navigated
                &&& (a matches Action::Navigate(w) && w@ == utf16z(pre.url@))
            } else {
                post.state is Failed && a == Action::Fail(c.code)
            }
        } else {
            event_ignored(pre, post, a)
        },
    }
}

impl Chain {
    /// The state invariant: the observation flags record the progress
    /// that the state claims.
    pub open spec fn wf(self) -> bool {
        &&& (self.state is EnvRequested ==> !self.env_observed && !self.controller_observed)
        &&& (self.state is ControllerRequested ==> self.env_observed && !self.controller_observed)
        &&& (self.state is Navigated ==> self.env_observed && self.controller_observed)
    }

    /// Starts the chain: the host has just submitted the environment
    /// request, capturing the URL that the eventual navigation will use.
    pub fn new(url: String) -> (c: Chain)
        ensures
            c.url@ == url@,
            c.state is EnvRequested,
            !c.env_observed,
            !c.controller_observed,
            c.wf(),
    {
        Chain { url, state: ChainState::EnvRequested, env_observed: false, controller_observed: false }
    }

    /// Consumes one completion event and decides the host's next action.
    ///
    /// The contract is the full step relation: the URL never changes, a
    /// controller request is produced exactly on a successful
    /// environment completion observed in the waiting state, the
    /// navigate action is produced exactly on a successful controller
    /// completion, carries exactly the captured URL in null-terminated
    /// UTF-16, and a reported failure moves the chain to its terminal
    /// failed state with no further request.
    pub fn step(&mut self, event: Event) -> (a: Action)
        requires
            old(self).wf(),
        ensures
            final(self).wf(),
            chain_transition(*old(self), event, *final(self), a),
    {
        match event {
            Event::EnvCompleted(c) => {
                if let ChainState::EnvRequested = self.state {
                    self.env_observed = true;
                    if c.delivered {
                        self.state = ChainState::ControllerRequested;
                        Action::RequestController
                    } else {
                        self.state = ChainState::Failed;
                        Action::Fail(c.code)
                    }
                } else {
                    Action::Ignore
                }
            },
            Event::ControllerCompleted(c) => {
                if let ChainState::ControllerRequested = self.state {
                    self.controller_observed = true;
                    if c.delivered {
                        self.state = ChainState::Navigated;
                        let wide = encode_wide(self.url.as_str());
                        Action::Navigate(wide)
                    } else {
                        self.state = ChainState::Failed;
                        Action::Fail(c.code)
                    }
                } else {
                    Action::Ignore
                }
            },
        }
    }
}

/// The step relation keeps the invariant: from a well-formed state,
/// any event leads to a well-formed state.
pub proof fn lemma_wf_preserved(pre: Chain, event: Event, post: Chain, a: Action)
    requires
        pre.wf(),
        chain_transition(pre, event, post, a),
    ensures
        post.wf(),
{
}

/// A controller request arises only as the answer to a successful
/// environment completion observed in the waiting state: it is never
/// issued before the environment completion, and never on a failed one.
pub proof fn lemma_controller_request_only_after_env_success(
    pre: Chain,
    event: Event,
    post: Chain,
    a: Action,
)
    requires
        chain_transition(pre, event, post, a),
        a is RequestController,
    ensures
        pre.state is EnvRequested,
        event matches Event::EnvCompleted(c) && c.delivered,
        post.env_observed,
{
}

/// A failed environment completion never leads to a controller request:
/// if the chain was waiting for the environment it stops, carrying the
/// reported code; anywhere else the stale event changes nothing.
pub proof fn lemma_env_failure_stops_chain(
    pre: Chain,
    event: Event,
    post: Chain,
    a: Action,
    c: Completion,
)
    requires
        chain_transition(pre, event, post, a),
        event == Event::EnvCompleted(c),
        !c.delivered,
    ensures
        !(a is RequestController),
        !(a is Navigate),
        pre.state is EnvRequested ==> post.state is Failed && a == Action::Fail(c.code),
{
}

/// A failed controller completion never leads to a navigate call: if
/// the chain was waiting for the controller it stops, carrying the
/// reported code; anywhere else the stale event changes nothing.
pub proof fn lemma_controller_failure_stops_chain(
    pre: Chain,
    event: Event,
    post: Chain,
    a: Action,
    c: Completion,
)
    requires
        chain_transition(pre, event, post, a),
        event == Event::ControllerCompleted(c),
        !c.delivered,
    ensures
        !(a is Navigate),
        pre.state is ControllerRequested ==> post.state is Failed && a == Action::Fail(c.code),
{
}

/// The navigate action appears only after both completions have been
/// observed, in order: the environment's first (recorded by the
/// invariant), then the controller's success that triggers it.
pub proof fn lemma_navigate_needs_both_completions(
    pre: Chain,
    event: Event,
    post: Chain,
    a: Action,
)
    requires
        pre.wf(),
        chain_transition(pre, event, post, a),
        a is Navigate,
    ensures
        pre.state is ControllerRequested,
        pre.env_observed,
        event matches Event::ControllerCompleted(c) && c.delivered,
        post.env_observed && post.controller_observed,
{
}

/// The URL is constant through every step, and a navigate action
/// carries exactly the captured URL: its unit vector is the
/// null-terminated UTF-16 form, and stripping the terminator decodes
/// back to the very characters captured at startup.
pub proof fn lemma_navigate_is_lossless(pre: Chain, event: Event, post: Chain, a: Action)
    requires
        chain_transition(pre, event, post, a),
    ensures
        post.url@ == pre.url@,
        a matches Action::Navigate(w) ==> w@ == utf16z(pre.url@) && crate::wide::utf16_decode(
            w@.take(w@.len() - 1),
        ) == Some(pre.url@),
{
    if a is Navigate {
        crate::wide::lemma_utf16_round_trip(pre.url@);
        let w = a->Navigate_0;
        assert(w@.take(w@.len() - 1) =~= crate::wide::utf16_encode(pre.url@));
    }
}

/// A whole run of the chain: `states` holds the state before and after
/// each event, and each step obeys the step relation.
pub open spec fn valid_trace(states: Seq<Chain>, events: Seq<Event>, actions: Seq<Action>) -> bool {
    &&& states.len() == events.len() + 1
    &&& actions.len() == events.len()
    &&& forall|i: int|
        0 <= i < events.len() ==> #[trigger] chain_transition(
            states[i],
            events[i],
            states[i + 1],
            actions[i],
        )
}

/// At step `j` the chain answered a successful environment completion
/// with the controller request.
pub open spec fn controller_requested_at(events: Seq<Event>, actions: Seq<Action>, j: int) -> bool {
    &&& actions[j] is RequestController
    &&& events[j] matches Event::EnvCompleted(c) && c.delivered
}

/// Along any run that starts waiting for the environment, the state of
/// waiting for the controller is reached only through a step that
/// issued the controller request on a successful environment
/// completion.
pub proof fn lemma_trace_controller_wait_reached_by_request(
    states: Seq<Chain>,
    events: Seq<Event>,
    actions: Seq<Action>,
    k: int,
)
    requires
        valid_trace(states, events, actions),
        states[0].state is EnvRequested,
        0 <= k < states.len(),
        states[k].state is ControllerRequested,
    ensures
        exists|j: int| 0 <= j < k && #[trigger] controller_requested_at(events, actions, j),
    decreases k,
{
    assert(k > 0);
    let i = k - 1;
    assert(chain_transition(states[i], events[i], states[i + 1], actions[i]));
    if states[k - 1].state is EnvRequested && (events[k - 1] matches Event::EnvCompleted(c)
        && c.delivered) {
        assert(controller_requested_at(events, actions, k - 1));
    } else {
        assert(states[k - 1].state is ControllerRequested);
        lemma_trace_controller_wait_reached_by_request(states, events, actions, k - 1);
    }
}

/// Along any run that starts waiting for the environment, a navigate
/// action is preceded by the controller request, which itself answered
/// a successful environment completion: the window exists at the run's
/// start, the environment completion is observed before the controller
/// request, and both precede the navigation.
pub proof fn lemma_trace_navigate_ordering(
    states: Seq<Chain>,
    events: Seq<Event>,
    actions: Seq<Action>,
    k: int,
)
    requires
        valid_trace(states, events, actions),
        states[0].state is EnvRequested,
        0 <= k < actions.len(),
        actions[k] is Navigate,
    ensures
        states[k].state is ControllerRequested,
        events[k] matches Event::ControllerCompleted(c) && c.delivered,
        exists|j: int| 0 <= j < k && #[trigger] controller_requested_at(events, actions, j),
{
    let i = k;
    assert(chain_transition(states[i], events[i], states[i + 1], actions[i]));
    lemma_trace_controller_wait_reached_by_request(states, events, actions, k);
}

/// Each completion is consumed at most once: once the environment
/// completion has been observed, another environment completion changes
/// nothing, and likewise for the controller's.
pub proof fn lemma_completions_single_shot(pre: Chain, event: Event, post: Chain, a: Action)
    requires
        pre.wf(),
        chain_transition(pre, event, post, a),
    ensures
        pre.env_observed && event is EnvCompleted ==> event_ignored(pre, post, a),
        pre.controller_observed && event is ControllerCompleted ==> event_ignored(pre, post, a),
{
}

} // verus!
