use webpage_to_app::chain::{Action, ChainState, Completion, Event};
use webpage_to_app::config::WindowConfig;
use webpage_to_app::shell::start_shell;
use webpage_to_app::wide::encode_wide;
use webpage_to_app::window::{
    handle_message, pump_outcome, window_request, MsgDecision, MSG_DESTROY,
};

#[test]
fn destroy_message_posts_quit_zero() {
    assert_eq!(handle_message(MSG_DESTROY), MsgDecision::PostQuit(0));
}

#[test]
fn other_messages_forward_to_default() {
    assert_eq!(handle_message(0), MsgDecision::ForwardToDefault);
    assert_eq!(handle_message(1), MsgDecision::ForwardToDefault);
    assert_eq!(handle_message(15), MsgDecision::ForwardToDefault);
    assert_eq!(handle_message(0x0112), MsgDecision::ForwardToDefault);
}

#[test]
fn window_request_carries_configured_size() {
    let c = WindowConfig::new(String::from("https://example.com"), Some(1024), Some(768)).unwrap();
    let r = window_request(&c);
    assert_eq!(r.width, 1024);
    assert_eq!(r.height, 768);
    assert!(r.visible);
}

#[test]
fn pump_stops_with_exit_zero_on_destroy() {
    // Ordinary traffic, then the close action's destroy notification.
    let msgs = vec![1u32, 5, 15, MSG_DESTROY, 7];
    assert_eq!(pump_outcome(&msgs), Some(0));
}

#[test]
fn pump_keeps_running_without_destroy() {
    let msgs = vec![1u32, 5, 15, 7];
    assert_eq!(pump_outcome(&msgs), None);
    assert_eq!(pump_outcome(&Vec::new()), None);
}

#[test]
fn close_exits_zero_even_before_navigation() {
    // The chain never completed; closing the window still exits cleanly.
    let c = WindowConfig::new(String::from("https://example.com"), None, None).unwrap();
    let (_, mut chain) = start_shell(c);
    assert_eq!(chain.step(Event::EnvCompleted(Completion { delivered: false, code: -1 })), Action::Fail(-1));
    assert_eq!(pump_outcome(&vec![MSG_DESTROY]), Some(0));
}

#[test]
fn end_to_end_explicit_size_navigates_once() {
    // --url https://example.com --width 1024 --height 768
    let c = WindowConfig::new(String::from("https://example.com"), Some(1024), Some(768)).unwrap();
    let (request, mut chain) = start_shell(c);
    assert_eq!(request.width, 1024);
    assert_eq!(request.height, 768);
    assert!(request.visible);
    assert_eq!(chain.state, ChainState::EnvRequested);

    let mut navigations: Vec<Vec<u16>> = Vec::new();
    for event in [
        Event::EnvCompleted(Completion { delivered: true, code: 0 }),
        Event::ControllerCompleted(Completion { delivered: true, code: 0 }),
    ] {
        if let Action::Navigate(units) = chain.step(event) {
            navigations.push(units);
        }
    }
    assert_eq!(navigations, vec![encode_wide("https://example.com")]);
    assert_eq!(chain.state, ChainState::Navigated);
}

#[test]
fn end_to_end_default_size_navigates_once() {
    // --url https://example.org and nothing else
    let c = WindowConfig::new(String::from("https://example.org"), None, None).unwrap();
    let (request, mut chain) = start_shell(c);
    assert_eq!(request.width, 800);
    assert_eq!(request.height, 600);
    assert!(request.visible);

    assert_eq!(
        chain.step(Event::EnvCompleted(Completion { delivered: true, code: 0 })),
        Action::RequestController,
    );
    assert_eq!(
        chain.step(Event::ControllerCompleted(Completion { delivered: true, code: 0 })),
        Action::Navigate(encode_wide("https://example.org")),
    );
}
