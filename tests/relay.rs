use std::sync::Arc;

use chat_relay::config::ServerConfig;
use chat_relay::message::Message;
use chat_relay::registry::{Registry, SEND_CAPACITY};
use chat_relay::session::{SessionAction, SessionEvent, SessionState};
use tokio::sync::mpsc::Receiver;

fn msg(sender: &str, content: &str) -> Arc<Message> {
    Arc::new(Message::new(sender.to_string(), content.to_string()))
}

fn next_line(rx: &mut Receiver<Arc<Message>>) -> Option<String> {
    rx.try_recv().ok().map(|m| m.render())
}

fn sorted(mut v: Vec<u64>) -> Vec<u64> {
    v.sort();
    v
}

/// Carries out the registry side of a session's actions for connection `id`,
/// collecting the lines it would write straight to its client.
fn run_actions(
    registry: &mut Registry,
    id: u64,
    actions: Vec<SessionAction>,
) -> (Vec<String>, Option<Receiver<Arc<Message>>>) {
    let mut sent = Vec::new();
    let mut rx = None;
    for action in actions {
        match action {
            SessionAction::Send { line } => sent.push(line),
            SessionAction::Register => rx = registry.register(id),
            SessionAction::Broadcast { message } => {
                registry.broadcast(id, Arc::new(message));
            }
            SessionAction::Deregister => registry.remove(id),
        }
    }
    (sent, rx)
}

#[test]
fn render_joins_sender_and_content() {
    assert_eq!(msg("alice", "hello there").render(), "alice: hello there");
    assert_eq!(msg("", "").render(), ": ");
}

#[test]
fn address_formats_host_and_port() {
    let c = ServerConfig::new("127.0.0.1".to_string(), 8080);
    assert_eq!(c.address(), "127.0.0.1:8080");
    assert_eq!(ServerConfig::new("localhost".to_string(), 0).address(), "localhost:0");
    assert_eq!(ServerConfig::new("h".to_string(), 65535).address(), "h:65535");
    assert_eq!(ServerConfig::new("h".to_string(), 10).address(), "h:10");
}

#[test]
fn register_refuses_a_registered_id() {
    let mut r = Registry::new();
    assert!(!r.contains(7));
    assert!(r.register(7).is_some());
    assert!(r.contains(7));
    assert!(r.register(7).is_none());
    assert_eq!(r.peers_except(0), vec![7]);
}

#[test]
fn remove_is_idempotent() {
    let mut r = Registry::new();
    let _rx = r.register(1).unwrap();
    let _rx2 = r.register(2).unwrap();
    r.remove(1);
    assert!(!r.contains(1));
    r.remove(1);
    r.remove(99);
    assert!(!r.contains(1));
    assert!(r.contains(2));
}

#[test]
fn peers_except_lists_each_other_peer_once() {
    let mut r = Registry::new();
    let _a = r.register(1).unwrap();
    let _b = r.register(2).unwrap();
    let _c = r.register(3).unwrap();
    assert_eq!(sorted(r.peers_except(2)), vec![1, 3]);
    assert_eq!(sorted(r.peers_except(9)), vec![1, 2, 3]);
    assert!(Registry::new().peers_except(1).is_empty());
}

#[test]
fn broadcast_skips_its_origin() {
    let mut r = Registry::new();
    let mut a = r.register(1).unwrap();
    let mut b = r.register(2).unwrap();
    let mut c = r.register(3).unwrap();
    let report = r.broadcast(1, msg("A", "x"));
    assert_eq!(sorted(report.delivered), vec![2, 3]);
    assert!(report.evicted.is_empty());
    assert_eq!(next_line(&mut a), None);
    assert_eq!(next_line(&mut b), Some("A: x".to_string()));
    assert_eq!(next_line(&mut c), Some("A: x".to_string()));
}

#[test]
fn broadcasts_arrive_in_order() {
    let mut r = Registry::new();
    let _a = r.register(1).unwrap();
    let mut b = r.register(2).unwrap();
    r.broadcast(1, msg("A", "first"));
    r.broadcast(1, msg("A", "second"));
    assert_eq!(next_line(&mut b), Some("A: first".to_string()));
    assert_eq!(next_line(&mut b), Some("A: second".to_string()));
    assert_eq!(next_line(&mut b), None);
}

#[test]
fn closed_channel_is_evicted() {
    let mut r = Registry::new();
    let _a = r.register(1).unwrap();
    let b = r.register(2).unwrap();
    let mut c = r.register(3).unwrap();
    drop(b);
    let report = r.broadcast(1, msg("A", "x"));
    assert_eq!(report.evicted, vec![2]);
    assert_eq!(report.delivered, vec![3]);
    assert!(!r.contains(2));
    assert!(r.contains(3));
    assert_eq!(next_line(&mut c), Some("A: x".to_string()));
}

#[test]
fn broadcast_on_empty_registry_does_nothing() {
    let mut r = Registry::new();
    let report = r.broadcast(1, msg("A", "x"));
    assert!(report.delivered.is_empty());
    assert!(report.evicted.is_empty());
}

#[test]
fn two_clients_hi() {
    let mut r = Registry::new();
    let mut a = r.register(1).unwrap();
    let mut b = r.register(2).unwrap();
    let state = SessionState::Active { username: "A".to_string() };
    let (state, actions) = state.step(SessionEvent::LineRead { line: "hi".to_string() });
    assert!(!state.is_closed());
    let (sent, _) = run_actions(&mut r, 1, actions);
    assert!(sent.is_empty());
    assert_eq!(next_line(&mut b), Some("A: hi".to_string()));
    assert_eq!(next_line(&mut b), None);
    assert_eq!(next_line(&mut a), None);
}

#[test]
fn join_is_announced_to_others() {
    let mut r = Registry::new();
    let mut bob = r.register(2).unwrap();
    let (state, actions) = SessionState::open();
    let (_, _) = run_actions(&mut r, 1, actions);
    let (state, actions) = state.step(SessionEvent::Sent);
    assert!(actions.is_empty());
    let (state, actions) = state.step(SessionEvent::LineRead { line: "alice".to_string() });
    let (sent, rx) = run_actions(&mut r, 1, actions);
    assert_eq!(sent, vec!["Welcome, alice!".to_string()]);
    assert!(rx.is_none());
    assert!(!r.contains(1));
    assert_eq!(next_line(&mut bob), None);
    let (state, actions) = state.step(SessionEvent::Sent);
    let (sent, rx) = run_actions(&mut r, 1, actions);
    assert!(sent.is_empty());
    let mut alice = rx.unwrap();
    assert!(r.contains(1));
    assert_eq!(next_line(&mut bob), Some("Server: alice has joined the chat.".to_string()));
    assert_eq!(next_line(&mut alice), None);
    assert!(!state.is_closed());
}

#[test]
fn leave_is_announced_and_peer_deregistered() {
    let mut r = Registry::new();
    let _alice = r.register(1).unwrap();
    let mut bob = r.register(2).unwrap();
    let state = SessionState::Active { username: "alice".to_string() };
    let (state, actions) = state.step(SessionEvent::StreamEnded);
    assert!(state.is_closed());
    let (sent, _) = run_actions(&mut r, 1, actions);
    assert!(sent.is_empty());
    assert_eq!(next_line(&mut bob), Some("Server: alice has left the chat.".to_string()));
    assert!(!r.contains(1));
    assert_eq!(r.peers_except(0), vec![2]);
}

#[test]
fn slow_consumer_is_evicted_without_delaying_others() {
    let mut r = Registry::new();
    let _origin = r.register(1).unwrap();
    let _slow = r.register(2).unwrap();
    let mut fast = r.register(3).unwrap();
    for i in 0..SEND_CAPACITY {
        let report = r.broadcast(1, msg("A", &i.to_string()));
        assert_eq!(sorted(report.delivered), vec![2, 3]);
        assert_eq!(next_line(&mut fast), Some(format!("A: {}", i)));
    }
    let report = r.broadcast(1, msg("A", "overflow"));
    assert_eq!(report.evicted, vec![2]);
    assert_eq!(report.delivered, vec![3]);
    assert!(!r.contains(2));
    assert_eq!(next_line(&mut fast), Some("A: overflow".to_string()));
    let report = r.broadcast(1, msg("A", "after"));
    assert_eq!(report.delivered, vec![3]);
    assert!(report.evicted.is_empty());
}

#[test]
fn session_opens_with_prompt() {
    let (state, actions) = SessionState::open();
    assert!(!state.is_closed());
    assert_eq!(actions.len(), 1);
    match &actions[0] {
        SessionAction::Send { line } => assert_eq!(line, "Enter your username:"),
        other => panic!("unexpected action {:?}", other),
    }
}

#[test]
fn failed_prompt_closes_without_registering() {
    let (state, _) = SessionState::open();
    let (state, actions) = state.step(SessionEvent::SendFailed);
    assert!(state.is_closed());
    assert!(actions.is_empty());
}

#[test]
fn stream_end_before_username_closes_silently() {
    let (state, _) = SessionState::open();
    let (state, _) = state.step(SessionEvent::Sent);
    let (state, actions) = state.step(SessionEvent::StreamEnded);
    assert!(state.is_closed());
    assert!(actions.is_empty());
}

#[test]
fn failed_welcome_skips_registration() {
    let mut r = Registry::new();
    let mut bob = r.register(2).unwrap();
    let (state, _) = SessionState::open();
    let (state, _) = state.step(SessionEvent::Sent);
    let (state, actions) = state.step(SessionEvent::LineRead { line: "alice".to_string() });
    assert_eq!(actions.len(), 1);
    let (state, actions) = state.step(SessionEvent::SendFailed);
    assert!(state.is_closed());
    assert!(actions.is_empty());
    assert!(!r.contains(1));
    assert_eq!(next_line(&mut bob), None);
}

#[test]
fn stream_end_during_welcome_closes_silently() {
    let (state, _) = SessionState::open();
    let (state, _) = state.step(SessionEvent::Sent);
    let (state, _) = state.step(SessionEvent::LineRead { line: "alice".to_string() });
    let (state, actions) = state.step(SessionEvent::StreamEnded);
    assert!(state.is_closed());
    assert!(actions.is_empty());
}

#[test]
fn accepted_offer_keeps_peer() {
    let mut r = Registry::new();
    let _a = r.register(1).unwrap();
    r.settle_offer(1, true, &msg("A", "x"));
    assert!(r.contains(1));
    r.settle_offer(5, true, &msg("A", "x"));
    assert!(!r.contains(5));
}

#[test]
fn refused_offer_evicts_peer() {
    let mut r = Registry::new();
    let _a = r.register(1).unwrap();
    let _b = r.register(2).unwrap();
    r.settle_offer(1, false, &msg("A", "x"));
    assert!(!r.contains(1));
    assert!(r.contains(2));
    r.settle_offer(1, false, &msg("A", "x"));
    assert!(!r.contains(1));
}

#[test]
fn duplicate_usernames_are_accepted() {
    let mut r = Registry::new();
    let mut watcher = r.register(9).unwrap();
    for id in [1u64, 2u64] {
        let (state, _) = SessionState::open();
        let (state, _) = state.step(SessionEvent::Sent);
        let (state, _) = state.step(SessionEvent::LineRead { line: "sam".to_string() });
        let (state, actions) = state.step(SessionEvent::Sent);
        let (_, rx) = run_actions(&mut r, id, actions);
        assert!(rx.is_some());
        assert!(!state.is_closed());
    }
    assert_eq!(next_line(&mut watcher), Some("Server: sam has joined the chat.".to_string()));
    assert_eq!(next_line(&mut watcher), Some("Server: sam has joined the chat.".to_string()));
}

#[test]
fn closed_session_stays_closed() {
    let (state, actions) = SessionState::Closed.step(SessionEvent::LineRead { line: "x".to_string() });
    assert!(state.is_closed());
    assert!(actions.is_empty());
}
