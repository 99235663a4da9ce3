use ws_echo::connection::{Action, Event, Phase};
use ws_echo::message::Message;
use ws_echo::session::replay;

fn arrival_and_delivery(message: Message) -> Vec<Event> {
    vec![Event::Message(message), Event::Sent]
}

fn sends(actions: &[Action]) -> Vec<Message> {
    let mut out = Vec::new();
    for action in actions {
        if let Action::Send(message) = action {
            out.push(message.clone());
        }
    }
    out
}

#[test]
fn empty_session_stays_open() {
    let (phase, actions) = replay(Vec::new());
    assert_eq!(phase, Phase::Receiving);
    assert_eq!(actions, Vec::<Action>::new());
}

#[test]
fn ping_then_bytes_then_close() {
    let events = vec![
        Event::Message(Message::Text("ping".to_string())),
        Event::Sent,
        Event::Message(Message::Binary(vec![0x01, 0x02])),
        Event::Sent,
        Event::CloseFrame,
    ];
    let (phase, actions) = replay(events);
    assert_eq!(phase, Phase::Closed);
    assert_eq!(
        actions,
        vec![
            Action::Send(Message::Text("ping".to_string())),
            Action::Receive,
            Action::Send(Message::Binary(vec![0x01, 0x02])),
            Action::Receive,
            Action::Release,
        ]
    );
}

#[test]
fn many_messages_come_back_in_order() {
    let mut frames = Vec::new();
    let mut events = Vec::new();
    for i in 0..100u32 {
        let message = if i % 2 == 0 {
            Message::Text(format!("message {}", i))
        } else {
            Message::Binary(i.to_be_bytes().to_vec())
        };
        frames.push(message.clone());
        events.extend(arrival_and_delivery(message));
    }
    let (phase, actions) = replay(events);
    assert_eq!(phase, Phase::Receiving);
    assert_eq!(actions.len(), 200);
    let echoed = sends(&actions);
    assert_eq!(echoed.len(), 100);
    assert_eq!(echoed, frames);
}

#[test]
fn repeated_message_is_echoed_each_time() {
    let mut events = Vec::new();
    for _ in 0..3 {
        events.extend(arrival_and_delivery(Message::Text("again".to_string())));
    }
    let (_, actions) = replay(events);
    assert_eq!(sends(&actions), vec![Message::Text("again".to_string()); 3]);
}

#[test]
fn one_action_answers_each_event() {
    let events = vec![
        Event::Sent,
        Event::Message(Message::Text("late".to_string())),
        Event::EndOfStream,
        Event::ReceiveFailed,
    ];
    let (phase, actions) = replay(events);
    assert_eq!(phase, Phase::Closed);
    assert_eq!(actions, vec![Action::Release; 4]);
}

#[test]
fn nothing_is_sent_after_the_peer_closes() {
    let mut events = arrival_and_delivery(Message::Text("before".to_string()));
    events.push(Event::EndOfStream);
    events.push(Event::Message(Message::Text("after".to_string())));
    events.push(Event::Sent);
    events.push(Event::Message(Message::Binary(vec![1])));
    let (phase, actions) = replay(events);
    assert_eq!(phase, Phase::Closed);
    assert_eq!(sends(&actions), vec![Message::Text("before".to_string())]);
    assert_eq!(&actions[2..], &[Action::Release, Action::Release, Action::Release, Action::Release]);
}

#[test]
fn close_on_a_fresh_connection_sends_nothing() {
    for closing in [Event::CloseFrame, Event::EndOfStream, Event::ReceiveFailed] {
        let (phase, actions) = replay(vec![closing]);
        assert_eq!(phase, Phase::Closed);
        assert_eq!(actions, vec![Action::Release]);
    }
}

#[test]
fn failed_send_abandons_the_echo_and_closes() {
    let events = vec![
        Event::Message(Message::Text("first".to_string())),
        Event::Sent,
        Event::Message(Message::Text("lost".to_string())),
        Event::SendFailed,
        Event::Message(Message::Text("never seen".to_string())),
    ];
    let (phase, actions) = replay(events);
    assert_eq!(phase, Phase::Closed);
    assert_eq!(
        actions,
        vec![
            Action::Send(Message::Text("first".to_string())),
            Action::Receive,
            Action::Send(Message::Text("lost".to_string())),
            Action::Release,
            Action::Release,
        ]
    );
}

#[test]
fn message_in_flight_leaves_the_handler_echoing() {
    let (phase, actions) = replay(vec![Event::Message(Message::Binary(vec![7]))]);
    assert_eq!(phase, Phase::Echoing);
    assert_eq!(actions, vec![Action::Send(Message::Binary(vec![7]))]);
}

#[test]
fn two_connections_never_see_each_other() {
    let mut a_events = Vec::new();
    let mut b_events = Vec::new();
    let mut a_frames = Vec::new();
    let mut b_frames = Vec::new();
    for i in 0..10u8 {
        let for_a = Message::Text(format!("a-{}", i));
        let for_b = Message::Binary(vec![0xb0, i]);
        a_frames.push(for_a.clone());
        b_frames.push(for_b.clone());
        a_events.extend(arrival_and_delivery(for_a));
        b_events.extend(arrival_and_delivery(for_b));
    }
    b_events.push(Event::EndOfStream);
    let (b_phase, b_actions) = replay(b_events);
    let (a_phase, a_actions) = replay(a_events);
    assert_eq!(a_phase, Phase::Receiving);
    assert_eq!(b_phase, Phase::Closed);
    let a_echoed = sends(&a_actions);
    let b_echoed = sends(&b_actions);
    assert_eq!(a_echoed, a_frames);
    assert_eq!(b_echoed, b_frames);
    for frame in &b_frames {
        assert!(!a_echoed.contains(frame));
    }
    for frame in &a_frames {
        assert!(!b_echoed.contains(frame));
    }
}
