use dojo_uniffi::stream::{is_closed, next_action, ForwardAction, ForwardState, StreamEvent};

fn run(events: Vec<StreamEvent<u32>>) -> Vec<String> {
    let mut state = ForwardState::AwaitingFirst;
    let mut out = Vec::new();
    for event in events {
        if is_closed(state) {
            break;
        }
        let (next, action) = next_action(state, event);
        state = next;
        out.push(match action {
            ForwardAction::Ignore => "ignore".to_string(),
            ForwardAction::Deliver(x) => format!("deliver {}", x),
            ForwardAction::ReportError(m) => format!("error {}", m),
            ForwardAction::Close => "close".to_string(),
        });
    }
    out
}

#[test]
fn first_message_is_ignored_then_updates_are_delivered() {
    let out = run(vec![
        StreamEvent::Update(0),
        StreamEvent::Update(1),
        StreamEvent::Update(2),
    ]);
    assert_eq!(out, vec!["ignore", "deliver 1", "deliver 2"]);
}

#[test]
fn first_failure_is_reported_once_and_stops() {
    let out = run(vec![
        StreamEvent::Update(0),
        StreamEvent::Update(1),
        StreamEvent::Failure("lost".to_string()),
        StreamEvent::Update(2),
        StreamEvent::Failure("again".to_string()),
    ]);
    assert_eq!(out, vec!["ignore", "deliver 1", "error lost"]);
}

#[test]
fn end_closes_silently() {
    let out = run(vec![StreamEvent::Update(0), StreamEvent::End, StreamEvent::Update(5)]);
    assert_eq!(out, vec!["ignore", "close"]);
}

#[test]
fn a_failing_or_empty_first_message_is_still_skipped() {
    let out = run(vec![StreamEvent::Failure("first".to_string()), StreamEvent::Update(3)]);
    assert_eq!(out, vec!["ignore", "deliver 3"]);
    let out = run(vec![StreamEvent::End, StreamEvent::Update(4)]);
    assert_eq!(out, vec!["ignore", "deliver 4"]);
}

#[test]
fn closed_state_only_closes() {
    let (state, action) = next_action(ForwardState::Closed, StreamEvent::Update(9u32));
    assert_eq!(state, ForwardState::Closed);
    assert!(matches!(action, ForwardAction::Close));
}
