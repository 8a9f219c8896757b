use futures_channel::mpsc;
use wasm_transport::websocket::{ControlFlow, LoopAction, LoopPhase, Message, MessageLoop, WebSocketService};

fn text(s: &str) -> Message {
    Message::Text(s.to_string())
}

/// Drives a send loop over what is queued now; `write` stands for the write
/// half and returns whether the write succeeded, `callback` for the send
/// callback. Returns the messages attempted and how often the close handler ran.
fn drain(
    rx: &mut mpsc::UnboundedReceiver<Message>,
    ctl: &mut MessageLoop,
    mut write: impl FnMut(&Message) -> bool,
    callback: impl Fn(bool) -> ControlFlow,
) -> (Vec<Message>, usize) {
    let mut attempted = Vec::new();
    let mut closes = 0;
    loop {
        let item = match rx.try_next() {
            Ok(item) => item,
            Err(_) => break,
        };
        match ctl.on_item(item) {
            LoopAction::Deliver(m) => {
                let ok = write(&m);
                attempted.push(m);
                match ctl.on_signal::<Message>(callback(ok)) {
                    LoopAction::Await => {}
                    LoopAction::Close => {
                        closes += 1;
                        break;
                    }
                    _ => break,
                }
            }
            LoopAction::Close => {
                closes += 1;
                break;
            }
            _ => break,
        }
    }
    (attempted, closes)
}

#[test]
fn unit_converts_to_continue() {
    assert_eq!(ControlFlow::from(()), ControlFlow::Continue);
    let signal: ControlFlow = ().into();
    assert_eq!(signal, ControlFlow::Continue);
}

#[test]
fn queued_messages_are_written_in_order() {
    let (tx, mut rx) = mpsc::unbounded();
    let mut service = WebSocketService::from_sender(tx);
    assert!(service.send(text("a")).is_ok());
    assert!(service.send(text("b")).is_ok());
    assert!(service.send(text("c")).is_ok());
    let mut ctl = MessageLoop::new();
    let (written, closes) = drain(&mut rx, &mut ctl, |_| true, |_| ControlFlow::Continue);
    assert_eq!(written, vec![text("a"), text("b"), text("c")]);
    assert_eq!(closes, 0);
    assert!(!ctl.is_closed());
    assert_eq!(ctl.phase, LoopPhase::Running);
}

#[test]
fn clones_feed_the_same_queue() {
    let (tx, mut rx) = mpsc::unbounded();
    let mut first = WebSocketService::from_sender(tx);
    let mut second = first.clone();
    assert!(first.send(text("one")).is_ok());
    assert!(second.send(Message::Bytes(vec![1, 2])).is_ok());
    assert!(first.send(text("three")).is_ok());
    let mut ctl = MessageLoop::new();
    let (written, closes) = drain(&mut rx, &mut ctl, |_| true, |_| ControlFlow::Continue);
    assert_eq!(written, vec![text("one"), Message::Bytes(vec![1, 2]), text("three")]);
    assert_eq!(closes, 0);
}

#[test]
fn write_error_does_not_stop_the_loop() {
    let (tx, mut rx) = mpsc::unbounded();
    let mut service = WebSocketService::from_sender(tx);
    for m in ["1", "2", "3"] {
        assert!(service.send(text(m)).is_ok());
    }
    let mut ctl = MessageLoop::new();
    let mut results = Vec::new();
    let (attempted, closes) = drain(
        &mut rx,
        &mut ctl,
        |m| {
            let ok = *m != text("2");
            results.push(ok);
            ok
        },
        |_| ControlFlow::Continue,
    );
    assert_eq!(attempted, vec![text("1"), text("2"), text("3")]);
    assert_eq!(results, vec![true, false, true]);
    assert_eq!(closes, 0);
}

#[test]
fn break_closes_once_and_leaves_the_rest() {
    let (tx, mut rx) = mpsc::unbounded();
    let mut service = WebSocketService::from_sender(tx);
    for m in ["a", "b", "c", "d", "e"] {
        assert!(service.send(text(m)).is_ok());
    }
    let mut ctl = MessageLoop::new();
    let mut count = 0;
    let (attempted, closes) = drain(
        &mut rx,
        &mut ctl,
        |_| {
            count += 1;
            true
        },
        |_| ControlFlow::Continue,
    );
    assert_eq!(attempted.len(), 5);
    assert_eq!(closes, 0);
    assert_eq!(count, 5);

    // A fresh loop that breaks on the second message.
    for m in ["a", "b", "c", "d", "e"] {
        assert!(service.send(text(m)).is_ok());
    }
    let mut ctl = MessageLoop::new();
    let mut seen = 0;
    let mut answers = vec![ControlFlow::Continue, ControlFlow::Break, ControlFlow::Continue].into_iter();
    let mut delivered = Vec::new();
    let mut close_count = 0;
    while let Ok(item) = rx.try_next() {
        match ctl.on_item(item) {
            LoopAction::Deliver(m) => {
                seen += 1;
                delivered.push(m);
                if ctl.on_signal::<Message>(answers.next().unwrap()) == LoopAction::Close {
                    close_count += 1;
                    break;
                }
            }
            LoopAction::Close => close_count += 1,
            LoopAction::Exit => break,
            LoopAction::Await | LoopAction::Ignore => {}
        }
    }
    assert_eq!(seen, 2);
    assert_eq!(delivered, vec![text("a"), text("b")]);
    assert_eq!(close_count, 1);
    assert!(ctl.is_closed());
    // Buffered messages remain in the queue, untouched.
    assert_eq!(rx.try_next().unwrap(), Some(text("c")));
    assert_eq!(ctl.on_item(Some(text("c"))), LoopAction::Exit);
}

#[test]
fn closed_loop_takes_nothing_more() {
    let mut ctl = MessageLoop::new();
    assert_eq!(ctl.on_item(Some(1u8)), LoopAction::Deliver(1u8));
    assert_eq!(ctl.on_signal::<u8>(ControlFlow::Break), LoopAction::Close);
    assert_eq!(ctl.on_item(Some(7u8)), LoopAction::Exit);
    assert_eq!(ctl.on_item::<u8>(None), LoopAction::Exit);
    assert_eq!(ctl.on_signal::<u8>(ControlFlow::Break), LoopAction::Exit);
    assert_eq!(ctl.phase, LoopPhase::Closed);
}

#[test]
fn ended_source_closes_the_loop_once() {
    let (tx, mut rx) = mpsc::unbounded();
    let mut service = WebSocketService::from_sender(tx);
    assert!(service.send(text("last")).is_ok());
    drop(service);
    let mut ctl = MessageLoop::new();
    let (written, closes) = drain(&mut rx, &mut ctl, |_| true, |_| ControlFlow::Continue);
    assert_eq!(written, vec![text("last")]);
    assert_eq!(closes, 1);
    assert!(ctl.is_closed());
    assert_eq!(ctl.on_item::<Message>(None), LoopAction::Exit);
}

#[test]
fn send_fails_once_the_queue_is_closed() {
    let (tx, rx) = mpsc::unbounded::<Message>();
    let mut service = WebSocketService::from_sender(tx);
    drop(rx);
    let err = service.send(text("late")).unwrap_err();
    assert!(err.is_disconnected());
    assert_eq!(err.into_inner(), text("late"));
}

#[test]
fn continue_keeps_the_loop_running() {
    let mut ctl = MessageLoop::new();
    assert_eq!(ctl.on_item(Some("x")), LoopAction::Deliver("x"));
    assert_eq!(ctl.phase, LoopPhase::AwaitingSignal);
    assert_eq!(ctl.on_signal::<&str>(ControlFlow::Continue), LoopAction::Await);
    assert_eq!(ctl.phase, LoopPhase::Running);
    assert!(!ctl.is_closed());
}

#[test]
fn out_of_turn_events_are_ignored() {
    let mut ctl = MessageLoop::new();
    assert_eq!(ctl.on_signal::<u8>(ControlFlow::Break), LoopAction::Ignore);
    assert_eq!(ctl.phase, LoopPhase::Running);
    assert_eq!(ctl.on_item(Some(1u8)), LoopAction::Deliver(1u8));
    assert_eq!(ctl.on_item(Some(2u8)), LoopAction::Ignore);
    assert_eq!(ctl.on_item::<u8>(None), LoopAction::Ignore);
    assert_eq!(ctl.phase, LoopPhase::AwaitingSignal);
    assert_eq!(ctl.on_signal::<u8>(ControlFlow::Continue), LoopAction::Await);
    assert_eq!(ctl.phase, LoopPhase::Running);
}
