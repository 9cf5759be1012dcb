use service::channel::{BridgeChannel, TryReceiveError};
use service::gui::{Application, GuiMessage};
use service::repaint::{PaintMessage, RepaintSignal};
use service::rpc::{Delivery, FullPolicy, HelloServer, PendingCall, RpcError};

#[test]
fn hello_greets_by_name() {
    let server = HelloServer::new(FullPolicy::Wait);
    assert_eq!(server.hello("World".to_string()), "Hello, World!");
    assert_eq!(server.hello(String::new()), "Hello, !");
}

#[test]
fn handle_recvfrom_answers_got_it() {
    let server = HelloServer::new(FullPolicy::Fail);
    assert_eq!(server.handle_recvfrom(vec![0x60, 0x61, 0x62]), "got it");
    assert_eq!(server.policy(), FullPolicy::Fail);
}

#[test]
fn calls_carry_their_events() {
    let server = HelloServer::new(FullPolicy::Wait);
    assert_eq!(
        server.update_string("v".to_string()),
        PendingCall { event: GuiMessage::UpdateString("v".to_string()), response: "v".to_string() }
    );
    assert_eq!(
        server.append_log("l".to_string()),
        PendingCall { event: GuiMessage::AppendLog("l".to_string()), response: "l".to_string() }
    );
}

#[test]
fn update_string_reaches_the_screen() {
    let server = HelloServer::new(FullPolicy::Wait);
    let mut chan: BridgeChannel<GuiMessage> = BridgeChannel::new(32);
    let mut signal = RepaintSignal::new();
    let mut app = Application::new();
    let call = server.update_string("hello".to_string());
    let reply = server.deliver(call, &mut chan, &mut signal);
    assert_eq!(reply, Delivery::Done(Ok("hello".to_string())));
    assert_eq!(signal.take_repaint(), Some(PaintMessage::RequestRepaint));
    app.update(&mut chan);
    assert_eq!(app.string(), "hello");
}

#[test]
fn two_clients_logs_both_arrive_once() {
    let server = HelloServer::new(FullPolicy::Wait);
    let mut chan: BridgeChannel<GuiMessage> = BridgeChannel::new(32);
    let mut signal = RepaintSignal::new();
    let mut app = Application::new();
    let x = server.append_log("x".to_string());
    let y = server.append_log("y".to_string());
    assert_eq!(server.deliver(y, &mut chan, &mut signal), Delivery::Done(Ok("y".to_string())));
    assert_eq!(server.deliver(x, &mut chan, &mut signal), Delivery::Done(Ok("x".to_string())));
    app.update(&mut chan);
    let logs = app.logs();
    assert_eq!(logs.len(), 2);
    assert_eq!(logs.iter().filter(|l| l.as_str() == "x").count(), 1);
    assert_eq!(logs.iter().filter(|l| l.as_str() == "y").count(), 1);
    assert_eq!(signal.take_repaint(), Some(PaintMessage::RequestRepaint));
    assert_eq!(signal.take_repaint(), None);
}

#[test]
fn capacity_one_waiting_policy_waits_for_drain() {
    let server = HelloServer::new(FullPolicy::Wait);
    let mut chan: BridgeChannel<GuiMessage> = BridgeChannel::new(1);
    let mut signal = RepaintSignal::new();
    let mut app = Application::new();
    let first = server.append_log("one".to_string());
    let second = server.append_log("two".to_string());
    assert_eq!(server.deliver(first, &mut chan, &mut signal), Delivery::Done(Ok("one".to_string())));
    let waiting = match server.deliver(second, &mut chan, &mut signal) {
        Delivery::Wait(call) => call,
        other => panic!("expected to wait, got {:?}", other),
    };
    assert_eq!(waiting.event, GuiMessage::AppendLog("two".to_string()));
    app.update(&mut chan);
    app.finish_frame();
    assert_eq!(app.logs(), &vec!["one".to_string()]);
    assert_eq!(server.deliver(waiting, &mut chan, &mut signal), Delivery::Done(Ok("two".to_string())));
    app.update(&mut chan);
    assert_eq!(app.logs(), &vec!["one".to_string(), "two".to_string()]);
}

#[test]
fn capacity_one_failing_policy_reports_full() {
    let server = HelloServer::new(FullPolicy::Fail);
    let mut chan: BridgeChannel<GuiMessage> = BridgeChannel::new(1);
    let mut signal = RepaintSignal::new();
    let first = server.update_string("one".to_string());
    let second = server.update_string("two".to_string());
    assert_eq!(server.deliver(first, &mut chan, &mut signal), Delivery::Done(Ok("one".to_string())));
    assert_eq!(signal.take_repaint(), Some(PaintMessage::RequestRepaint));
    assert_eq!(server.deliver(second, &mut chan, &mut signal), Delivery::Done(Err(RpcError::ChannelFull)));
    assert_eq!(signal.take_repaint(), None);
    assert_eq!(chan.len(), 1);
}

#[test]
fn closed_bridge_skips_event_but_answers() {
    let server = HelloServer::new(FullPolicy::Wait);
    let mut chan: BridgeChannel<GuiMessage> = BridgeChannel::new(4);
    let mut signal = RepaintSignal::new();
    chan.close_receiver();
    let call = server.append_log("late".to_string());
    assert_eq!(server.deliver(call, &mut chan, &mut signal), Delivery::Done(Ok("late".to_string())));
    assert!(!signal.is_pending());
    assert_eq!(chan.try_receive(), Err(TryReceiveError::Closed));
}

#[test]
fn bridge_without_producer_skips_event_but_answers() {
    let server = HelloServer::new(FullPolicy::Wait);
    let mut chan: BridgeChannel<GuiMessage> = BridgeChannel::new(4);
    let mut signal = RepaintSignal::new();
    chan.detach_sender();
    let call = server.update_string("gone".to_string());
    assert_eq!(server.deliver(call, &mut chan, &mut signal), Delivery::Done(Ok("gone".to_string())));
    assert!(!signal.is_pending());
    assert!(chan.is_empty());
}
