use ring_client::channel::{InboundFrame, Listener, LoopDirective, LoopEvent};
use ring_client::errors::ApiError;
use ring_client::message::{frame_message, parse_event, Event, Message};

fn step(listener: &mut Listener, text: &str) -> LoopDirective {
    listener.loop_step(LoopEvent::Inbound(InboundFrame::Payload(text.to_string())))
}

#[test]
fn parse_event_classifies_known_tags() {
    let text = "{\"msg\":\"SessionInfo\",\"body\":[{\"doorbotId\":1}]}";
    match parse_event(text) {
        Ok(e) => match e.message {
            Message::SessionInfo(raw) => assert_eq!(raw, text),
            other => panic!("expected a session info message, got {:?}", other),
        },
        Err(e) => panic!("expected the frame to decode, got {:?}", e),
    }

    let text = "{\"msg\":\"DataUpdate\",\"datatype\":\"DeviceInfoDocType\"}";
    assert!(matches!(
        parse_event(text),
        Ok(Event {
            message: Message::DataUpdate(_)
        })
    ));
}

#[test]
fn parse_event_folds_unmapped_tags_into_unknown() {
    let parsed = parse_event("{\"msg\":\"SomethingNew\",\"x\":1}");
    assert_eq!(
        parsed,
        Ok(Event {
            message: Message::Unknown
        })
    );
}

#[test]
fn parse_event_refuses_frames_without_a_string_tag() {
    for bad in [
        "not json at all",
        "{\"msg\":\"unterminated",
        "[1,2,3]",
        "{\"other\":true}",
        "{\"msg\":42}",
        "",
    ] {
        match parse_event(bad) {
            Err(ApiError::InvalidResponse(d)) => assert_eq!(d, bad),
            other => panic!("expected the frame to be refused, got {:?}", other),
        }
    }
}

#[test]
fn terminate_makes_every_later_send_fail() {
    let mut listener = Listener::new();
    let event = Event::new(Message::DataUpdate(
        "{\"msg\":\"DataUpdate\",\"a\":1}".to_string(),
    ));
    // While the channel is open, the send yields the frame to write.
    assert_eq!(
        listener.prepare_send(&event),
        Ok("{\"msg\":\"DataUpdate\",\"a\":1}".to_string())
    );

    listener.terminate();
    assert_eq!(
        listener.prepare_send(&event),
        Err(ApiError::SinkAlreadyClosed)
    );
    // Terminating again is a no-op, and sends keep failing the same way.
    listener.terminate();
    assert_eq!(
        listener.prepare_send(&event),
        Err(ApiError::SinkAlreadyClosed)
    );
    assert_eq!(
        listener.prepare_send(&Event::new(Message::Unknown)),
        Err(ApiError::SinkAlreadyClosed)
    );
}

#[test]
fn unknown_message_travels_as_the_bare_tagged_object() {
    let listener = Listener::new();
    assert_eq!(
        listener.prepare_send(&Event::new(Message::Unknown)),
        Ok("{\"msg\":\"Unknown\"}".to_string())
    );
}

#[test]
fn send_fails_after_the_loop_finishes() {
    let mut listener = Listener::new();
    let directive = listener.loop_step(LoopEvent::StreamEnd);
    assert!(matches!(directive, LoopDirective::Exit));
    assert_eq!(
        listener.prepare_send(&Event::new(Message::Unknown)),
        Err(ApiError::SinkAlreadyClosed)
    );
}

#[test]
fn malformed_frame_does_not_terminate_the_loop() {
    let mut listener = Listener::new();
    assert!(matches!(
        step(&mut listener, "this is not a frame"),
        LoopDirective::Continue
    ));
    assert!(!listener.finished);
    // A well-formed frame arriving after the malformed one is delivered.
    match step(&mut listener, "{\"msg\":\"DeviceInfoSet\"}") {
        LoopDirective::Deliver(e) => {
            assert!(matches!(e.message, Message::DeviceInfoSet(_)))
        }
        other => panic!("expected the frame to be delivered, got {:?}", other),
    }
}

#[test]
fn transport_errors_and_pings_keep_the_loop_running() {
    let mut listener = Listener::new();
    assert!(matches!(
        listener.loop_step(LoopEvent::Inbound(InboundFrame::Ping)),
        LoopDirective::Continue
    ));
    assert!(matches!(
        listener.loop_step(LoopEvent::Inbound(InboundFrame::TransportError(
            "connection reset".to_string()
        ))),
        LoopDirective::Continue
    ));
    assert!(!listener.finished);
}

#[test]
fn unknown_messages_are_never_delivered() {
    let mut listener = Listener::new();
    assert!(matches!(
        step(&mut listener, "{\"msg\":\"SomethingNew\",\"x\":1}"),
        LoopDirective::Continue
    ));
    assert!(!listener.finished);
}

#[test]
fn cancellation_exits_through_the_close_handshake() {
    let mut listener = Listener::new();
    listener.terminate();
    let directive = listener.loop_step(LoopEvent::Cancelled);
    assert!(matches!(directive, LoopDirective::ExitClose));
    assert!(listener.finished);
}

#[test]
fn handler_refusal_stops_the_loop() {
    let mut listener = Listener::new();
    listener.handler_outcome(true);
    assert!(!listener.finished);
    listener.handler_outcome(false);
    assert!(listener.finished);
}

#[test]
fn two_frames_are_delivered_in_order_with_their_kinds() {
    let mut listener = Listener::new();
    let mut delivered: Vec<Event> = Vec::new();

    let frames = [
        "{\"msg\":\"SessionInfo\",\"body\":[{\"asset\":{\"uuid\":\"u\"}}]}",
        "{\"msg\":\"SubscriptionTopicsInfo\",\"body\":[{\"topics\":[]}]}",
    ];
    for frame in frames {
        match step(&mut listener, frame) {
            LoopDirective::Deliver(e) => delivered.push(e),
            other => panic!("expected the frame to be delivered, got {:?}", other),
        }
    }

    assert_eq!(delivered.len(), 2);
    assert!(matches!(delivered[0].message, Message::SessionInfo(_)));
    assert!(matches!(
        delivered[1].message,
        Message::SubscriptionTopicsInfo(_)
    ));
}

#[test]
fn frame_message_splices_the_tag_into_the_payload() {
    assert_eq!(
        frame_message("DataUpdate", "{}"),
        Some("{\"msg\":\"DataUpdate\"}".to_string())
    );
    assert_eq!(
        frame_message("DeviceInfoSet", "{\"zid\":\"abc\",\"command\":1}"),
        Some("{\"msg\":\"DeviceInfoSet\",\"zid\":\"abc\",\"command\":1}".to_string())
    );
    assert_eq!(frame_message("DataUpdate", "not an object"), None);
    assert_eq!(frame_message("DataUpdate", ""), None);
}

#[test]
fn framed_messages_round_trip_through_the_parser() {
    let framed = frame_message("SessionInfo", "{\"body\":[]}").unwrap();
    match parse_event(&framed) {
        Ok(e) => match e.message {
            Message::SessionInfo(raw) => assert_eq!(raw, framed),
            other => panic!("expected a session info message, got {:?}", other),
        },
        Err(e) => panic!("expected the framed message to decode, got {:?}", e),
    }
}
