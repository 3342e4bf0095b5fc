use bytes::Bytes;
use radar_core::share::event::{Action, EventObject, EventObjectBuilder};
use radar_core::srv::http::{frame_part, ws_step, WsMessage, WsReply};

#[test]
fn event_from_client_text() {
    let e = EventObject::from_event_builder(EventObjectBuilder { action: Action::EndOfCalib, data: "hello".to_string() });
    assert_eq!(e.action, Action::EndOfCalib);
    assert_eq!(e.data.as_ref(), b"hello");
}

#[test]
fn event_payload_is_utf8_of_text() {
    let e = EventObject::from_event_builder(EventObjectBuilder { action: Action::WebCalibPointsResult, data: "é€".to_string() });
    assert_eq!(e.data.to_vec(), vec![0xc3, 0xa9, 0xe2, 0x82, 0xac]);
    assert_eq!(std::str::from_utf8(&e.data).unwrap(), "é€");
    let empty = EventObject::from_event_builder(EventObjectBuilder { action: Action::Empty, data: String::new() });
    assert!(empty.data.is_empty());
}

#[test]
fn event_new_keeps_fields() {
    let e = EventObject::new(Action::HTTPStreamSend, Bytes::from_static(b"\x01\x02"));
    assert_eq!(e.action, Action::HTTPStreamSend);
    assert_eq!(e.data.as_ref(), &[1u8, 2][..]);
    let c = e.clone();
    assert_eq!(c.data, e.data);
}

#[test]
fn stream_part_framing() {
    let part = frame_part(&Bytes::from_static(b"ABC"));
    assert_eq!(part.as_ref(), &b"--frame\r\nContent-Type: image/jpeg\r\n\r\nABC\r\n"[..]);
    let empty = frame_part(&Bytes::new());
    assert_eq!(empty.as_ref(), &b"--frame\r\nContent-Type: image/jpeg\r\n\r\n\r\n"[..]);
}

#[test]
fn keepalive_ping_gets_a_pong() {
    match ws_step(WsMessage::Ping(vec![9])) {
        WsReply::Pong(p) => assert_eq!(p, vec![9]),
        other => panic!("unexpected {:?}", other),
    }
}

#[test]
fn other_pings_and_binary_are_refused() {
    assert!(matches!(ws_step(WsMessage::Ping(vec![1])), WsReply::Reject));
    assert!(matches!(ws_step(WsMessage::Ping(vec![9, 9])), WsReply::Reject));
    assert!(matches!(ws_step(WsMessage::Ping(vec![])), WsReply::Reject));
    assert!(matches!(ws_step(WsMessage::Binary(vec![9])), WsReply::Reject));
    assert!(matches!(ws_step(WsMessage::Pong(vec![9])), WsReply::Reject));
    assert!(matches!(ws_step(WsMessage::Close), WsReply::Reject));
}

#[test]
fn text_is_read_as_an_event() {
    match ws_step(WsMessage::Text("{\"action\":\"EndOfCalib\",\"data\":\"\"}".to_string())) {
        WsReply::ParseEvent(t) => assert_eq!(t, "{\"action\":\"EndOfCalib\",\"data\":\"\"}"),
        other => panic!("unexpected {:?}", other),
    }
}
