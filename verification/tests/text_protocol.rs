use friendlyfire::frames::{
    event_name,
    format_message, handle_message, image_address, legacy_close_step, legacy_connect_address,
    legacy_establish_step, legacy_send_result, legacy_keepalive_period_secs,
    legacy_keepalive_step, legacy_listener_step, local_connect_address, socket_address, split_fields_of, Emission, WebSocketError, WsMessage,
};
use friendlyfire::numbers::{is_float_literal, parse_u32};
use friendlyfire::connection::{KeepaliveAction, KeepaliveEvent, Link, ListenerAction, StreamItem};

#[test]
fn parse_u32_agrees_with_std() {
    let cases = [
        "0", "42", "+7", "-1", "", "+", "-", "4294967295", "4294967296", "12a", " 1", "1 ",
        "007", "+0", "99999999999999999999", "++1", "٣",
    ];
    for case in cases {
        assert_eq!(parse_u32(case), case.parse::<u32>().ok(), "{:?}", case);
    }
}

#[test]
fn float_literal_agrees_with_std() {
    let cases = [
        "1", "1.5", ".5", "5.", ".", "", "+", "-", "e5", "1e5", "1E5", "1e+5", "1e-5", "1e", "1e+",
        "-1.5e-3", "inf", "INF", "-Infinity", "+infinity", "nan", "NaN", "-nan", "infinit", "in",
        "1.2.3", "1..2", "1e5e5", "1.5e2.5", " 1", "1 ", "0x10", "1_000", "١", "+.5", "-.e1", ".e1",
        "5.e1", "1920", "1080.25", "1e400",
    ];
    for case in cases {
        assert_eq!(is_float_literal(case), case.parse::<f64>().is_ok(), "{:?}", case);
    }
}

#[test]
fn split_follows_str_split() {
    let cases = ["", ";", "a", "a;b", ";a;", "play_image;x;;1;2", ";;"];
    for case in cases {
        let expected: Vec<String> = case.split(';').map(|s| s.to_string()).collect();
        assert_eq!(split_fields_of(case), expected, "{:?}", case);
    }
}

#[test]
fn reads_client_count() {
    assert_eq!(
        WsMessage::from_str("update_client_count;3"),
        Ok(WsMessage::UpdateClientCount(3))
    );
    assert_eq!(
        WsMessage::from_str("update_client_count;x"),
        Err(WebSocketError::ParseError("Invalid client count"))
    );
}

#[test]
fn reads_play_image() {
    let m = WsMessage::from_str("play_image;https://example.com/uploads/a;hello;640;480.5");
    assert_eq!(
        m,
        Ok(WsMessage::PlayImage(
            "https://example.com/uploads/a".to_string(),
            "hello".to_string(),
            "640".to_string(),
            "480.5".to_string()
        ))
    );
}

#[test]
fn reads_play_video_with_normalized_url() {
    let m = WsMessage::from_str("play_video;HTTPS://Example.com;;1;2");
    assert_eq!(
        m,
        Ok(WsMessage::PlayVideo(
            "https://example.com/".to_string(),
            "".to_string(),
            "1".to_string(),
            "2".to_string()
        ))
    );
}

#[test]
fn refuses_bad_sizes_and_kinds() {
    assert_eq!(
        WsMessage::from_str("play_image;https://a.b;t;wide;2"),
        Err(WebSocketError::ParseError("Invalid width"))
    );
    assert_eq!(
        WsMessage::from_str("play_image;https://a.b;t;wide"),
        Err(WebSocketError::ParseError("Invalid width"))
    );
    assert_eq!(
        WsMessage::from_str("play_video;https://a.b;t;1;tall"),
        Err(WebSocketError::ParseError("Invalid height"))
    );
    assert_eq!(
        WsMessage::from_str("stop"),
        Err(WebSocketError::ParseError("Unknown message type"))
    );
    assert_eq!(
        WsMessage::from_str(""),
        Err(WebSocketError::ParseError("Unknown message type"))
    );
}

#[test]
fn try_from_str_reports_frames_that_stop_short() {
    assert_eq!(WsMessage::try_from_str("update_client_count"), None);
    assert_eq!(WsMessage::try_from_str("play_image;a;b"), None);
    assert_eq!(WsMessage::try_from_str("play_image;a;b;1"), None);
    assert_eq!(WsMessage::try_from_str("play_image;not a url;b;1;2"), None);
    assert_eq!(
        WsMessage::try_from_str("play_image;not a url;b;x;2"),
        Some(Err(WebSocketError::ParseError("Invalid width")))
    );
    assert_eq!(
        WsMessage::try_from_str("update_client_count;9"),
        Some(Ok(WsMessage::UpdateClientCount(9)))
    );
}

#[test]
fn format_message_reads_back() {
    let frame = format_message(true, "https://example.com/uploads/x", "hi", "1920", "1080");
    assert_eq!(frame, "play_image;https://example.com/uploads/x;hi;1920;1080");
    assert_eq!(
        WsMessage::from_str(&frame),
        Ok(WsMessage::PlayImage(
            "https://example.com/uploads/x".to_string(),
            "hi".to_string(),
            "1920".to_string(),
            "1080".to_string()
        ))
    );
    let frame = format_message(false, "https://example.com/v", "", "NaN", "inf");
    assert_eq!(frame, "play_video;https://example.com/v;;NaN;inf");
    assert!(matches!(WsMessage::from_str(&frame), Ok(WsMessage::PlayVideo(..))));
}

#[test]
fn format_message_takes_float_display() {
    let w = 1280.0f64;
    let h = 720.5f64;
    let frame = format_message(true, "https://a.b/", "t", &w.to_string(), &h.to_string());
    match WsMessage::from_str(&frame) {
        Ok(WsMessage::PlayImage(_, _, ws, hs)) => {
            assert_eq!(ws.parse::<f64>().unwrap(), w);
            assert_eq!(hs.parse::<f64>().unwrap(), h);
        }
        other => panic!("unexpected {:?}", other),
    }
}

#[test]
fn handle_message_emits_events() {
    assert_eq!(
        handle_message("update_client_count;4"),
        Some(Ok(Emission::ClientCount(4)))
    );
    assert_eq!(
        handle_message("play_image;https://a.b/;cap;10;20"),
        Some(Ok(Emission::Image {
            remote_path: "https://a.b/".to_string(),
            text: "cap".to_string(),
            width: "10".to_string(),
            height: "20".to_string()
        }))
    );
    assert_eq!(
        handle_message("play_video;https://a.b/;cap;10;20"),
        Some(Ok(Emission::Video {
            remote_path: "https://a.b/".to_string(),
            text: "cap".to_string(),
            width: "20".to_string(),
            height: "10".to_string()
        }))
    );
    assert_eq!(
        handle_message("nope"),
        Some(Err(WebSocketError::ParseError("Unknown message type")))
    );
    assert_eq!(handle_message("play_video;x"), None);
}

#[test]
fn event_names() {
    assert_eq!(event_name(&Emission::ClientCount(1)), "updateClientCount");
    let e = handle_message("play_image;https://a.b/;c;1;2").unwrap().unwrap();
    assert_eq!(event_name(&e), "playImage");
    let e = handle_message("play_video;https://a.b/;c;1;2").unwrap().unwrap();
    assert_eq!(event_name(&e), "playVideo");
}

#[test]
fn websocket_error_texts() {
    let e = WebSocketError::ParseError("Invalid width");
    assert_eq!(e.describe(), "Parse error: Invalid width");
    assert_eq!(e.serialized(), "ParseError: Invalid width");
    let e = WebSocketError::SendError("closed".to_string());
    assert_eq!(e.describe(), "WebSocket send error: closed");
    assert_eq!(e.serialized(), "SendError: closed");
    let e = WebSocketError::ConnectionError("refused".to_string());
    assert_eq!(e.describe(), "WebSocket connection error: refused");
    assert_eq!(e.serialized(), "ConnectionError: refused");
    let e = WebSocketError::ReceiveError("reset".to_string());
    assert_eq!(e.describe(), "WebSocket receive error: reset");
    assert_eq!(e.serialized(), "ReceiveError: reset");
    assert_eq!(WebSocketError::UnknownError.describe(), "Unknown error");
    assert_eq!(WebSocketError::UnknownError.serialized(), "UnknownError");
}

#[test]
fn legacy_connection_details() {
    assert_eq!(socket_address("example.com"), "wss://example.com/ws");
    assert_eq!(legacy_keepalive_period_secs(), 20);
    assert_eq!(
        legacy_keepalive_step(true, KeepaliveEvent::Tick),
        KeepaliveAction::Ping(vec![1, 3, 3, 7])
    );
    assert_eq!(legacy_keepalive_step(false, KeepaliveEvent::Tick), KeepaliveAction::Wait);
    assert_eq!(legacy_keepalive_step(true, KeepaliveEvent::Sent(true)), KeepaliveAction::Wait);
    assert_eq!(legacy_keepalive_step(true, KeepaliveEvent::Sent(false)), KeepaliveAction::Stop);
    assert_eq!(
        legacy_listener_step(StreamItem::Message(Some("f".to_string()))),
        ListenerAction::Handle("f".to_string())
    );
    assert_eq!(legacy_listener_step(StreamItem::Message(None)), ListenerAction::Wait);
    assert_eq!(legacy_listener_step(StreamItem::ReadError), ListenerAction::Stop);
    assert_eq!(legacy_listener_step(StreamItem::Ended), ListenerAction::Stop);
    assert_eq!(
        legacy_connect_address(&Link::closed(), "a.example").as_deref(),
        Some("wss://a.example/ws")
    );
    assert_eq!(legacy_connect_address(&Link::established(), "a.example"), None);
    assert_eq!(local_connect_address(&Link::closed()), Some("wss://localhost:7331/ws"));
    assert_eq!(local_connect_address(&Link::established()), None);
}

#[test]
fn legacy_connection_steps() {
    let mut link = Link::closed();
    assert_eq!(
        legacy_establish_step(&mut link, Err("refused".to_string())),
        Err(WebSocketError::ConnectionError("refused".to_string()))
    );
    assert_eq!(link, Link::closed());
    assert_eq!(legacy_establish_step(&mut link, Ok(())), Ok(()));
    assert!(link.socket_open);
    assert_eq!(
        legacy_close_step(&mut link, Err("broken".to_string())),
        Err(WebSocketError::SendError("broken".to_string()))
    );
    assert!(link.socket_open);
    assert_eq!(legacy_close_step(&mut link, Ok(())), Ok(()));
    assert!(!link.socket_open);
    assert_eq!(legacy_send_result(Ok(())), Ok(()));
    assert_eq!(
        legacy_send_result(Err("x".to_string())),
        Err(WebSocketError::SendError("x".to_string()))
    );
}

#[test]
fn image_addresses() {
    assert_eq!(
        image_address("abc").as_deref(),
        Ok("http://localhost:3000/uploads/abc")
    );
    assert_eq!(
        image_address("a b").as_deref(),
        Ok("http://localhost:3000/uploads/a%20b")
    );
}
