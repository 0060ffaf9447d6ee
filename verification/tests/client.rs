use friendlyfire::connection::{
    close_code, close_reason, connect, disconnect_action, disconnect_step, keepalive_period_secs,
    keepalive_step, listener_step, establish_step, message_send_plan, message_send_result, KeepaliveAction, KeepaliveEvent, ListenerAction, ListenerEvent,
    StreamItem, set_server_url, ConnectError, DisconnectAction, DisconnectError, Link,
};
use friendlyfire::media::{
    choose_encoding, media_announcement, upload_target, Encoding, ImageFormat, SendError,
};
use friendlyfire::messages::{
    player_event, player_window, ClientCountMessage, MediaMessage, User, WsError, WsMessage,
};
use friendlyfire::server_state::ServerState;
use friendlyfire::urls::{parse_url, UrlError};

fn server_at(domain: &str) -> ServerState {
    let mut state = ServerState::default();
    set_server_url(&mut state, domain).unwrap();
    state
}

#[test]
fn parse_url_normalizes() {
    assert_eq!(parse_url("https://Example.COM").unwrap(), "https://example.com/");
    assert_eq!(parse_url("no scheme"), Err(UrlError::RelativeUrlWithoutBase));
    assert_eq!(parse_url("https://a.b:99999"), Err(UrlError::InvalidPort));
}

#[test]
fn derived_urls() {
    let state = server_at("example.com");
    assert_eq!(state.upload_url().as_deref(), Some("https://example.com/upload"));
    assert_eq!(state.ws_url().as_deref(), Some("wss://example.com/ws"));
    assert_eq!(
        state.remote_media("abc".to_string()).as_deref(),
        Some("https://example.com/uploads/abc")
    );
}

#[test]
fn derived_urls_keep_the_port_and_drop_the_path() {
    let state = server_at("example.com:8443/some/where");
    assert_eq!(state.ws_url().as_deref(), Some("wss://example.com:8443/ws"));
    assert_eq!(state.upload_url().as_deref(), Some("https://example.com:8443/upload"));
}

#[test]
fn no_server_no_urls() {
    let state = ServerState::default();
    assert_eq!(state.upload_url(), None);
    assert_eq!(state.ws_url(), None);
    assert_eq!(state.remote_media("x".to_string()), None);
}

#[test]
fn set_url_replaces_and_forgets() {
    let mut state = server_at("a.example");
    state.set_url(parse_url("https://b.example").ok());
    assert_eq!(state.ws_url().as_deref(), Some("wss://b.example/ws"));
    state.set_url(None);
    assert_eq!(state.ws_url(), None);
}

#[test]
fn set_server_url_refuses_bad_domains() {
    let mut state = server_at("keep.example");
    assert_eq!(
        set_server_url(&mut state, ""),
        Err(ConnectError::UrlParseError(UrlError::EmptyHost))
    );
    assert!(matches!(
        set_server_url(&mut state, "exa mple.com"),
        Err(ConnectError::UrlParseError(_))
    ));
    assert_eq!(state.ws_url().as_deref(), Some("wss://keep.example/ws"));
}

#[test]
fn connect_answers_the_socket_endpoint() {
    let mut state = ServerState::default();
    let r = connect(&mut state, &Link::closed(), "example.com");
    assert_eq!(r.unwrap(), "wss://example.com/ws");
}

#[test]
fn connect_refuses_a_second_connection_but_sets_the_server() {
    let mut state = server_at("old.example");
    match connect(&mut state, &Link::established(), "new.example") {
        Err(ConnectError::ConnectionError(m)) => assert_eq!(m, "Connection has already been set"),
        other => panic!("unexpected {:?}", other),
    }
    assert_eq!(state.ws_url().as_deref(), Some("wss://new.example/ws"));
}

#[test]
fn connect_errors_describe() {
    let mut state = ServerState::default();
    let e = connect(&mut state, &Link::closed(), "").unwrap_err();
    assert_eq!(e.describe(), "URL parse error: empty host");
    assert_eq!(
        ConnectError::handshake_failed().describe(),
        "Connection error: Failed to connect to WebSocket"
    );
}

#[test]
fn keepalive() {
    assert_eq!(keepalive_period_secs(), 10);
    assert_eq!(
        keepalive_step(&Link::established(), KeepaliveEvent::Tick),
        KeepaliveAction::Ping(vec![])
    );
    assert_eq!(keepalive_step(&Link::closed(), KeepaliveEvent::Tick), KeepaliveAction::Wait);
    assert_eq!(
        keepalive_step(&Link::established(), KeepaliveEvent::Sent(true)),
        KeepaliveAction::Wait
    );
    assert_eq!(keepalive_step(&Link::established(), KeepaliveEvent::Kill), KeepaliveAction::Stop);
}

#[test]
fn listener() {
    assert_eq!(
        listener_step(ListenerEvent::Stream(StreamItem::Message(Some("x".to_string())))),
        ListenerAction::Handle("x".to_string())
    );
    assert_eq!(
        listener_step(ListenerEvent::Stream(StreamItem::Message(None))),
        ListenerAction::Wait
    );
    assert_eq!(listener_step(ListenerEvent::Stream(StreamItem::ReadError)), ListenerAction::Wait);
    assert_eq!(listener_step(ListenerEvent::Stream(StreamItem::Ended)), ListenerAction::Wait);
    assert_eq!(listener_step(ListenerEvent::Kill), ListenerAction::Stop);
}

#[test]
fn url_error_texts() {
    assert_eq!(UrlError::EmptyHost.text(), url::ParseError::EmptyHost.to_string());
    assert_eq!(UrlError::IdnaError.text(), url::ParseError::IdnaError.to_string());
    assert_eq!(UrlError::InvalidPort.text(), url::ParseError::InvalidPort.to_string());
    assert_eq!(UrlError::InvalidIpv4Address.text(), url::ParseError::InvalidIpv4Address.to_string());
    assert_eq!(UrlError::InvalidIpv6Address.text(), url::ParseError::InvalidIpv6Address.to_string());
    assert_eq!(
        UrlError::InvalidDomainCharacter.text(),
        url::ParseError::InvalidDomainCharacter.to_string()
    );
    assert_eq!(
        UrlError::RelativeUrlWithoutBase.text(),
        url::ParseError::RelativeUrlWithoutBase.to_string()
    );
    assert_eq!(
        UrlError::RelativeUrlWithCannotBeABaseBase.text(),
        url::ParseError::RelativeUrlWithCannotBeABaseBase.to_string()
    );
    assert_eq!(
        UrlError::SetHostOnCannotBeABaseUrl.text(),
        url::ParseError::SetHostOnCannotBeABaseUrl.to_string()
    );
    assert_eq!(UrlError::Overflow.text(), url::ParseError::Overflow.to_string());
}

#[test]
fn other_web_schemes_and_file_hosts_derive() {
    let mut state = ServerState::default();
    state.set_url(parse_url("http://plain.example").ok());
    assert_eq!(state.ws_url().as_deref(), Some("wss://plain.example/ws"));
    state.set_url(parse_url("ftp://files.example/x").ok());
    assert_eq!(state.upload_url().as_deref(), Some("https://files.example/upload"));
    state.set_url(parse_url("file://share/doc").ok());
    assert_eq!(state.remote_media("n".to_string()).as_deref(), Some("https://share/uploads/n"));
}

#[test]
fn disconnect_runs_its_three_steps() {
    let mut link = Link::established();
    let mut server = server_at("example.com");
    assert_eq!(close_code(), 1000);
    assert_eq!(close_reason(), "User disconnecting");
    let a = disconnect_action(&link);
    assert_eq!(a, DisconnectAction::CloseSocket);
    assert_eq!(disconnect_step(&mut link, &mut server, a, Ok(())), Ok(false));
    let a = disconnect_action(&link);
    assert_eq!(a, DisconnectAction::StopTasks);
    assert_eq!(disconnect_step(&mut link, &mut server, a, Ok(())), Ok(false));
    let a = disconnect_action(&link);
    assert_eq!(a, DisconnectAction::ForgetServer);
    assert_eq!(server.ws_url().as_deref(), Some("wss://example.com/ws"));
    assert_eq!(disconnect_step(&mut link, &mut server, a, Ok(())), Ok(true));
    assert_eq!(server.ws_url(), None);
    assert_eq!(link, Link::closed());
}

#[test]
fn disconnect_stops_at_a_failed_step() {
    let mut link = Link::established();
    let mut server = server_at("example.com");
    let r = disconnect_step(&mut link, &mut server, DisconnectAction::CloseSocket, Err("broken pipe".to_string()));
    assert_eq!(r, Err(DisconnectError::WebSocket("broken pipe".to_string())));
    assert_eq!(link, Link::established());
    assert!(server.ws_url().is_some());
    let mut link = Link { socket_open: false, kill_armed: true };
    let r = disconnect_step(&mut link, &mut server, DisconnectAction::StopTasks, Err("channel closed".to_string()));
    assert_eq!(r, Err(DisconnectError::KillChannel("channel closed".to_string())));
    assert_eq!(
        r.unwrap_err().describe(),
        "Kill channel send error: channel closed"
    );
    assert_eq!(
        DisconnectError::WebSocket("x".to_string()).describe(),
        "WebSocket send error: x"
    );
}

#[test]
fn disconnect_of_nothing_only_forgets_the_server() {
    let link = Link::closed();
    assert_eq!(disconnect_action(&link), DisconnectAction::ForgetServer);
}

#[test]
fn encodings() {
    let why = "unsupported".to_string();
    assert_eq!(choose_encoding(Some(ImageFormat::Gif), why.clone()), Ok(Encoding::AsIs));
    assert_eq!(choose_encoding(Some(ImageFormat::Other), why.clone()), Ok(Encoding::Webp));
    assert_eq!(choose_encoding(None, why.clone()), Err(SendError::Image(why)));
}

#[test]
fn upload_and_announcement() {
    let state = server_at("example.com");
    assert_eq!(upload_target(&state), Ok("https://example.com/upload".to_string()));
    let user = User { username: "ann".to_string() };
    let m = media_announcement(
        &state,
        "Zx9".to_string(),
        "top".to_string(),
        "bottom".to_string(),
        user.clone(),
        5000,
    );
    assert_eq!(
        m,
        Ok(WsMessage::Media(MediaMessage {
            media_url: "https://example.com/uploads/Zx9".to_string(),
            top_message: "top".to_string(),
            bottom_message: "bottom".to_string(),
            sender: user,
            timeout: 5000,
        }))
    );
}

#[test]
fn no_server_no_upload() {
    let state = ServerState::default();
    assert_eq!(upload_target(&state), Err(SendError::UrlNone));
    let user = User { username: "ann".to_string() };
    let m = media_announcement(&state, "a".to_string(), String::new(), String::new(), user, 1);
    assert_eq!(m, Err(SendError::RemoteMediaNone));
}

#[test]
fn send_error_texts() {
    assert_eq!(SendError::Io("gone".to_string()).describe(), "IO error: gone");
    assert_eq!(SendError::Reqwest("x".to_string()).describe(), "Reqwest error: x");
    assert_eq!(SendError::Serde("x".to_string()).describe(), "Serde error: x");
    assert_eq!(SendError::Image("x".to_string()).describe(), "Image error: x");
    assert_eq!(SendError::Webp("bad".to_string()).describe(), "WebP encoding error: \"bad\"");
    assert_eq!(
        SendError::Webp("a\"b\\c\n".to_string()).describe(),
        format!("WebP encoding error: {:?}", "a\"b\\c\n")
    );
    assert_eq!(SendError::Tungstenite("x".to_string()).describe(), "Tungstenite error: x");
    assert_eq!(
        SendError::SendingError(WsError::SendError("x".to_string())).describe(),
        "Unable to send message: x"
    );
    assert_eq!(
        SendError::SendingError(WsError::SerializationError("x".to_string())).describe(),
        "Could not serialize WebSocket message: x"
    );
    assert_eq!(SendError::RemoteMediaNone.describe(), "No remote media url");
    assert_eq!(SendError::UrlNone.describe(), "No URL");
}

#[test]
fn player_events() {
    assert_eq!(player_window(), "player");
    let count = WsMessage::ClientCount(ClientCountMessage { client_count: 2 });
    assert_eq!(player_event(&count), "ff://client_count");
    let media = WsMessage::Media(MediaMessage {
        media_url: "https://a.b/".to_string(),
        top_message: String::new(),
        bottom_message: String::new(),
        sender: User { username: "u".to_string() },
        timeout: 1,
    });
    assert_eq!(player_event(&media), "ff://media_play");
}

#[test]
fn handshake_outcomes() {
    let mut link = Link::closed();
    match establish_step(&mut link, false) {
        Err(ConnectError::ConnectionError(m)) => assert_eq!(m, "Failed to connect to WebSocket"),
        other => panic!("unexpected {:?}", other),
    }
    assert_eq!(link, Link::closed());
    assert_eq!(establish_step(&mut link, true), Ok(()));
    assert_eq!(link, Link::established());
}

#[test]
fn message_sending() {
    assert!(message_send_plan(&Link::established()));
    assert!(!message_send_plan(&Link::closed()));
    assert_eq!(message_send_result(Ok(())), Ok(()));
    assert_eq!(
        message_send_result(Err("reset".to_string())),
        Err(WsError::SendError("reset".to_string()))
    );
}
