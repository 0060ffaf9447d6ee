//! The text protocol of the earlier client: `;`-separated frames such as
//! `play_image;{url};{text};{width};{height}` or `update_client_count;{n}`.

use vstd::prelude::*;
use crate::numbers::{
    all_digits, decimal_value, is_digit, is_float_literal, is_float_text, parse_u32,
    u32_text_value, unsigned_digits,
};
use crate::urls::{is_url_text, parse_url, url_parse, UrlError};
use crate::connection::{KeepaliveAction, KeepaliveEvent, Link, ListenerAction, StreamItem};

verus! {

/// The fields of a text, as `str::split(';')` cuts it: there is always at least one, and
/// two separators side by side give an empty field.
pub open spec fn split_fields(s: Seq<char>) -> Seq<Seq<char>>
    decreases s.len(),
{
    if s.len() == 0 {
        seq![Seq::empty()]
    } else {
        let init = split_fields(s.drop_last());
        if s.last() == ';' {
            init.push(Seq::empty())
        } else {
            init.update(init.len() - 1, init.last().push(s.last()))
        }
    }
}

pub proof fn lemma_split_nonempty(s: Seq<char>)
    ensures
        split_fields(s).len() >= 1,
    decreases s.len(),
{
    if s.len() > 0 {
        lemma_split_nonempty(s.drop_last());
    }
}

/// Cuts a text at each ';', as `str::split(';')` does.
pub fn split_fields_of(s: &str) -> (fields: Vec<String>)
    ensures
        fields@.len() == split_fields(s@).len(),
        forall|j: int| 0 <= j < fields@.len() ==> #[trigger] fields@[j]@ == split_fields(s@)[j],
{
    let n = s.unicode_len();
    let mut fields: Vec<String> = Vec::new();
    let mut start: usize = 0;
    let mut i: usize = 0;
    proof {
        assert(s@.take(0) =~= Seq::<char>::empty());
    }
    while i < n
        invariant
            start <= i <= n,
            n == s@.len(),
            split_fields(s@.take(i as int)).len() == fields@.len() + 1,
            forall|j: int|
                0 <= j < fields@.len() ==> #[trigger] fields@[j]@ == split_fields(
                    s@.take(i as int),
                )[j],
            split_fields(s@.take(i as int)).last() == s@.subrange(start as int, i as int),
        decreases n - i,
    {
        let c = s.get_char(i);
        let ghost prev = split_fields(s@.take(i as int));
        assert(s@.take(i + 1).drop_last() =~= s@.take(i as int));
        assert(s@.take(i + 1).last() == c);
        if c == ';' {
            let field = s.substring_char(start, i).to_owned();
            fields.push(field);
            start = i + 1;
            assert(s@.subrange(start as int, i + 1) =~= Seq::<char>::empty());
        } else {
            assert(s@.subrange(start as int, i + 1) =~= s@.subrange(start as int, i as int).push(c));
        }
        i = i + 1;
    }
    assert(s@.take(n as int) =~= s@);
    let last = s.substring_char(start, n).to_owned();
    fields.push(last);
    fields
}

/// Why a websocket operation of the earlier client failed. The variants that come from an
/// underlying error hold its text.
#[derive(Clone, Debug, PartialEq, Eq)]
pub enum WebSocketError {
    ConnectionError(String),
    SendError(String),
    ReceiveError(String),
    ParseError(&'static str),
    UnknownError,
}

impl WebSocketError {
    /// The error as it is shown to the user.
    pub fn describe(&self) -> (r: String)
        ensures
            r@ == match self {
                WebSocketError::ConnectionError(e) => "WebSocket connection error: "@ + e@,
                WebSocketError::SendError(e) => "WebSocket send error: "@ + e@,
                WebSocketError::ReceiveError(e) => "WebSocket receive error: "@ + e@,
                WebSocketError::ParseError(e) => "Parse error: "@ + e@,
                WebSocketError::UnknownError => "Unknown error"@,
            },
    {
        match self {
            WebSocketError::ConnectionError(e) => "WebSocket connection error: ".to_owned().concat(
                e.as_str(),
            ),
            WebSocketError::SendError(e) => "WebSocket send error: ".to_owned().concat(e.as_str()),
            WebSocketError::ReceiveError(e) => "WebSocket receive error: ".to_owned().concat(
                e.as_str(),
            ),
            WebSocketError::ParseError(e) => "Parse error: ".to_owned().concat(*e),
            WebSocketError::UnknownError => "Unknown error".to_owned(),
        }
    }

    /// The string that the error serializes to when it is handed to the interface.
    pub fn serialized(&self) -> (r: String)
        ensures
            r@ == match self {
                WebSocketError::ConnectionError(e) => "ConnectionError: "@ + e@,
                WebSocketError::SendError(e) => "SendError: "@ + e@,
                WebSocketError::ReceiveError(e) => "ReceiveError: "@ + e@,
                WebSocketError::ParseError(e) => "ParseError: "@ + e@,
                WebSocketError::UnknownError => "UnknownError"@,
            },
    {
        match self {
            WebSocketError::ConnectionError(e) => "ConnectionError: ".to_owned().concat(e.as_str()),
            WebSocketError::SendError(e) => "SendError: ".to_owned().concat(e.as_str()),
            WebSocketError::ReceiveError(e) => "ReceiveError: ".to_owned().concat(e.as_str()),
            WebSocketError::ParseError(e) => "ParseError: ".to_owned().concat(*e),
            WebSocketError::UnknownError => "UnknownError".to_owned(),
        }
    }
}

/// A frame of the earlier client's protocol. The media frames hold the serialization of
/// the media's URL, the caption, and the width and height as the frame wrote them (texts
/// that `str::parse::<f64>` accepts).
#[derive(Clone, Debug, PartialEq, Eq)]
pub enum WsMessage {
    UpdateClientCount(u32),
    PlayImage(String, String, String, String),
    PlayVideo(String, String, String, String),
}

pub open spec fn is_media_kind(kind: Seq<char>) -> bool {
    kind == "play_image"@ || kind == "play_video"@
}

/// The error with which a frame is refused, if it is.
pub open spec fn frame_error(s: Seq<char>) -> Option<Seq<char>> {
    let f = split_fields(s);
    let kind = f[0];
    if kind == "update_client_count"@ {
        if u32_text_value(f[1]) is Some {
            None
        } else {
            Some("Invalid client count"@)
        }
    } else if is_media_kind(kind) {
        if !is_float_text(f[3]) {
            Some("Invalid width"@)
        } else if !is_float_text(f[4]) {
            Some("Invalid height"@)
        } else {
            None
        }
    } else {
        Some("Unknown message type"@)
    }
}

/// The frames on which the earlier client's reader panics: it indexes a field that the
/// frame lacks, or it unwraps the parse of a media URL that does not parse (after the
/// sizes have been read). `from_str` leaves them out; `try_from_str` answers `None`.
pub open spec fn frame_panics(s: Seq<char>) -> bool {
    let f = split_fields(s);
    let kind = f[0];
    if kind == "update_client_count"@ {
        f.len() < 2
    } else if is_media_kind(kind) {
        f.len() < 4 || (is_float_text(f[3]) && (f.len() < 5 || (is_float_text(f[4]) && url_parse(
            f[1],
        ) is Err)))
    } else {
        false
    }
}

/// What a frame that reads without stopping short gives.
pub open spec fn frame_reads_as(s: Seq<char>, r: Result<WsMessage, WebSocketError>) -> bool {
    let f = split_fields(s);
    match r {
        Ok(WsMessage::UpdateClientCount(c)) => f[0] == "update_client_count"@ && u32_text_value(
            f[1],
        ) == Some(c),
        Ok(WsMessage::PlayImage(u, t, w, h)) => f[0] == "play_image"@ && frame_error(s) is None
            && url_parse(f[1]) == Ok::<Seq<char>, UrlError>(u@) && t@ == f[2] && w@ == f[3] && h@ == f[4],
        Ok(WsMessage::PlayVideo(u, t, w, h)) => f[0] == "play_video"@ && frame_error(s) is None
            && url_parse(f[1]) == Ok::<Seq<char>, UrlError>(u@) && t@ == f[2] && w@ == f[3] && h@ == f[4],
        Err(WebSocketError::ParseError(m)) => frame_error(s) == Some(m@),
        Err(_) => false,
    }
}

fn field_is(field: &String, word: &str) -> (r: bool)
    ensures
        r == (field@ == word@),
{
    let w = word.to_owned();
    *field == w
}

/// Reads the sizes and the URL of a media frame whose fields are all there.
fn read_media(f: &Vec<String>, image: bool) -> (r: Result<WsMessage, WebSocketError>)
    requires
        f@.len() >= 4,
        is_float_text(f@[3]@) ==> f@.len() >= 5,
        is_float_text(f@[3]@) && is_float_text(f@[4]@) ==> url_parse(f@[1]@) is Ok,
    ensures
        !is_float_text(f@[3]@) ==> r == Err::<WsMessage, WebSocketError>(
            WebSocketError::ParseError("Invalid width"),
        ),
        is_float_text(f@[3]@) && !is_float_text(f@[4]@) ==> r == Err::<WsMessage, WebSocketError>(
            WebSocketError::ParseError("Invalid height"),
        ),
        is_float_text(f@[3]@) && is_float_text(f@[4]@) ==> match r {
            Ok(WsMessage::PlayImage(u, t, w, h)) => image && url_parse(f@[1]@) == Ok::<Seq<char>, UrlError>(u@) && t@
                == f@[2]@ && w@ == f@[3]@ && h@ == f@[4]@,
            Ok(WsMessage::PlayVideo(u, t, w, h)) => !image && url_parse(f@[1]@) == Ok::<Seq<char>, UrlError>(u@) && t@
                == f@[2]@ && w@ == f@[3]@ && h@ == f@[4]@,
            _ => false,
        },
{
    if !is_float_literal(f[3].as_str()) {
        return Err(WebSocketError::ParseError("Invalid width"));
    }
    if !is_float_literal(f[4].as_str()) {
        return Err(WebSocketError::ParseError("Invalid height"));
    }
    let url = match parse_url(f[1].as_str()) {
        Ok(u) => u,
        Err(_) => {
            return Err(WebSocketError::UnknownError);
        },
    };
    let text = f[2].clone();
    let width = f[3].clone();
    let height = f[4].clone();
    if image {
        Ok(WsMessage::PlayImage(url, text, width, height))
    } else {
        Ok(WsMessage::PlayVideo(url, text, width, height))
    }
}

impl WsMessage {
    /// Reads a frame. Its kind is the first field; `update_client_count` takes a count,
    /// the media kinds take a URL, a caption, a width and a height.
    pub fn from_str(s: &str) -> (r: Result<WsMessage, WebSocketError>)
        requires
            !frame_panics(s@),
        ensures
            frame_reads_as(s@, r),
            r is Ok <==> frame_error(s@) is None,
            split_fields(s@)[0] == "update_client_count"@ ==> r == match u32_text_value(
                split_fields(s@)[1],
            ) {
                Some(c) => Ok::<WsMessage, WebSocketError>(WsMessage::UpdateClientCount(c)),
                None => Err(WebSocketError::ParseError("Invalid client count")),
            },
    {
        let f = split_fields_of(s);
        proof {
            lemma_split_nonempty(s@);
        }
        assert(f@[0]@ == split_fields(s@)[0]);
        if field_is(&f[0], "update_client_count") {
            assert(f@[1]@ == split_fields(s@)[1]);
            match parse_u32(f[1].as_str()) {
                Some(c) => Ok(WsMessage::UpdateClientCount(c)),
                None => Err(WebSocketError::ParseError("Invalid client count")),
            }
        } else if field_is(&f[0], "play_image") {
            assert(f@[1]@ == split_fields(s@)[1]);
            assert(f@[2]@ == split_fields(s@)[2]);
            assert(f@[3]@ == split_fields(s@)[3]);
            assert(f@.len() >= 5 ==> f@[4]@ == split_fields(s@)[4]);
            read_media(&f, true)
        } else if field_is(&f[0], "play_video") {
            assert(f@[1]@ == split_fields(s@)[1]);
            assert(f@[2]@ == split_fields(s@)[2]);
            assert(f@[3]@ == split_fields(s@)[3]);
            assert(f@.len() >= 5 ==> f@[4]@ == split_fields(s@)[4]);
            read_media(&f, false)
        } else {
            Err(WebSocketError::ParseError("Unknown message type"))
        }
    }

    /// Reads a frame, or answers `None` for a frame on which the reader panics.
    pub fn try_from_str(s: &str) -> (r: Option<Result<WsMessage, WebSocketError>>)
        ensures
            r is None <==> frame_panics(s@),
            r matches Some(m) ==> frame_reads_as(s@, m) && (m is Ok <==> frame_error(s@) is None),
    {
        let f = split_fields_of(s);
        proof {
            lemma_split_nonempty(s@);
        }
        assert(f@[0]@ == split_fields(s@)[0]);
        let n = f.len();
        if field_is(&f[0], "update_client_count") {
            if n < 2 {
                return None;
            }
        } else if field_is(&f[0], "play_image") || field_is(&f[0], "play_video") {
            if n < 4 {
                return None;
            }
            assert(f@[3]@ == split_fields(s@)[3]);
            if is_float_literal(f[3].as_str()) {
                if n < 5 {
                    return None;
                }
                assert(f@[4]@ == split_fields(s@)[4]);
                assert(f@[1]@ == split_fields(s@)[1]);
                if is_float_literal(f[4].as_str()) && parse_url(f[1].as_str()).is_err() {
                    return None;
                }
            }
        }
        Some(WsMessage::from_str(s))
    }
}


/// The websocket endpoint that the earlier client connects to for a domain.
pub fn socket_address(domain: &str) -> (r: String)
    ensures
        r@ == "wss://"@ + domain@ + "/ws"@,
{
    "wss://".to_owned().concat(domain).concat("/ws")
}

/// The endpoint that the earlier client's websocket module connects to.
pub fn local_socket_address() -> (r: &'static str)
    ensures
        r@ == "wss://localhost:7331/ws"@,
{
    "wss://localhost:7331/ws"
}

/// The endpoint to which the earlier client uploads media.
pub fn local_upload_address() -> (r: &'static str)
    ensures
        r@ == "http://localhost:7331/upload"@,
{
    "http://localhost:7331/upload"
}

/// How often the earlier client's websocket module pings the server, in seconds.
pub fn legacy_keepalive_period_secs() -> (r: u64)
    ensures
        r == 20,
{
    20
}

/// The earlier client's keepalive task: on a tick, while it is connected, a ping carrying
/// the bytes 1, 3, 3, 7; after a ping that was sent, the next tick; after a ping that
/// could not be sent, the end of the task.
pub fn legacy_keepalive_step(connected: bool, event: KeepaliveEvent) -> (r: KeepaliveAction)
    requires
        event != KeepaliveEvent::Kill,
    ensures
        event == KeepaliveEvent::Tick && connected ==> (r matches KeepaliveAction::Ping(p) && p@
            == seq![1u8, 3u8, 3u8, 7u8]),
        event == KeepaliveEvent::Tick && !connected ==> r == KeepaliveAction::Wait,
        event == KeepaliveEvent::Sent(true) ==> r == KeepaliveAction::Wait,
        event == KeepaliveEvent::Sent(false) ==> r == KeepaliveAction::Stop,
{
    match event {
        KeepaliveEvent::Tick => {
            if connected {
                let mut p: Vec<u8> = Vec::new();
                p.push(1);
                p.push(3);
                p.push(3);
                p.push(7);
                assert(p@ =~= seq![1u8, 3u8, 3u8, 7u8]);
                KeepaliveAction::Ping(p)
            } else {
                KeepaliveAction::Wait
            }
        },
        KeepaliveEvent::Sent(true) => KeepaliveAction::Wait,
        _ => KeepaliveAction::Stop,
    }
}

/// The earlier client's message listener: text messages go to the handler, messages of
/// other kinds are passed over, and a read error or the end of the stream ends it.
pub fn legacy_listener_step(item: StreamItem) -> (r: ListenerAction)
    ensures
        r == match item {
            StreamItem::Message(Some(t)) => ListenerAction::Handle(t),
            StreamItem::Message(None) => ListenerAction::Wait,
            _ => ListenerAction::Stop,
        },
{
    match item {
        StreamItem::Message(Some(t)) => ListenerAction::Handle(t),
        StreamItem::Message(None) => ListenerAction::Wait,
        _ => ListenerAction::Stop,
    }
}

/// Where the earlier client connects when asked to connect to `domain`: nowhere when it is
/// connected already (the request then succeeds without doing anything).
pub fn legacy_connect_address(link: &Link, domain: &str) -> (r: Option<String>)
    ensures
        r is None <==> link.socket_open,
        r matches Some(a) ==> a@ == "wss://"@ + domain@ + "/ws"@,
{
    if link.socket_open {
        None
    } else {
        Some(socket_address(domain))
    }
}

/// What the outcome of the earlier client's websocket handshake does: on success the sink
/// is kept; on failure nothing changes and the outcome's error is returned.
pub fn legacy_establish_step(link: &mut Link, outcome: Result<(), String>) -> (r: Result<
    (),
    WebSocketError,
>)
    ensures
        outcome is Ok ==> r is Ok && final(link).socket_open && final(link).kill_armed
            == old(link).kill_armed,
        outcome matches Err(e) ==> *final(link) == *old(link) && r == Err::<(), WebSocketError>(
            WebSocketError::ConnectionError(e),
        ),
{
    match outcome {
        Ok(()) => {
            link.socket_open = true;
            Ok(())
        },
        Err(e) => Err(WebSocketError::ConnectionError(e)),
    }
}

/// What writing a message to the earlier client's socket answers, given how it went (a
/// message is written only while the socket is open; see `message_send_plan`).
pub fn legacy_send_result(outcome: Result<(), String>) -> (r: Result<(), WebSocketError>)
    ensures
        outcome is Ok ==> r is Ok,
        outcome matches Err(e) ==> r == Err::<(), WebSocketError>(WebSocketError::SendError(e)),
{
    match outcome {
        Ok(()) => Ok(()),
        Err(e) => Err(WebSocketError::SendError(e)),
    }
}

/// What closing the earlier client's connection does once the close frame (code 1000,
/// "User disconnecting") has been written, or failed to be: on success the sink is dropped;
/// on failure nothing changes and the send error is returned. Without a socket, closing
/// does nothing (the frame is only written while the socket is open).
pub fn legacy_close_step(link: &mut Link, outcome: Result<(), String>) -> (r: Result<
    (),
    WebSocketError,
>)
    ensures
        outcome is Ok ==> r is Ok && !final(link).socket_open && final(link).kill_armed
            == old(link).kill_armed,
        outcome matches Err(e) ==> *final(link) == *old(link) && r == Err::<(), WebSocketError>(
            WebSocketError::SendError(e),
        ),
{
    match outcome {
        Ok(()) => {
            link.socket_open = false;
            Ok(())
        },
        Err(e) => Err(WebSocketError::SendError(e)),
    }
}

/// The address of an uploaded picture that the earlier client shows: the local server's
/// `uploads/` path with the name, parsed as a URL.
pub fn image_address(path: &str) -> (r: Result<String, UrlError>)
    ensures
        match r {
            Ok(u) => url_parse("http://localhost:3000/uploads/"@ + path@) == Ok::<
                Seq<char>,
                UrlError,
            >(u@),
            Err(e) => url_parse("http://localhost:3000/uploads/"@ + path@) == Err::<
                Seq<char>,
                UrlError,
            >(e),
        },
{
    let address = "http://localhost:3000/uploads/".to_owned().concat(path);
    parse_url(address.as_str())
}

/// Where the earlier client's websocket module connects when it starts: nowhere when it is
/// connected already.
pub fn local_connect_address(link: &Link) -> (r: Option<&'static str>)
    ensures
        r is None <==> link.socket_open,
        r matches Some(a) ==> a@ == "wss://localhost:7331/ws"@,
{
    if link.socket_open {
        None
    } else {
        Some(local_socket_address())
    }
}

/// What the earlier client does with a frame, once read: the event it emits to its
/// window, with the payload it gives it.
#[derive(Clone, Debug, PartialEq, Eq)]
pub enum Emission {
    /// `updateClientCount`, with the count.
    ClientCount(u32),
    /// `playImage`, with the URL, the caption, the width and the height.
    Image { remote_path: String, text: String, width: String, height: String },
    /// `playVideo`, with the URL, the caption, the width and the height.
    Video { remote_path: String, text: String, width: String, height: String },
}

/// The event that a frame is emitted as. A video's payload is built with the frame's
/// width as its height and the frame's height as its width: the payload's constructor
/// takes the height before the width, and the frame's fields are handed to it in the
/// frame's order.
pub fn emission_for(msg: WsMessage) -> (e: Emission)
    ensures
        e == emission_for_spec(msg),
        msg matches WsMessage::UpdateClientCount(c) ==> e == Emission::ClientCount(c),
        msg matches WsMessage::PlayImage(u, t, w, h) ==> e == (Emission::Image {
            remote_path: u,
            text: t,
            width: w,
            height: h,
        }),
        msg matches WsMessage::PlayVideo(u, t, w, h) ==> e == (Emission::Video {
            remote_path: u,
            text: t,
            width: h,
            height: w,
        }),
{
    match msg {
        WsMessage::UpdateClientCount(c) => Emission::ClientCount(c),
        WsMessage::PlayImage(u, t, w, h) => Emission::Image {
            remote_path: u,
            text: t,
            width: w,
            height: h,
        },
        WsMessage::PlayVideo(u, t, w, h) => Emission::Video {
            remote_path: u,
            text: t,
            width: h,
            height: w,
        },
    }
}

/// The name of the event.
pub fn event_name(e: &Emission) -> (r: &'static str)
    ensures
        r@ == match e {
            Emission::ClientCount(_) => "updateClientCount"@,
            Emission::Image { .. } => "playImage"@,
            Emission::Video { .. } => "playVideo"@,
        },
{
    match e {
        Emission::ClientCount(_) => "updateClientCount",
        Emission::Image { .. } => "playImage",
        Emission::Video { .. } => "playVideo",
    }
}

/// What the earlier client does with a text frame from the server: the event to emit, or
/// the error to log; `None` for a frame on which the reader panics.
pub fn handle_message(text: &str) -> (r: Option<Result<Emission, WebSocketError>>)
    ensures
        r is None <==> frame_panics(text@),
        r matches Some(Err(e)) ==> frame_reads_as(text@, Err(e)),
        r matches Some(Ok(e)) ==> exists|m: WsMessage|
            #[trigger] frame_reads_as(text@, Ok(m)) && e == emission_for_spec(m),
        r matches Some(Ok(Emission::ClientCount(c))) ==> split_fields(text@)[0]
            == "update_client_count"@ && u32_text_value(split_fields(text@)[1]) == Some(c),
        r matches Some(Ok(Emission::Image { remote_path: u, text: t, width: w, height: h }))
            ==> split_fields(text@)[0] == "play_image"@ && url_parse(split_fields(text@)[1]) == Ok::<
            Seq<char>,
            UrlError,
        >(u@) && t@ == split_fields(text@)[2] && w@ == split_fields(text@)[3] && h@
            == split_fields(text@)[4],
        r matches Some(Ok(Emission::Video { remote_path: u, text: t, width: w, height: h }))
            ==> split_fields(text@)[0] == "play_video"@ && url_parse(split_fields(text@)[1]) == Ok::<
            Seq<char>,
            UrlError,
        >(u@) && t@ == split_fields(text@)[2] && w@ == split_fields(text@)[4] && h@
            == split_fields(text@)[3],
{
    match WsMessage::try_from_str(text) {
        None => None,
        Some(Ok(m)) => {
            let ghost gm = m;
            let e = emission_for(m);
            assert(e == emission_for_spec(gm));
            assert(frame_reads_as(text@, Ok(gm)) && e == emission_for_spec(gm));
            Some(Ok(e))
        },
        Some(Err(e)) => Some(Err(e)),
    }
}

/// The event that a frame is emitted as (see `emission_for`).
pub open spec fn emission_for_spec(msg: WsMessage) -> Emission {
    match msg {
        WsMessage::UpdateClientCount(c) => Emission::ClientCount(c),
        WsMessage::PlayImage(u, t, w, h) => Emission::Image {
            remote_path: u,
            text: t,
            width: w,
            height: h,
        },
        WsMessage::PlayVideo(u, t, w, h) => Emission::Video {
            remote_path: u,
            text: t,
            width: h,
            height: w,
        },
    }
}

/// The frame that announces a piece of media.
pub open spec fn play_frame(
    image: bool,
    path: Seq<char>,
    text: Seq<char>,
    width: Seq<char>,
    height: Seq<char>,
) -> Seq<char> {
    (if image {
        "play_image"@
    } else {
        "play_video"@
    }) + ";"@ + path + ";"@ + text + ";"@ + width + ";"@ + height
}

/// The frame that announces a picture (`image`) or a video at `remote_path`, with its
/// caption and its width and height as written by the sender.
pub fn format_message(image: bool, remote_path: &str, text: &str, width: &str, height: &str) -> (r:
    String)
    ensures
        r@ == play_frame(image, remote_path@, text@, width@, height@),
{
    let kind = if image {
        "play_image"
    } else {
        "play_video"
    };
    kind.to_owned().concat(";").concat(remote_path).concat(";").concat(text).concat(";").concat(
        width,
    ).concat(";").concat(height)
}

pub open spec fn no_separator(s: Seq<char>) -> bool {
    forall|i: int| 0 <= i < s.len() ==> #[trigger] s[i] != ';'
}

/// A text without ';' is a single field.
pub proof fn lemma_split_single(a: Seq<char>)
    requires
        no_separator(a),
    ensures
        split_fields(a) == seq![a],
    decreases a.len(),
{
    if a.len() > 0 {
        lemma_split_single(a.drop_last());
        assert(a.drop_last().push(a.last()) =~= a);
        assert(split_fields(a) =~= seq![a]);
    } else {
        assert(a =~= Seq::<char>::empty());
    }
}

/// Joining two texts with ';' joins their fields.
pub proof fn lemma_split_join(a: Seq<char>, b: Seq<char>)
    ensures
        split_fields(a + seq![';'] + b) == split_fields(a) + split_fields(b),
    decreases b.len(),
{
    let x = a + seq![';'] + b;
    if b.len() == 0 {
        assert(x.drop_last() =~= a);
        assert(split_fields(b) =~= seq![Seq::<char>::empty()]);
        assert(split_fields(x) =~= split_fields(a) + split_fields(b));
    } else {
        lemma_split_join(a, b.drop_last());
        lemma_split_nonempty(b.drop_last());
        assert(x.drop_last() =~= a + seq![';'] + b.drop_last());
        assert(x.last() == b.last());
        assert(split_fields(x) =~= split_fields(a) + split_fields(b));
    }
}

/// A media frame reads back as what it announces: written with a URL serialization, a
/// caption and two sizes that hold no ';', and sizes that `str::parse::<f64>` accepts, it
/// does not make the reader panic, and every reading of it is the media frame of its kind with the
/// same URL, caption and sizes.
pub proof fn lemma_play_frame_reads_back(
    image: bool,
    path: Seq<char>,
    text: Seq<char>,
    width: Seq<char>,
    height: Seq<char>,
)
    requires
        no_separator(path),
        no_separator(text),
        no_separator(width),
        no_separator(height),
        is_url_text(path),
        is_float_text(width),
        is_float_text(height),
    ensures
        !frame_panics(play_frame(image, path, text, width, height)),
        frame_error(play_frame(image, path, text, width, height)) is None,
        forall|r: Result<WsMessage, WebSocketError>|
            #[trigger] frame_reads_as(play_frame(image, path, text, width, height), r) ==> match r {
                Ok(WsMessage::PlayImage(u, t, w, h)) => image && u@ == path && t@ == text && w@
                    == width && h@ == height,
                Ok(WsMessage::PlayVideo(u, t, w, h)) => !image && u@ == path && t@ == text && w@
                    == width && h@ == height,
                _ => false,
            },
{
    reveal_strlit(";");
    reveal_strlit("play_image");
    reveal_strlit("play_video");
    reveal_strlit("update_client_count");
    let kind = if image {
        "play_image"@
    } else {
        "play_video"@
    };
    assert(no_separator(kind));
    let sep = seq![';'];
    assert(";"@ =~= sep);
    let p1 = kind + sep + path;
    let p2 = p1 + sep + text;
    let p3 = p2 + sep + width;
    let frame = p3 + sep + height;
    assert(frame =~= play_frame(image, path, text, width, height));
    lemma_split_single(kind);
    lemma_split_single(path);
    lemma_split_single(text);
    lemma_split_single(width);
    lemma_split_single(height);
    lemma_split_join(kind, path);
    lemma_split_join(p1, text);
    lemma_split_join(p2, width);
    lemma_split_join(p3, height);
    let f = split_fields(frame);
    assert(f =~= seq![kind, path, text, width, height]);
    assert(kind != "update_client_count"@);
    assert("play_image"@ != "play_video"@);
}

/// The emitted payload keeps the frame's fields: a picture's caption, width and height
/// are its frame's, in that order, whatever they are; a video's caption is its frame's,
/// and its payload takes the frame's height as width and the frame's width as height (the
/// video payload's constructor takes the height first).
pub proof fn lemma_emission_keeps_fields(u: String, t: String, w: String, h: String, c: u32)
    ensures
        emission_for_spec(WsMessage::PlayImage(u, t, w, h)) == (Emission::Image {
            remote_path: u,
            text: t,
            width: w,
            height: h,
        }),
        emission_for_spec(WsMessage::PlayVideo(u, t, w, h)) == (Emission::Video {
            remote_path: u,
            text: t,
            width: h,
            height: w,
        }),
        emission_for_spec(WsMessage::UpdateClientCount(c)) == Emission::ClientCount(c),
{
}

/// The frame that announces a client count, written in decimal.
pub open spec fn count_frame(digits: Seq<char>) -> Seq<char> {
    "update_client_count"@ + ";"@ + digits
}

/// Every count frame reads back as its count: written with any decimal text whose value
/// fits in a `u32` (leading zeros allowed), it does not make the reader panic, it is not
/// refused, and every reading of it is that count.
pub proof fn lemma_count_frame_reads_back(digits: Seq<char>)
    requires
        digits.len() > 0,
        all_digits(digits),
        decimal_value(digits) <= u32::MAX,
    ensures
        !frame_panics(count_frame(digits)),
        frame_error(count_frame(digits)) is None,
        forall|r: Result<WsMessage, WebSocketError>| #[trigger]
            frame_reads_as(count_frame(digits), r) ==> r == Ok::<WsMessage, WebSocketError>(
                WsMessage::UpdateClientCount(decimal_value(digits) as u32),
            ),
{
    reveal_strlit(";");
    reveal_strlit("update_client_count");
    reveal_strlit("play_image");
    reveal_strlit("play_video");
    let kind = "update_client_count"@;
    let sep = seq![';'];
    assert(";"@ =~= sep);
    assert(count_frame(digits) =~= kind + sep + digits);
    assert(no_separator(kind));
    assert forall|i: int| 0 <= i < digits.len() implies #[trigger] digits[i] != ';' by {
        assert(is_digit(digits[i]));
    }
    lemma_split_single(kind);
    lemma_split_single(digits);
    lemma_split_join(kind, digits);
    assert(split_fields(count_frame(digits)) =~= seq![kind, digits]);
    assert(is_digit(digits[0]));
    assert(unsigned_digits(digits) == digits);
    assert(u32_text_value(digits) == Some(decimal_value(digits) as u32));
    assert(!is_media_kind(kind));
}

/// Every `u32` has a decimal text that the count frame accepts.
pub open spec fn decimal_text(n: nat) -> Seq<char>
    decreases n,
{
    if n < 10 {
        seq![(n + 48) as char]
    } else {
        decimal_text(n / 10).push(((n % 10) + 48) as char)
    }
}

/// The decimal text of a number is made of digits and denotes that number.
pub proof fn lemma_decimal_text(n: nat)
    ensures
        decimal_text(n).len() > 0,
        all_digits(decimal_text(n)),
        decimal_value(decimal_text(n)) == n,
    decreases n,
{
    if n < 10 {
        let t = decimal_text(n);
        assert(t.drop_last() =~= Seq::<char>::empty());
        assert(decimal_value(t.drop_last()) == 0);
    } else {
        lemma_decimal_text(n / 10);
        let t = decimal_text(n);
        assert(t.drop_last() =~= decimal_text(n / 10));
        assert forall|i: int| 0 <= i < t.len() implies is_digit(#[trigger] t[i]) by {
            if i < t.len() - 1 {
                assert(t[i] == decimal_text(n / 10)[i]);
            }
        }
    }
}

/// No count is refused: the frame of any `u32`'s decimal text reads as that count.
pub proof fn lemma_every_count_reads_back(n: u32)
    ensures
        !frame_panics(count_frame(decimal_text(n as nat))),
        forall|r: Result<WsMessage, WebSocketError>| #[trigger]
            frame_reads_as(count_frame(decimal_text(n as nat)), r) ==> r == Ok::<
                WsMessage,
                WebSocketError,
            >(WsMessage::UpdateClientCount(n)),
{
    lemma_decimal_text(n as nat);
    lemma_count_frame_reads_back(decimal_text(n as nat));
}

/// How frames are refused: an unknown kind as an unknown message type; a count that is
/// not a `u32` as an invalid count; a media frame whose width, then height, `f64` does not
/// accept, as an invalid width, then height.
pub proof fn lemma_frame_refusals(s: Seq<char>)
    ensures
        ({
            let f = split_fields(s);
            &&& f[0] != "update_client_count"@ && f[0] != "play_image"@ && f[0] != "play_video"@
                ==> frame_error(s) == Some("Unknown message type"@)
            &&& f[0] == "update_client_count"@ ==> (frame_error(s) is None <==> u32_text_value(
                f[1],
            ) is Some)
            &&& f[0] == "update_client_count"@ && u32_text_value(f[1]) is None ==> frame_error(s)
                == Some("Invalid client count"@)
            &&& (f[0] == "play_image"@ || f[0] == "play_video"@) && !is_float_text(f[3])
                ==> frame_error(s) == Some("Invalid width"@)
            &&& (f[0] == "play_image"@ || f[0] == "play_video"@) && is_float_text(f[3])
                && !is_float_text(f[4]) ==> frame_error(s) == Some("Invalid height"@)
            &&& (f[0] == "play_image"@ || f[0] == "play_video"@) && is_float_text(f[3])
                && is_float_text(f[4]) ==> frame_error(s) is None
        }),
{
    reveal_strlit("update_client_count");
    reveal_strlit("play_image");
    reveal_strlit("play_video");
    assert("play_image"@ != "update_client_count"@ && "play_video"@ != "update_client_count"@) by {
        assert("play_image"@.len() != "update_client_count"@.len());
        assert("play_video"@.len() != "update_client_count"@.len());
    }
}

/// A frame that lacks a field its kind needs makes the reader panic: a count frame
/// without its count, or a media frame with fewer than four fields.
pub proof fn lemma_short_frames_panic(s: Seq<char>)
    ensures
        split_fields(s)[0] == "update_client_count"@ && split_fields(s).len() < 2 ==> frame_panics(
            s,
        ),
        (split_fields(s)[0] == "play_image"@ || split_fields(s)[0] == "play_video"@)
            && split_fields(s).len() < 4 ==> frame_panics(s),
        split_fields(s)[0] != "update_client_count"@ && split_fields(s)[0] != "play_image"@
            && split_fields(s)[0] != "play_video"@ ==> !frame_panics(s),
{
    reveal_strlit("update_client_count");
    reveal_strlit("play_image");
    reveal_strlit("play_video");
    assert("play_image"@.len() != "update_client_count"@.len());
    assert("play_video"@.len() != "update_client_count"@.len());
}

} // verus!
