//! A client's connection to the relay server: setting the server, deciding whether to
//! connect, keeping the connection alive, and the steps of a disconnection.

use vstd::prelude::*;
use crate::server_state::ServerState;
use crate::messages::WsError;
use crate::urls::{derived_url, has_prefix, parse_url, url_error_text, url_parse, UrlError};

verus! {

/// What the client's connection state holds, as the decisions see it: whether the
/// websocket sink is open, and whether the channel that stops the background tasks
/// (message listener and keepalive) is armed.
#[derive(Clone, Copy, Debug, PartialEq, Eq)]
pub struct Link {
    pub socket_open: bool,
    pub kill_armed: bool,
}

impl Link {
    /// No connection: the state the client starts in.
    pub fn closed() -> (l: Link)
        ensures
            !l.socket_open,
            !l.kill_armed,
    {
        Link { socket_open: false, kill_armed: false }
    }

    /// A connection just made: the sink is kept and the tasks' stop channel is armed.
    pub fn established() -> (l: Link)
        ensures
            l.socket_open,
            l.kill_armed,
    {
        Link { socket_open: true, kill_armed: true }
    }
}

/// Why the client could not connect.
#[derive(Clone, Debug, PartialEq, Eq)]
pub enum ConnectError {
    UrlParseError(UrlError),
    ConnectionError(String),
}

impl ConnectError {
    /// The error as it is shown to the user.
    pub fn describe(&self) -> (r: String)
        ensures
            r@ == match self {
                ConnectError::UrlParseError(e) => "URL parse error: "@ + url_error_text(*e),
                ConnectError::ConnectionError(m) => "Connection error: "@ + m@,
            },
    {
        match self {
            ConnectError::UrlParseError(e) => {
                let t = e.text();
                "URL parse error: ".to_owned().concat(t.as_str())
            },
            ConnectError::ConnectionError(m) => "Connection error: ".to_owned().concat(m.as_str()),
        }
    }

    /// The error of a websocket handshake that failed.
    pub fn handshake_failed() -> (e: ConnectError)
        ensures
            e matches ConnectError::ConnectionError(m) && m@ == "Failed to connect to WebSocket"@,
    {
        ConnectError::ConnectionError("Failed to connect to WebSocket".to_owned())
    }
}

/// The text from which the client makes the server's URL.
pub open spec fn server_address(domain: Seq<char>) -> Seq<char> {
    "https://"@ + domain
}

/// Sets the client to the server at `domain`, reached over `https`.
pub fn set_server_url(state: &mut ServerState, domain: &str) -> (r: Result<(), ConnectError>)
    ensures
        r is Err <==> url_parse(server_address(domain@)) is Err,
        r is Err <==> url_parse("https://"@ + domain@) is Err,
        url_parse(server_address(domain@)) matches Err(e) ==> r == Err::<(), ConnectError>(
            ConnectError::UrlParseError(e),
        ) && final(state)@ == old(state)@,
        url_parse(server_address(domain@)) matches Ok(u) ==> final(state)@ == Some(u),
{
    let address = "https://".to_owned().concat(domain);
    assert(address@.take("https://"@.len() as int) =~= "https://"@);
    assert(has_prefix(address@, "https"@ + "://"@)) by {
        assert("https"@ + "://"@ == "https://"@) by {
            reveal_strlit("https");
            reveal_strlit("://");
            reveal_strlit("https://");
            assert("https"@ + "://"@ =~= "https://"@);
        }
    }
    match parse_url(address.as_str()) {
        Ok(u) => {
            state.set_url(Some(u));
            Ok(())
        },
        Err(e) => Err(ConnectError::UrlParseError(e)),
    }
}

/// The first half of a connection, up to the websocket handshake: sets the client to the
/// server at `domain` and answers the address of its websocket endpoint, unless the
/// client is connected already. The server is set in either case.
pub fn connect(server: &mut ServerState, link: &Link, domain: &str) -> (r: Result<
    String,
    ConnectError,
>)
    ensures
        url_parse(server_address(domain@)) matches Err(e) ==> final(server)@ == old(server)@ && r
            == Err::<String, ConnectError>(ConnectError::UrlParseError(e)),
        url_parse(server_address(domain@)) matches Ok(u) ==> {
            &&& final(server)@ == Some(u)
            &&& link.socket_open ==> (r matches Err(ConnectError::ConnectionError(m)) && m@
                == "Connection has already been set"@)
            &&& !link.socket_open ==> (r matches Ok(w) && w@ == derived_url(u, "wss"@, "ws"@))
        },
{
    match set_server_url(server, domain) {
        Ok(()) => {},
        Err(e) => {
            return Err(e);
        },
    }
    let ws = match server.ws_url() {
        Some(w) => w,
        None => {
            return Err(ConnectError::ConnectionError("WebSocket URL is not set".to_owned()));
        },
    };
    if link.socket_open {
        Err(ConnectError::ConnectionError("Connection has already been set".to_owned()))
    } else {
        Ok(ws)
    }
}

/// The second half of a connection: what the websocket handshake's outcome does to the
/// connection state. On success the sink is kept and the stop channel is armed (the
/// message listener and the keepalive task are then started, both listening on it); on
/// failure nothing changes and the connection fails.
pub fn establish_step(link: &mut Link, handshake_ok: bool) -> (r: Result<(), ConnectError>)
    ensures
        handshake_ok ==> r is Ok && final(link).socket_open && final(link).kill_armed,
        !handshake_ok ==> *final(link) == *old(link) && (r matches Err(
            ConnectError::ConnectionError(m),
        ) && m@ == "Failed to connect to WebSocket"@),
{
    if handshake_ok {
        *link = Link::established();
        Ok(())
    } else {
        Err(ConnectError::handshake_failed())
    }
}

/// Whether a message is written to the socket: only while it is open. Without a socket,
/// sending a message succeeds and does nothing.
pub fn message_send_plan(link: &Link) -> (r: bool)
    ensures
        r == link.socket_open,
{
    link.socket_open
}

/// What sending a message answers, given how writing it to the socket went.
pub fn message_send_result(outcome: Result<(), String>) -> (r: Result<(), WsError>)
    ensures
        outcome is Ok ==> r is Ok,
        outcome matches Err(e) ==> r == Err::<(), WsError>(WsError::SendError(e)),
{
    match outcome {
        Ok(()) => Ok(()),
        Err(e) => Err(WsError::SendError(e)),
    }
}

/// How often the client pings the server to keep the connection alive, in seconds.
pub fn keepalive_period_secs() -> (r: u64)
    ensures
        r == 10,
{
    10
}

/// What a keepalive task is woken by: its interval's tick, the outcome of the ping it
/// sent, or the signal to stop.
#[derive(Clone, Copy, Debug, PartialEq, Eq)]
pub enum KeepaliveEvent {
    Tick,
    Sent(bool),
    Kill,
}

/// What a keepalive task does next.
#[derive(Clone, Debug, PartialEq, Eq)]
pub enum KeepaliveAction {
    /// Send a ping with this payload.
    Ping(Vec<u8>),
    /// Wait for the next event.
    Wait,
    /// End the task.
    Stop,
}

/// The keepalive task: on a tick, an empty ping while the socket is open; on the stop
/// signal, the end. A failed ping is left out: the task panics on it (the send's result
/// is unwrapped).
pub fn keepalive_step(link: &Link, event: KeepaliveEvent) -> (r: KeepaliveAction)
    requires
        event != KeepaliveEvent::Sent(false),
    ensures
        event == KeepaliveEvent::Tick && link.socket_open ==> (r matches KeepaliveAction::Ping(p)
            && p@.len() == 0),
        event == KeepaliveEvent::Tick && !link.socket_open ==> r == KeepaliveAction::Wait,
        event == KeepaliveEvent::Sent(true) ==> r == KeepaliveAction::Wait,
        event == KeepaliveEvent::Kill ==> r == KeepaliveAction::Stop,
{
    match event {
        KeepaliveEvent::Tick => {
            if link.socket_open {
                KeepaliveAction::Ping(Vec::new())
            } else {
                KeepaliveAction::Wait
            }
        },
        KeepaliveEvent::Sent(_) => KeepaliveAction::Wait,
        KeepaliveEvent::Kill => KeepaliveAction::Stop,
    }
}

/// What the websocket's read half gave a listener: a message (its text, or `None` for a
/// message of another kind), a read error, or the end of the stream.
#[derive(Clone, Debug, PartialEq, Eq)]
pub enum StreamItem {
    Message(Option<String>),
    ReadError,
    Ended,
}

/// What the message listener task is woken by: the stream, or the signal to stop.
#[derive(Clone, Debug, PartialEq, Eq)]
pub enum ListenerEvent {
    Stream(StreamItem),
    Kill,
}

/// What a message listener does next.
#[derive(Clone, Debug, PartialEq, Eq)]
pub enum ListenerAction {
    /// Hand the text message to the message handler.
    Handle(String),
    /// Wait for the next event.
    Wait,
    /// End the task.
    Stop,
}

/// The message listener task: text messages go to the handler; messages of other kinds,
/// read errors and the end of the stream are passed over (the listener keeps polling);
/// only the stop signal ends it.
pub fn listener_step(event: ListenerEvent) -> (r: ListenerAction)
    ensures
        r == match event {
            ListenerEvent::Stream(StreamItem::Message(Some(t))) => ListenerAction::Handle(t),
            ListenerEvent::Kill => ListenerAction::Stop,
            _ => ListenerAction::Wait,
        },
{
    match event {
        ListenerEvent::Stream(StreamItem::Message(Some(t))) => ListenerAction::Handle(t),
        ListenerEvent::Kill => ListenerAction::Stop,
        _ => ListenerAction::Wait,
    }
}

/// Why a disconnection stopped; each variant holds the text of the underlying error.
#[derive(Clone, Debug, PartialEq, Eq)]
pub enum DisconnectError {
    WebSocket(String),
    KillChannel(String),
}

impl DisconnectError {
    /// The error as it is shown to the user.
    pub fn describe(&self) -> (r: String)
        ensures
            r@ == match self {
                DisconnectError::WebSocket(e) => "WebSocket send error: "@ + e@,
                DisconnectError::KillChannel(e) => "Kill channel send error: "@ + e@,
            },
    {
        match self {
            DisconnectError::WebSocket(e) => "WebSocket send error: ".to_owned().concat(e.as_str()),
            DisconnectError::KillChannel(e) => "Kill channel send error: ".to_owned().concat(
                e.as_str(),
            ),
        }
    }
}

/// The steps of a disconnection, in the order they are taken.
#[derive(Clone, Copy, Debug, PartialEq, Eq)]
pub enum DisconnectAction {
    /// Send a close frame (code 1000, "User disconnecting") and drop the sink.
    CloseSocket,
    /// Signal the background tasks to stop and drop the channel.
    StopTasks,
    /// Forget the server's URL; the disconnection is then done.
    ForgetServer,
}

/// The step a disconnection takes next.
pub open spec fn next_disconnect_action(link: Link) -> DisconnectAction {
    if link.socket_open {
        DisconnectAction::CloseSocket
    } else if link.kill_armed {
        DisconnectAction::StopTasks
    } else {
        DisconnectAction::ForgetServer
    }
}

/// The connection state after a step that succeeded.
pub open spec fn after_disconnect_action(link: Link, action: DisconnectAction) -> Link {
    match action {
        DisconnectAction::CloseSocket => Link { socket_open: false, ..link },
        DisconnectAction::StopTasks => Link { kill_armed: false, ..link },
        DisconnectAction::ForgetServer => link,
    }
}

/// The step a disconnection takes next.
pub fn disconnect_action(link: &Link) -> (a: DisconnectAction)
    ensures
        a == next_disconnect_action(*link),
        link.socket_open ==> a == DisconnectAction::CloseSocket,
        !link.socket_open && link.kill_armed ==> a == DisconnectAction::StopTasks,
        !link.socket_open && !link.kill_armed ==> a == DisconnectAction::ForgetServer,
{
    if link.socket_open {
        DisconnectAction::CloseSocket
    } else if link.kill_armed {
        DisconnectAction::StopTasks
    } else {
        DisconnectAction::ForgetServer
    }
}

/// The close code of a disconnection that the user asked for (normal closure).
pub fn close_code() -> (r: u16)
    ensures
        r == 1000,
{
    1000
}

/// The reason that the close frame of a disconnection gives.
pub fn close_reason() -> (r: &'static str)
    ensures
        r@ == "User disconnecting"@,
{
    "User disconnecting"
}

/// Records how a step of a disconnection went. A step that failed ends the disconnection
/// with its error and changes nothing; `Ok(true)` says the disconnection is done.
pub fn disconnect_step(
    link: &mut Link,
    server: &mut ServerState,
    action: DisconnectAction,
    outcome: Result<(), String>,
) -> (r: Result<bool, DisconnectError>)
    ensures
        action == DisconnectAction::ForgetServer ==> final(server)@ is None && *final(link) == *old(
            link,
        ) && r == Ok::<bool, DisconnectError>(true),
        action != DisconnectAction::ForgetServer ==> final(server)@ == old(server)@,
        action != DisconnectAction::ForgetServer && outcome is Ok ==> *final(link)
            == after_disconnect_action(*old(link), action) && r == Ok::<bool, DisconnectError>(
            false,
        ),
        action == DisconnectAction::CloseSocket ==> (outcome matches Err(e) ==> *final(link)
            == *old(link) && r == Err::<bool, DisconnectError>(DisconnectError::WebSocket(e))),
        action == DisconnectAction::StopTasks ==> (outcome matches Err(e) ==> *final(link)
            == *old(link) && r == Err::<bool, DisconnectError>(DisconnectError::KillChannel(e))),
{
    match action {
        DisconnectAction::CloseSocket => match outcome {
            Ok(()) => {
                link.socket_open = false;
                Ok(false)
            },
            Err(e) => Err(DisconnectError::WebSocket(e)),
        },
        DisconnectAction::StopTasks => match outcome {
            Ok(()) => {
                link.kill_armed = false;
                Ok(false)
            },
            Err(e) => Err(DisconnectError::KillChannel(e)),
        },
        DisconnectAction::ForgetServer => {
            server.set_url(None);
            Ok(true)
        },
    }
}

/// The connection state after `n` steps of a disconnection that all succeed.
pub open spec fn settle(link: Link, n: nat) -> Link
    decreases n,
{
    if n == 0 {
        link
    } else {
        settle(after_disconnect_action(link, next_disconnect_action(link)), (n - 1) as nat)
    }
}

/// A disconnection whose sends all succeed reaches its last step, forgetting the server,
/// within two steps from any connection state, and by then neither the socket nor the
/// background tasks are left.
pub proof fn lemma_disconnect_settles(link: Link)
    ensures
        !settle(link, 2).socket_open,
        !settle(link, 2).kill_armed,
        next_disconnect_action(settle(link, 2)) == DisconnectAction::ForgetServer,
{
    reveal_with_fuel(settle, 3);
}


/// The order of a disconnection: the socket is closed first, then the background tasks
/// are stopped, and only then is the server forgotten; a step that succeeds clears what
/// it closed and nothing else.
pub proof fn lemma_disconnect_order(link: Link)
    ensures
        link.socket_open ==> next_disconnect_action(link) == DisconnectAction::CloseSocket,
        !link.socket_open && link.kill_armed ==> next_disconnect_action(link)
            == DisconnectAction::StopTasks,
        !link.socket_open && !link.kill_armed ==> next_disconnect_action(link)
            == DisconnectAction::ForgetServer,
        after_disconnect_action(link, DisconnectAction::CloseSocket) == (Link {
            socket_open: false,
            kill_armed: link.kill_armed,
        }),
        after_disconnect_action(link, DisconnectAction::StopTasks) == (Link {
            socket_open: link.socket_open,
            kill_armed: false,
        }),
        after_disconnect_action(link, DisconnectAction::ForgetServer) == link,
{
}

/// The client reaches the server the user names over `https`.
pub proof fn lemma_server_address(domain: Seq<char>)
    ensures
        server_address(domain) == "https://"@ + domain,
{
}

} // verus!
