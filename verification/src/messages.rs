//! The JSON messages that the clients and the relay server exchange over the websocket,
//! as values; their JSON form is what serde makes of the same fields.

use vstd::prelude::*;

verus! {

/// Who sent a piece of media.
#[derive(Clone, Debug, PartialEq, Eq)]
pub struct User {
    pub username: String,
}

/// How many clients the relay server counts.
#[derive(Clone, Debug, PartialEq, Eq)]
pub struct ClientCountMessage {
    pub client_count: u64,
}

/// A piece of media to show on every client: where it is served, the captions above and
/// below it, who sent it, and for how many milliseconds to show it.
#[derive(Clone, Debug, PartialEq, Eq)]
pub struct MediaMessage {
    pub media_url: String,
    pub top_message: String,
    pub bottom_message: String,
    pub sender: User,
    pub timeout: u64,
}

/// A message on the websocket.
#[derive(Clone, Debug, PartialEq, Eq)]
pub enum WsMessage {
    Media(MediaMessage),
    ClientCount(ClientCountMessage),
}

/// Why a message could not be sent; each variant holds the text of the underlying error.
#[derive(Clone, Debug, PartialEq, Eq)]
pub enum WsError {
    SerializationError(String),
    SendError(String),
}

impl WsError {
    /// The error as it is shown to the user.
    pub fn describe(&self) -> (r: String)
        ensures
            r@ == match self {
                WsError::SerializationError(e) => "Could not serialize WebSocket message: "@ + e@,
                WsError::SendError(e) => "Unable to send message: "@ + e@,
            },
    {
        match self {
            WsError::SerializationError(e) => "Could not serialize WebSocket message: ".to_owned().concat(
                e.as_str(),
            ),
            WsError::SendError(e) => "Unable to send message: ".to_owned().concat(e.as_str()),
        }
    }
}

/// The window in which the client shows what arrives.
pub fn player_window() -> (r: &'static str)
    ensures
        r@ == "player"@,
{
    "player"
}

/// The event under which an incoming message is handed to the player window.
pub open spec fn player_event_name(msg: WsMessage) -> Seq<char> {
    match msg {
        WsMessage::Media(_) => "ff://media_play"@,
        WsMessage::ClientCount(_) => "ff://client_count"@,
    }
}

/// The event under which an incoming message is handed to the player window.
pub fn player_event(msg: &WsMessage) -> (r: &'static str)
    ensures
        r@ == player_event_name(*msg),
        msg is ClientCount ==> r@ == "ff://client_count"@,
        msg is Media ==> r@ == "ff://media_play"@,
{
    match msg {
        WsMessage::Media(_) => "ff://media_play",
        WsMessage::ClientCount(_) => "ff://client_count",
    }
}

/// The event under which a message reaches the player depends only on its kind: every
/// client count, whatever the count, is `ff://client_count`, and every piece of media,
/// whatever it holds, is `ff://media_play`.
pub proof fn lemma_event_by_kind(count: ClientCountMessage, media: MediaMessage)
    ensures
        player_event_name(WsMessage::ClientCount(count)) == "ff://client_count"@,
        player_event_name(WsMessage::Media(media)) == "ff://media_play"@,
{
}

} // verus!
