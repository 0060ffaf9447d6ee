//! Sending a piece of media: how the file is encoded, where it is uploaded, and the
//! message that announces it to the other clients.

use vstd::prelude::*;
use crate::messages::{MediaMessage, User, WsError, WsMessage};
use crate::server_state::{derived_from, ServerState};

verus! {

/// Why a piece of media could not be sent. `Webp` holds the encoder's message; the other
/// variants that come from an underlying error hold that error's text as the message
/// shows it (for `Tungstenite`, the error's debug form).
#[derive(Clone, Debug, PartialEq, Eq)]
pub enum SendError {
    Io(String),
    Reqwest(String),
    Serde(String),
    Image(String),
    Webp(String),
    Tungstenite(String),
    SendingError(WsError),
    RemoteMediaNone,
    UrlNone,
}

/// What `str`'s `Debug` shows of a text: the text in double quotes, with its characters
/// escaped as `char::escape_debug` does.
pub uninterp spec fn debug_quoted(text: Seq<char>) -> Seq<char>;

/// A character that `str`'s `Debug` shows as it is: printable ASCII other than the
/// backslash and the double quote. (`str`'s `Debug` also shows the single quote as it is;
/// it is left out here only because the claim below does not need it.)
pub open spec fn shown_as_is(c: char) -> bool {
    ' ' <= c && c <= '~' && c != '"' && c != '\\' && c != '\''
}

/// Calls `str`'s `Debug` (through `format!("{:?}")`). Claims, besides the name, what the
/// documentation of `char::escape_debug` says of printable ASCII: a text made only of
/// such characters, other than the backslash and the quotes, is shown as it is, between
/// double quotes.
#[verifier::external_body]
fn debug_text(text: &str) -> (r: String)
    ensures
        r@ == debug_quoted(text@),
        (forall|i: int| 0 <= i < text@.len() ==> shown_as_is(#[trigger] text@[i])) ==> r@ == "\""@
            + text@ + "\""@,
{
    format!("{:?}", text)
}

impl SendError {
    /// The error as it is shown to the user.
    pub fn describe(&self) -> (r: String)
        ensures
            r@ == match self {
                SendError::Io(e) => "IO error: "@ + e@,
                SendError::Reqwest(e) => "Reqwest error: "@ + e@,
                SendError::Serde(e) => "Serde error: "@ + e@,
                SendError::Image(e) => "Image error: "@ + e@,
                SendError::Webp(e) => "WebP encoding error: "@ + debug_quoted(e@),
                SendError::Tungstenite(e) => "Tungstenite error: "@ + e@,
                SendError::SendingError(WsError::SerializationError(e)) =>
                    "Could not serialize WebSocket message: "@ + e@,
                SendError::SendingError(WsError::SendError(e)) => "Unable to send message: "@ + e@,
                SendError::RemoteMediaNone => "No remote media url"@,
                SendError::UrlNone => "No URL"@,
            },
        self matches SendError::Webp(e) ==> ((forall|i: int|
            0 <= i < e@.len() ==> shown_as_is(#[trigger] e@[i])) ==> r@ == "WebP encoding error: "@
            + ("\""@ + e@ + "\""@)),
    {
        match self {
            SendError::Io(e) => "IO error: ".to_owned().concat(e.as_str()),
            SendError::Reqwest(e) => "Reqwest error: ".to_owned().concat(e.as_str()),
            SendError::Serde(e) => "Serde error: ".to_owned().concat(e.as_str()),
            SendError::Image(e) => "Image error: ".to_owned().concat(e.as_str()),
            SendError::Webp(e) => {
                let quoted = debug_text(e.as_str());
                "WebP encoding error: ".to_owned().concat(quoted.as_str())
            },
            SendError::Tungstenite(e) => "Tungstenite error: ".to_owned().concat(e.as_str()),
            SendError::SendingError(e) => e.describe(),
            SendError::RemoteMediaNone => "No remote media url".to_owned(),
            SendError::UrlNone => "No URL".to_owned(),
        }
    }
}

/// The format that the image reader guessed for a file.
#[derive(Clone, Copy, Debug, PartialEq, Eq)]
pub enum ImageFormat {
    Gif,
    Other,
}

/// How a file is sent: as it is, or decoded and encoded again as WebP.
#[derive(Clone, Copy, Debug, PartialEq, Eq)]
pub enum Encoding {
    AsIs,
    Webp,
}

/// How a file of the guessed format is sent: a GIF as it is (so that it stays animated),
/// any other image as WebP. A file whose format could not be guessed is refused with the
/// image error `unsupported` (the text of the image crate's "unsupported format" error for
/// the file's path, which only that crate can render); the refusal comes before anything
/// is uploaded or sent.
pub fn choose_encoding(format: Option<ImageFormat>, unsupported: String) -> (r: Result<
    Encoding,
    SendError,
>)
    ensures
        r == match format {
            Some(ImageFormat::Gif) => Ok(Encoding::AsIs),
            Some(ImageFormat::Other) => Ok(Encoding::Webp),
            None => Err::<Encoding, SendError>(SendError::Image(unsupported)),
        },
{
    match format {
        Some(ImageFormat::Gif) => Ok(Encoding::AsIs),
        Some(ImageFormat::Other) => Ok(Encoding::Webp),
        None => Err(SendError::Image(unsupported)),
    }
}

/// Where the encoded file is uploaded: the server's upload endpoint, or `UrlNone` when
/// the client is set to no server.
pub fn upload_target(state: &ServerState) -> (r: Result<String, SendError>)
    ensures
        r is Ok <==> state@ is Some,
        state@ is None ==> r == Err::<String, SendError>(SendError::UrlNone),
        r matches Ok(u) ==> Some(u@) == derived_from(state@, "https"@, "upload"@),
{
    match state.upload_url() {
        Some(u) => Ok(u),
        None => Err(SendError::UrlNone),
    }
}

/// The message that announces an uploaded file, given the name under which the server
/// stored it; `RemoteMediaNone` when the client is set to no server.
pub fn media_announcement(
    state: &ServerState,
    remote_path: String,
    top_message: String,
    bottom_message: String,
    sender: User,
    timeout: u64,
) -> (r: Result<WsMessage, SendError>)
    ensures
        r is Ok <==> state@ is Some,
        state@ is None ==> r == Err::<WsMessage, SendError>(SendError::RemoteMediaNone),
        r matches Ok(m) ==> (m matches WsMessage::Media(media) && Some(media.media_url@)
            == derived_from(state@, "https"@, "uploads/"@ + remote_path@) && media.top_message
            == top_message && media.bottom_message == bottom_message && media.sender == sender
            && media.timeout == timeout),
{
    let url = state.remote_media(remote_path);
    match url {
        Some(media_url) => Ok(
            WsMessage::Media(
                MediaMessage { media_url, top_message, bottom_message, sender, timeout },
            ),
        ),
        None => Err(SendError::RemoteMediaNone),
    }
}

} // verus!
