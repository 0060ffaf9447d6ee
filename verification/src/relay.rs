//! The relay server: what it does with each thing that happens on a client's websocket
//! session, how it counts clients, and how it names, stores and serves uploads.

use vstd::prelude::*;

verus! {

/// What a client's socket gave the server.
#[derive(Clone, Debug, PartialEq, Eq)]
pub enum SocketEvent {
    Text(String),
    Binary,
    Ping,
    Pong,
    Close,
    /// The stream ended or failed to read.
    Ended,
}

/// What happened on a session: something from the client's socket, something from the
/// server's broadcast channel (`None` when the channel lagged or closed), or a failure to
/// forward a broadcast message to the client.
#[derive(Clone, Debug, PartialEq, Eq)]
pub enum RelayEvent {
    Socket(SocketEvent),
    Channel(Option<String>),
    ForwardFailed,
}

/// What the server does in answer.
#[derive(Clone, Debug, PartialEq, Eq)]
pub enum RelayAction {
    /// Send the text to every session, this one included, over the broadcast channel.
    Broadcast(String),
    /// Send the text to this session's client.
    Forward(String),
    /// Broadcast a client count message with this count.
    AnnounceCount(u64),
    Ignore,
}

/// An action, and whether the session then ends.
#[derive(Clone, Debug, PartialEq, Eq)]
pub struct RelayStep {
    pub action: RelayAction,
    pub stop: bool,
}

/// The number of clients announced when one joins: every subscriber of the broadcast
/// channel, the new one included.
pub fn handle_client_connect(receivers: usize) -> (count: u64)
    ensures
        count == receivers,
{
    receivers as u64
}

/// The number of clients announced when one leaves: the subscribers but the leaving one,
/// whose subscription is still alive when the count is taken.
pub fn handle_client_disconnect(receivers: usize) -> (count: u64)
    requires
        receivers >= 1,
    ensures
        count == receivers - 1,
{
    (receivers - 1) as u64
}

/// The answer to one event of a session, `receivers` being the number of subscribers of
/// the broadcast channel (this session's among them).
pub open spec fn relay_answer(event: RelayEvent, receivers: nat) -> RelayStep {
    match event {
        RelayEvent::Socket(SocketEvent::Text(t)) => RelayStep {
            action: RelayAction::Broadcast(t),
            stop: false,
        },
        RelayEvent::Socket(SocketEvent::Close) => RelayStep {
            action: RelayAction::AnnounceCount((receivers - 1) as u64),
            stop: true,
        },
        RelayEvent::Socket(SocketEvent::Ended) => RelayStep {
            action: RelayAction::AnnounceCount((receivers - 1) as u64),
            stop: false,
        },
        RelayEvent::Socket(_) => RelayStep { action: RelayAction::Ignore, stop: false },
        RelayEvent::Channel(Some(t)) => RelayStep { action: RelayAction::Forward(t), stop: false },
        RelayEvent::Channel(None) => RelayStep { action: RelayAction::Ignore, stop: false },
        RelayEvent::ForwardFailed => RelayStep {
            action: RelayAction::AnnounceCount((receivers - 1) as u64),
            stop: true,
        },
    }
}

/// The answer to one event of a session: a client's text goes to every session, a
/// broadcast text goes to the client, and a client that closes, whose stream ends, or who
/// cannot be written to is counted out; the session ends on a close or a failed write.
pub fn handle_socket_event(event: RelayEvent, receivers: usize) -> (s: RelayStep)
    requires
        receivers >= 1,
    ensures
        s == relay_answer(event, receivers as nat),
        event matches RelayEvent::Socket(SocketEvent::Text(t)) ==> s == (RelayStep {
            action: RelayAction::Broadcast(t),
            stop: false,
        }),
        event == RelayEvent::Socket(SocketEvent::Close) ==> s == (RelayStep {
            action: RelayAction::AnnounceCount((receivers - 1) as u64),
            stop: true,
        }),
        event == RelayEvent::Socket(SocketEvent::Ended) ==> s == (RelayStep {
            action: RelayAction::AnnounceCount((receivers - 1) as u64),
            stop: false,
        }),
        event == RelayEvent::ForwardFailed ==> s == (RelayStep {
            action: RelayAction::AnnounceCount((receivers - 1) as u64),
            stop: true,
        }),
        event matches RelayEvent::Channel(Some(t)) ==> s == (RelayStep {
            action: RelayAction::Forward(t),
            stop: false,
        }),
        s.stop <==> (event == RelayEvent::Socket(SocketEvent::Close) || event
            == RelayEvent::ForwardFailed),
{
    match event {
        RelayEvent::Socket(SocketEvent::Text(t)) => RelayStep {
            action: RelayAction::Broadcast(t),
            stop: false,
        },
        RelayEvent::Socket(SocketEvent::Close) => RelayStep {
            action: RelayAction::AnnounceCount(handle_client_disconnect(receivers)),
            stop: true,
        },
        RelayEvent::Socket(SocketEvent::Ended) => RelayStep {
            action: RelayAction::AnnounceCount(handle_client_disconnect(receivers)),
            stop: false,
        },
        RelayEvent::Socket(_) => RelayStep { action: RelayAction::Ignore, stop: false },
        RelayEvent::Channel(Some(t)) => RelayStep { action: RelayAction::Forward(t), stop: false },
        RelayEvent::Channel(None) => RelayStep { action: RelayAction::Ignore, stop: false },
        RelayEvent::ForwardFailed => RelayStep {
            action: RelayAction::AnnounceCount(handle_client_disconnect(receivers)),
            stop: true,
        },
    }
}

/// How many messages the broadcast channel holds for a subscriber that lags.
pub fn broadcast_capacity() -> (r: usize)
    ensures
        r == 32,
{
    32
}

/// An ASCII letter or digit.
pub open spec fn is_ascii_alphanumeric(c: char) -> bool {
    ('a' <= c && c <= 'z') || ('A' <= c && c <= 'Z') || ('0' <= c && c <= '9')
}

/// Calls `rand::distributions::Alphanumeric.sample_string` with the thread's generator.
/// Claims what holds of every outcome, as rand's source shows it: `len` characters, each
/// drawn from `A-Z`, `a-z` and `0-9`. Which ones is left to chance.
#[verifier::external_body]
fn random_alphanumeric(len: usize) -> (r: String)
    ensures
        r@.len() == len,
        forall|i: int| 0 <= i < r@.len() ==> is_ascii_alphanumeric(#[trigger] r@[i]),
{
    rand::distributions::DistString::sample_string(
        &rand::distributions::Alphanumeric,
        &mut rand::thread_rng(),
        len,
    )
}

/// A fresh name for an uploaded file: 24 random ASCII letters and digits.
pub fn new_upload_name() -> (name: String)
    ensures
        name@.len() == 24,
        forall|i: int| 0 <= i < name@.len() ==> is_ascii_alphanumeric(#[trigger] name@[i]),
{
    random_alphanumeric(24)
}

/// Where the server keeps the file of the given name.
pub open spec fn stored_path(name: Seq<char>) -> Seq<char> {
    "uploads/"@ + name
}

/// Where an upload under the given name is written.
pub fn upload_path(name: &str) -> (r: String)
    ensures
        r@ == stored_path(name@),
        r@ == "uploads/"@ + name@,
{
    "uploads/".to_owned().concat(name)
}

/// Where the file asked for as `/uploads/{asset}` is read from.
pub fn asset_path(asset: &str) -> (r: String)
    ensures
        r@ == stored_path(asset@),
        r@ == "uploads/"@ + asset@,
{
    "uploads/".to_owned().concat(asset)
}

/// An HTTP answer: a status code and a text body.
#[derive(Clone, Debug, PartialEq, Eq)]
pub struct Reply {
    pub status: u16,
    pub body: String,
}

/// How storing an upload went.
#[derive(Clone, Copy, Debug, PartialEq, Eq)]
pub enum UploadOutcome {
    Stored,
    CreateFailed,
    WriteFailed,
}

/// The answer to an upload stored under `name`: the name itself when the file was
/// written, else a 500 that says which step failed. With it comes the delay, in seconds,
/// after which the stored file is deleted: only a stored file is scheduled for deletion.
pub fn upload_reply(outcome: UploadOutcome, name: String) -> (r: (Reply, Option<u64>))
    ensures
        outcome == UploadOutcome::Stored ==> r.0.status == 200 && r.0.body == name && r.1 == Some(
            120u64,
        ),
        outcome == UploadOutcome::CreateFailed ==> r.0.status == 500 && r.0.body@
            == "Failed to create file"@ && r.1 is None,
        outcome == UploadOutcome::WriteFailed ==> r.0.status == 500 && r.0.body@
            == "Failed to write file"@ && r.1 is None,
{
    match outcome {
        UploadOutcome::Stored => (Reply { status: 200, body: name }, Some(upload_retention_secs())),
        UploadOutcome::CreateFailed => (
            Reply { status: 500, body: "Failed to create file".to_owned() },
            None,
        ),
        UploadOutcome::WriteFailed => (
            Reply { status: 500, body: "Failed to write file".to_owned() },
            None,
        ),
    }
}

/// How long an uploaded file is kept before it is deleted, in seconds.
pub fn upload_retention_secs() -> (r: u64)
    ensures
        r == 120,
{
    120
}

/// The answer to a request for an asset that cannot be opened.
pub fn missing_asset_reply() -> (r: Reply)
    ensures
        r.status == 404,
        r.body@ == "File not found"@,
{
    Reply { status: 404, body: "File not found".to_owned() }
}

/// The answer to `/healthcheck`.
pub fn healthcheck() -> (r: Reply)
    ensures
        r.status == 200,
        r.body@ == "Ok"@,
{
    Reply { status: 200, body: "Ok".to_owned() }
}

/// A client that leaves is counted out: on a close, an end of its stream or a failed
/// write, the count announced is the number of subscribers but this session's, whatever
/// that number; and only a close or a failed write ends the session.
pub proof fn lemma_leaving_client_counted_out(receivers: nat)
    requires
        receivers >= 1,
    ensures
        relay_answer(RelayEvent::Socket(SocketEvent::Close), receivers) == (RelayStep {
            action: RelayAction::AnnounceCount((receivers - 1) as u64),
            stop: true,
        }),
        relay_answer(RelayEvent::Socket(SocketEvent::Ended), receivers) == (RelayStep {
            action: RelayAction::AnnounceCount((receivers - 1) as u64),
            stop: false,
        }),
        relay_answer(RelayEvent::ForwardFailed, receivers) == (RelayStep {
            action: RelayAction::AnnounceCount((receivers - 1) as u64),
            stop: true,
        }),
{
}

/// What a client sends is relayed unchanged to every session, and what the channel
/// carries is forwarded unchanged to the client, whatever the text and the number of
/// subscribers; neither ends the session.
pub proof fn lemma_texts_relayed_unchanged(t: String, receivers: nat)
    ensures
        relay_answer(RelayEvent::Socket(SocketEvent::Text(t)), receivers) == (RelayStep {
            action: RelayAction::Broadcast(t),
            stop: false,
        }),
        relay_answer(RelayEvent::Channel(Some(t)), receivers) == (RelayStep {
            action: RelayAction::Forward(t),
            stop: false,
        }),
{
}

/// Every upload is written to, and every asset is read from, `uploads/` followed by the
/// name: so the file an upload stored under a name is the one asked for by that name.
pub proof fn lemma_uploads_directory(name: Seq<char>)
    ensures
        stored_path(name) == "uploads/"@ + name,
        stored_path(name).len() == "uploads/"@.len() + name.len(),
        stored_path(name).skip("uploads/"@.len() as int) == name,
{
    assert(("uploads/"@ + name).skip("uploads/"@.len() as int) =~= name);
}

/// Binary, ping and pong frames from a client, and a lag or close of the channel, change
/// nothing and do not end the session.
pub proof fn lemma_other_events_ignored(receivers: nat)
    ensures
        relay_answer(RelayEvent::Socket(SocketEvent::Binary), receivers) == (RelayStep {
            action: RelayAction::Ignore,
            stop: false,
        }),
        relay_answer(RelayEvent::Socket(SocketEvent::Ping), receivers) == (RelayStep {
            action: RelayAction::Ignore,
            stop: false,
        }),
        relay_answer(RelayEvent::Socket(SocketEvent::Pong), receivers) == (RelayStep {
            action: RelayAction::Ignore,
            stop: false,
        }),
        relay_answer(RelayEvent::Channel(None), receivers) == (RelayStep {
            action: RelayAction::Ignore,
            stop: false,
        }),
{
}

/// An upload name holds neither '/' nor '.', so the path made of it names a file directly
/// inside `uploads/`.
pub proof fn lemma_upload_names_stay_inside(name: Seq<char>)
    requires
        forall|i: int| 0 <= i < name.len() ==> is_ascii_alphanumeric(#[trigger] name[i]),
    ensures
        forall|i: int| 0 <= i < name.len() ==> #[trigger] name[i] != '/' && name[i] != '.',
{
}

} // verus!
