//! Logic of the friendlyfire media-sharing service: the relay server's session
//! decisions, the clients' server URLs, connection and disconnection steps, media
//! announcements, and the text protocol of the earlier client.

pub mod numbers;
pub mod urls;
pub mod server_state;
pub mod messages;
pub mod connection;
pub mod media;
pub mod relay;
pub mod frames;
pub mod store;
