use friendlyfire::relay::{
    asset_path, broadcast_capacity, handle_client_connect, handle_client_disconnect,
    handle_socket_event, healthcheck, missing_asset_reply, new_upload_name, upload_path,
    upload_reply, upload_retention_secs, RelayAction, RelayEvent, RelayStep, SocketEvent,
    UploadOutcome,
};
use friendlyfire::store::{store_get_value, store_set_value, IoErrorKind, StoreError};

#[test]
fn client_counts() {
    assert_eq!(handle_client_connect(3), 3);
    assert_eq!(handle_client_disconnect(3), 2);
    assert_eq!(handle_client_disconnect(1), 0);
}

#[test]
fn texts_are_broadcast_unchanged() {
    let s = handle_socket_event(RelayEvent::Socket(SocketEvent::Text("{\"a\":1}".to_string())), 2);
    assert_eq!(
        s,
        RelayStep { action: RelayAction::Broadcast("{\"a\":1}".to_string()), stop: false }
    );
}

#[test]
fn channel_messages_are_forwarded() {
    let s = handle_socket_event(RelayEvent::Channel(Some("hello".to_string())), 1);
    assert_eq!(s, RelayStep { action: RelayAction::Forward("hello".to_string()), stop: false });
    let s = handle_socket_event(RelayEvent::Channel(None), 1);
    assert_eq!(s, RelayStep { action: RelayAction::Ignore, stop: false });
}

#[test]
fn close_and_failures_count_the_client_out() {
    let s = handle_socket_event(RelayEvent::Socket(SocketEvent::Close), 4);
    assert_eq!(s, RelayStep { action: RelayAction::AnnounceCount(3), stop: true });
    let s = handle_socket_event(RelayEvent::ForwardFailed, 4);
    assert_eq!(s, RelayStep { action: RelayAction::AnnounceCount(3), stop: true });
    let s = handle_socket_event(RelayEvent::Socket(SocketEvent::Ended), 4);
    assert_eq!(s, RelayStep { action: RelayAction::AnnounceCount(3), stop: false });
}

#[test]
fn other_frames_are_ignored() {
    for e in [SocketEvent::Binary, SocketEvent::Ping, SocketEvent::Pong] {
        let s = handle_socket_event(RelayEvent::Socket(e), 1);
        assert_eq!(s, RelayStep { action: RelayAction::Ignore, stop: false });
    }
}

#[test]
fn upload_names_are_24_alphanumerics() {
    let a = new_upload_name();
    let b = new_upload_name();
    assert_eq!(a.len(), 24);
    assert!(a.chars().all(|c| c.is_ascii_alphanumeric()));
    assert_ne!(a, b);
}

#[test]
fn uploads_are_served_where_they_are_stored() {
    let name = new_upload_name();
    let (reply, delete_after) = upload_reply(UploadOutcome::Stored, name.clone());
    assert_eq!(delete_after, Some(120));
    assert_eq!(reply.status, 200);
    assert_eq!(reply.body, name);
    assert_eq!(asset_path(&reply.body), upload_path(&name));
    assert_eq!(upload_path("abc"), "uploads/abc");
}

#[test]
fn upload_failures() {
    let (r, d) = upload_reply(UploadOutcome::CreateFailed, "n".to_string());
    assert_eq!((r.status, r.body.as_str(), d), (500, "Failed to create file", None));
    let (r, d) = upload_reply(UploadOutcome::WriteFailed, "n".to_string());
    assert_eq!((r.status, r.body.as_str(), d), (500, "Failed to write file", None));
}

#[test]
fn fixed_replies_and_settings() {
    let r = missing_asset_reply();
    assert_eq!((r.status, r.body.as_str()), (404, "File not found"));
    let r = healthcheck();
    assert_eq!((r.status, r.body.as_str()), (200, "Ok"));
    assert_eq!(upload_retention_secs(), 120);
    assert_eq!(broadcast_capacity(), 32);
}

#[test]
fn store_answers() {
    assert_eq!(store_get_value(Some(Some(5))), Ok(5));
    assert_eq!(
        store_get_value::<u8>(None),
        Err(StoreError::UnretrievableStore("Store not found".to_string()))
    );
    assert_eq!(store_set_value(true), Ok(()));
    assert_eq!(
        store_set_value(false),
        Err(StoreError::UnretrievableStore("Store not found".to_string()))
    );
}

#[test]
fn store_errors_become_io_errors() {
    let e = StoreError::NonExistentKey("volume".to_string());
    assert_eq!(e.io_error(), (IoErrorKind::NotFound, "volume".to_string()));
    let e = StoreError::UnretrievableStore("Store not found".to_string());
    assert_eq!(e.io_error(), (IoErrorKind::Other, "Store not found".to_string()));
}
