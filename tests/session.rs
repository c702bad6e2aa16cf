use fancy_mumble::client::Client;
use fancy_mumble::codec::{decode, Message, UserState};
use fancy_mumble::connection::{Connection, ConnectionError, Phase};
use fancy_mumble::tasks::{TaskEntry, TaskKind};

fn active_client() -> Client {
    let mut c = Client::new();
    assert!(c.connect_to_server(b"alice".to_vec()).is_empty());
    c.transport_ready().unwrap();
    c.handshake_reply(&Message::ServerSync { session: 42 }).unwrap();
    c
}

#[test]
fn scenario_connect_then_shutdown() {
    let mut c = Client::new();
    assert!(c.connect_to_server(b"alice".to_vec()).is_empty());
    assert_eq!(c.phase(), Some(Phase::Connecting));
    assert_eq!(c.transport_ready(), Ok(()));
    assert_eq!(c.phase(), Some(Phase::Authenticating));
    let out = c.take_outbound();
    assert_eq!(out.len(), 1);
    assert_eq!(decode(&out[0]), Ok(Message::Authenticate { username: b"alice".to_vec() }));
    assert_eq!(c.handshake_reply(&Message::ServerSync { session: 42 }), Ok(()));
    assert_eq!(c.phase(), Some(Phase::Active));
    assert_eq!(c.register_task(TaskKind::Keepalive, 2), Ok(()));
    assert_eq!(c.register_task(TaskKind::Dispatcher, 1), Ok(()));
    assert_eq!(c.register_task(TaskKind::Keepalive, 3), Err(ConnectionError::DuplicateTask));
    let order = c.logout().unwrap();
    assert_eq!(
        order,
        vec![
            TaskEntry { kind: TaskKind::Dispatcher, handle: 1 },
            TaskEntry { kind: TaskKind::Keepalive, handle: 2 },
        ]
    );
    assert_eq!(c.phase(), Some(Phase::ShuttingDown));
    assert!(c.tasks_empty());
    assert_eq!(c.finish_logout(), Ok(()));
    assert_eq!(c.phase(), None);
}

#[test]
fn scenario_rejected_then_good_connect() {
    let mut c = Client::new();
    assert!(c.connect_to_server(b"mallory".to_vec()).is_empty());
    c.transport_ready().unwrap();
    assert_eq!(c.handshake_reply(&Message::Reject { reason: 1 }), Err(ConnectionError::AuthError));
    assert_eq!(c.phase(), None);
    assert!(c.connect_to_server(b"alice".to_vec()).is_empty());
    c.transport_ready().unwrap();
    assert_eq!(c.handshake_reply(&Message::ServerSync { session: 5 }), Ok(()));
    assert_eq!(c.phase(), Some(Phase::Active));
}

#[test]
fn transport_failure_reports_and_uninstalls() {
    let mut c = Client::new();
    assert!(c.connect_to_server(b"alice".to_vec()).is_empty());
    assert_eq!(c.transport_failed(), Err(ConnectionError::TransportError));
    assert_eq!(c.phase(), None);
}

#[test]
fn operations_without_session_are_not_connected() {
    let mut c = Client::new();
    assert_eq!(c.send_message(b"hi".to_vec(), Some(1), None), Err(ConnectionError::NotConnected));
    assert_eq!(c.join_channel(3), Err(ConnectionError::NotConnected));
    assert!(c.logout().is_err());
    assert_eq!(c.finish_logout(), Err(ConnectionError::NotConnected));
    assert!(c.connect_to_server(b"alice".to_vec()).is_empty());
    assert_eq!(c.send_message(b"hi".to_vec(), Some(1), None), Err(ConnectionError::NotConnected));
    assert!(matches!(c.logout(), Err(ConnectionError::NotConnected)));
}

#[test]
fn second_connect_shuts_down_the_first() {
    let mut c = active_client();
    c.register_task(TaskKind::Keepalive, 2).unwrap();
    c.register_task(TaskKind::Reader, 1).unwrap();
    let stop_first = c.connect_to_server(b"bob".to_vec());
    assert_eq!(
        stop_first,
        vec![
            TaskEntry { kind: TaskKind::Reader, handle: 1 },
            TaskEntry { kind: TaskKind::Keepalive, handle: 2 },
        ]
    );
    assert_eq!(c.phase(), Some(Phase::Connecting));
    assert!(c.tasks_empty());
    assert!(c.take_outbound().is_empty());
    c.transport_ready().unwrap();
    let out = c.take_outbound();
    assert_eq!(decode(&out[0]), Ok(Message::Authenticate { username: b"bob".to_vec() }));
}

#[test]
fn connect_over_a_pending_connection_replaces_it() {
    let mut c = Client::new();
    assert!(c.connect_to_server(b"alice".to_vec()).is_empty());
    assert!(c.connect_to_server(b"bob".to_vec()).is_empty());
    assert_eq!(c.phase(), Some(Phase::Connecting));
}

#[test]
fn sends_are_queued_in_order() {
    let mut c = active_client();
    c.take_outbound();
    c.send_message(b"hi".to_vec(), Some(1), None).unwrap();
    c.join_channel(7).unwrap();
    c.change_user_state(UserState {
        session: 999,
        name: None,
        channel_id: None,
        muted: Some(true),
        deafened: None,
    })
    .unwrap();
    let out = c.take_outbound();
    assert_eq!(out.len(), 3);
    assert_eq!(
        decode(&out[0]),
        Ok(Message::TextMessage { channel_id: Some(1), receiver: None, text: b"hi".to_vec() })
    );
    assert_eq!(
        decode(&out[1]),
        Ok(Message::UserState(UserState {
            session: 42,
            name: None,
            channel_id: Some(7),
            muted: None,
            deafened: None,
        }))
    );
    assert_eq!(
        decode(&out[2]),
        Ok(Message::UserState(UserState {
            session: 42,
            name: None,
            channel_id: None,
            muted: Some(true),
            deafened: None,
        }))
    );
    assert!(c.take_outbound().is_empty());
}

#[test]
fn connection_phases_directly() {
    let mut k = Connection::new(b"u".to_vec());
    assert_eq!(k.phase(), Phase::Idle);
    assert!(!k.is_running());
    assert_eq!(k.transport_ready(), Err(ConnectionError::InvalidPhase));
    assert_eq!(k.start_connect(), Ok(()));
    assert_eq!(k.start_connect(), Err(ConnectionError::InvalidPhase));
    k.transport_ready().unwrap();
    assert_eq!(k.handshake_reply(&Message::UserRemove { session: 1 }), Ok(()));
    assert_eq!(k.phase(), Phase::Authenticating);
    k.handshake_reply(&Message::ServerSync { session: 8 }).unwrap();
    assert!(k.is_running());
    assert_eq!(k.session(), Some(8));
    assert_eq!(k.finish_shutdown(), Err(ConnectionError::InvalidPhase));
    k.begin_shutdown().unwrap();
    assert!(!k.is_running());
    assert_eq!(k.register_task(TaskKind::Reader, 1), Err(ConnectionError::NotConnected));
    assert_eq!(k.finish_shutdown(), Ok(()));
    assert_eq!(k.phase(), Phase::Closed);
    assert!(k.tasks_empty());
}

#[test]
fn like_is_queued_only_when_active() {
    let mut c = Client::new();
    assert_eq!(c.like_message(b"m1".to_vec()), Err(ConnectionError::NotConnected));
    let mut c = active_client();
    c.take_outbound();
    assert_eq!(c.like_message(b"m1".to_vec()), Ok(()));
    let out = c.take_outbound();
    assert_eq!(out.len(), 1);
    assert_eq!(decode(&out[0]), Ok(Message::Like { message_id: b"m1".to_vec() }));
}

#[test]
fn user_image_is_queued_only_when_active() {
    let mut c = Client::new();
    assert_eq!(
        c.set_user_image(vec![1, 2, 3], b"image/png".to_vec()),
        Err(ConnectionError::NotConnected)
    );
    let mut c = active_client();
    c.take_outbound();
    assert_eq!(c.set_user_image(vec![1, 2, 3], b"image/png".to_vec()), Ok(()));
    let out = c.take_outbound();
    assert_eq!(out.len(), 1);
    assert_eq!(
        decode(&out[0]),
        Ok(Message::UserImage { mime: b"image/png".to_vec(), image: vec![1, 2, 3] })
    );
}

#[test]
fn close_from_any_phase() {
    let mut k = Connection::new(b"u".to_vec());
    k.start_connect().unwrap();
    k.transport_ready().unwrap();
    k.handshake_reply(&Message::ServerSync { session: 8 }).unwrap();
    k.register_task(TaskKind::Writer, 9).unwrap();
    assert_eq!(k.close(), vec![TaskEntry { kind: TaskKind::Writer, handle: 9 }]);
    assert_eq!(k.phase(), Phase::Closed);
    assert!(!k.is_running());
    assert!(k.tasks_empty());
}
