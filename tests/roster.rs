use fancy_mumble::codec::{encode, Message, UserState};
use fancy_mumble::dispatch::{dispatch_all, dispatch_frame};
use fancy_mumble::roster::{update_if_some, Roster};

fn patch(session: u32) -> UserState {
    UserState { session, name: None, channel_id: None, muted: None, deafened: None }
}

#[test]
fn update_if_some_overwrites_only_present() {
    let mut v = 1u32;
    update_if_some(&mut v, None);
    assert_eq!(v, 1);
    update_if_some(&mut v, Some(5));
    assert_eq!(v, 5);
}

#[test]
fn new_id_gets_exactly_the_patch() {
    let mut r = Roster::new();
    r.apply_user_state(UserState { name: Some(b"a".to_vec()), ..patch(7) });
    assert_eq!(r.get(7), Some(UserState { name: Some(b"a".to_vec()), ..patch(7) }));
    assert_eq!(r.get(8), None);
}

#[test]
fn second_patch_keeps_unspecified_fields() {
    let mut r = Roster::new();
    r.apply_user_state(UserState { name: Some(b"a".to_vec()), channel_id: Some(2), ..patch(7) });
    r.apply_user_state(UserState { channel_id: Some(5), muted: Some(false), ..patch(7) });
    assert_eq!(
        r.get(7),
        Some(UserState {
            session: 7,
            name: Some(b"a".to_vec()),
            channel_id: Some(5),
            muted: Some(false),
            deafened: None,
        })
    );
}

#[test]
fn removal_makes_lookup_absent() {
    let mut r = Roster::new();
    r.apply_user_state(UserState { name: Some(b"a".to_vec()), ..patch(7) });
    r.apply_user_state(patch(8));
    r.remove_user(7);
    assert_eq!(r.get(7), None);
    assert_eq!(r.get(8), Some(patch(8)));
    r.remove_user(100);
    assert_eq!(r.get(8), Some(patch(8)));
}

#[test]
fn two_user_state_frames_merge() {
    let mut r = Roster::new();
    let frames = vec![
        encode(&Message::UserState(UserState { name: Some(b"a".to_vec()), ..patch(42) })),
        encode(&Message::UserState(UserState { muted: Some(true), ..patch(42) })),
    ];
    let delivered = dispatch_all(&mut r, &frames);
    assert_eq!(delivered.len(), 2);
    assert_eq!(
        r.get(42),
        Some(UserState {
            session: 42,
            name: Some(b"a".to_vec()),
            channel_id: None,
            muted: Some(true),
            deafened: None,
        })
    );
}

#[test]
fn unknown_frame_between_valid_frames() {
    let mut r = Roster::new();
    let first = Message::UserState(UserState { name: Some(b"a".to_vec()), ..patch(42) });
    let second = Message::TextMessage { channel_id: Some(1), receiver: None, text: b"hi".to_vec() };
    let frames = vec![encode(&first), vec![77, 0, 1, 0, 0, 0, 0], encode(&second)];
    let delivered = dispatch_all(&mut r, &frames);
    assert_eq!(delivered, vec![first, second]);
    assert_eq!(r.get(42), Some(UserState { name: Some(b"a".to_vec()), ..patch(42) }));
}

#[test]
fn bad_frame_leaves_roster_unchanged() {
    let mut r = Roster::new();
    r.apply_user_state(patch(3));
    assert!(dispatch_frame(&mut r, &[9, 0, 1, 0]).is_err());
    assert_eq!(r.get(3), Some(patch(3)));
}

#[test]
fn remove_frame_removes_user() {
    let mut r = Roster::new();
    r.apply_user_state(patch(3));
    let out = dispatch_frame(&mut r, &encode(&Message::UserRemove { session: 3 }));
    assert_eq!(out, Ok(Message::UserRemove { session: 3 }));
    assert_eq!(r.get(3), None);
}
