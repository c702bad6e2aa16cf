use crate::codec::{
    encode, frame_of, lemma_decode_frame_of, payload_of, spec_decode, DecodeError, Message,
    MessageModel, UserState, UserStateModel,
};
use crate::tasks::{stop_sequence, RegistryError, TaskEntry, TaskKind, TaskRegistry};
use vstd::prelude::*;

verus! {

#[derive(Debug, Clone, Copy, PartialEq, Eq, Structural)]
pub enum Phase {
    Idle,
    Connecting,
    Authenticating,
    Active,
    ShuttingDown,
    Closed,
}

#[derive(Debug, Clone, Copy, PartialEq, Eq, Structural)]
pub enum ConnectionError {
    /// The operation needs an active session and there is none.
    NotConnected,
    /// The transport could not be set up (DNS, TCP or TLS).
    TransportError,
    /// The server refused the handshake.
    AuthError,
    /// A task of this kind is already running.
    DuplicateTask,
    /// The event does not belong to the phase the connection is in.
    InvalidPhase,
}

/// One session with a server, from the connect request to the closed transport.
pub struct Connection {
    username: Vec<u8>,
    phase: Phase,
    running: bool,
    session: Option<u32>,
    tasks: TaskRegistry,
    outbound: Vec<Vec<u8>>,
}

pub struct ConnectionView {
    pub username: Seq<u8>,
    pub phase: Phase,
    pub running: bool,
    /// The session id the server gave this client.
    pub session: Option<u32>,
    pub tasks: Map<TaskKind, u64>,
    /// Frames waiting for the writer, oldest first.
    pub outbound: Seq<Seq<u8>>,
}

impl View for Connection {
    type V = ConnectionView;

    closed spec fn view(&self) -> ConnectionView {
        ConnectionView {
            username: self.username@,
            phase: self.phase,
            running: self.running,
            session: self.session,
            tasks: self.tasks@,
            outbound: self.outbound@.map_values(|f: Vec<u8>| f@),
        }
    }
}

/// The view with its outbound queue extended by one frame.
pub open spec fn with_frame(v: ConnectionView, f: Seq<u8>) -> ConnectionView {
    ConnectionView { outbound: v.outbound.push(f), ..v }
}

pub open spec fn in_phase(v: ConnectionView, phase: Phase) -> ConnectionView {
    ConnectionView { phase, ..v }
}

/// A byte string (a user name, a message id) fits a frame on its own.
pub open spec fn fits_one_frame(u: Seq<u8>) -> bool {
    u.len() + 4 <= u32::MAX
}

/// The state of a connection as every method keeps it: the flag is up exactly while active,
/// an active connection knows its session id, and tasks exist only while active.
pub open spec fn connection_inv(v: ConnectionView) -> bool {
    &&& fits_one_frame(v.username)
    &&& v.running == (v.phase == Phase::Active)
    &&& v.phase == Phase::Active ==> v.session is Some
    &&& v.phase != Phase::Active ==> v.tasks == Map::<TaskKind, u64>::empty()
}

pub open spec fn text_message(channel_id: Option<u32>, receiver: Option<u32>, text: Seq<u8>) -> MessageModel {
    MessageModel::TextMessage { channel_id, receiver, text }
}

/// A user-state message about this client: the patch, under the client's own session id.
pub open spec fn own_state(session: u32, p: UserStateModel) -> MessageModel {
    MessageModel::UserState(UserStateModel { session, ..p })
}

/// An avatar and its MIME type fit one frame.
pub open spec fn image_fits(mime: Seq<u8>, image: Seq<u8>) -> bool {
    mime.len() + image.len() + 8 <= u32::MAX
}

pub open spec fn text_fits(text: Seq<u8>) -> bool {
    text.len() + 14 <= u32::MAX
}

pub open spec fn patch_fits(p: UserStateModel) -> bool {
    match p.name {
        Some(n) => n.len() + 16 <= u32::MAX,
        None => true,
    }
}

impl Connection {
    pub closed spec fn wf(&self) -> bool {
        connection_inv(self@)
    }

    /// A fresh, idle connection for a user.
    pub fn new(username: Vec<u8>) -> (r: Connection)
        requires
            fits_one_frame(username@),
        ensures
            r.wf(),
            r@ == (ConnectionView {
                username: username@,
                phase: Phase::Idle,
                running: false,
                session: None,
                tasks: Map::empty(),
                outbound: Seq::empty(),
            }),
    {
        let r = Connection {
            username,
            phase: Phase::Idle,
            running: false,
            session: None,
            tasks: TaskRegistry::new(),
            outbound: Vec::new(),
        };
        assert(r@.outbound =~= Seq::<Seq<u8>>::empty());
        r
    }

    pub fn phase(&self) -> (r: Phase)
        ensures
            r == self@.phase,
    {
        self.phase
    }

    pub fn is_running(&self) -> (r: bool)
        ensures
            r == self@.running,
    {
        self.running
    }

    pub fn session(&self) -> (r: Option<u32>)
        ensures
            r == self@.session,
    {
        self.session
    }

    pub fn tasks_empty(&self) -> (r: bool)
        ensures
            r == (self@.tasks == Map::<TaskKind, u64>::empty()),
    {
        self.tasks.is_empty()
    }

    /// A connect request: an idle connection starts its TCP and TLS handshake.
    pub fn start_connect(&mut self) -> (r: Result<(), ConnectionError>)
        requires
            old(self).wf(),
        ensures
            final(self).wf(),
            old(self)@.phase == Phase::Idle ==> r is Ok && final(self)@ == in_phase(
                old(self)@,
                Phase::Connecting,
            ),
            old(self)@.phase != Phase::Idle ==> r == Err::<(), ConnectionError>(
                ConnectionError::InvalidPhase,
            ) && final(self)@ == old(self)@,
    {
        if self.phase != Phase::Idle {
            return Err(ConnectionError::InvalidPhase);
        }
        self.phase = Phase::Connecting;
        Ok(())
    }

    /// The transport could not be set up: back to idle, nothing else changed.
    pub fn transport_failed(&mut self) -> (r: Result<(), ConnectionError>)
        requires
            old(self).wf(),
        ensures
            final(self).wf(),
            old(self)@.phase == Phase::Connecting ==> r == Err::<(), ConnectionError>(
                ConnectionError::TransportError,
            ) && final(self)@ == in_phase(old(self)@, Phase::Idle),
            old(self)@.phase != Phase::Connecting ==> r == Err::<(), ConnectionError>(
                ConnectionError::InvalidPhase,
            ) && final(self)@ == old(self)@,
    {
        if self.phase != Phase::Connecting {
            return Err(ConnectionError::InvalidPhase);
        }
        self.phase = Phase::Idle;
        Err(ConnectionError::TransportError)
    }

    /// TLS is up: the handshake frame with the user name is queued.
    pub fn transport_ready(&mut self) -> (r: Result<(), ConnectionError>)
        requires
            old(self).wf(),
        ensures
            final(self).wf(),
            old(self)@.phase == Phase::Connecting ==> r is Ok && final(self)@ == with_frame(
                in_phase(old(self)@, Phase::Authenticating),
                frame_of(MessageModel::Authenticate { username: old(self)@.username }),
            ),
            old(self)@.phase != Phase::Connecting ==> r == Err::<(), ConnectionError>(
                ConnectionError::InvalidPhase,
            ) && final(self)@ == old(self)@,
    {
        if self.phase != Phase::Connecting {
            return Err(ConnectionError::InvalidPhase);
        }
        let m = Message::Authenticate { username: vstd::slice::slice_to_vec(self.username.as_slice()) };
        proof {
            vstd::bytes::lemma_auto_spec_u32_to_from_le_bytes();
        }
        let f = encode(&m);
        self.phase = Phase::Authenticating;
        self.push_frame(f);
        Ok(())
    }

    fn push_frame(&mut self, f: Vec<u8>)
        ensures
            final(self)@ == with_frame(old(self)@, f@),
    {
        let ghost before = self@;
        self.outbound.push(f);
        assert(self@.outbound =~= before.outbound.push(f@));
    }

    /// The server's answer to the handshake. A sync makes the session active; a rejection
    /// closes it; anything else is not the answer and changes nothing.
    pub fn handshake_reply(&mut self, reply: &Message) -> (r: Result<(), ConnectionError>)
        requires
            old(self).wf(),
        ensures
            final(self).wf(),
            old(self)@.phase != Phase::Authenticating ==> r == Err::<(), ConnectionError>(
                ConnectionError::InvalidPhase,
            ) && final(self)@ == old(self)@,
            old(self)@.phase == Phase::Authenticating ==> match reply@ {
                MessageModel::ServerSync { session } => r is Ok && final(self)@ == (
                ConnectionView {
                    phase: Phase::Active,
                    running: true,
                    session: Some(session),
                    ..old(self)@
                }),
                MessageModel::Reject { .. } => r == Err::<(), ConnectionError>(
                    ConnectionError::AuthError,
                ) && final(self)@ == in_phase(old(self)@, Phase::Closed),
                _ => r is Ok && final(self)@ == old(self)@,
            },
    {
        if self.phase != Phase::Authenticating {
            return Err(ConnectionError::InvalidPhase);
        }
        match reply {
            Message::ServerSync { session } => {
                self.session = Some(*session);
                self.running = true;
                self.phase = Phase::Active;
                Ok(())
            },
            Message::Reject { .. } => {
                self.phase = Phase::Closed;
                Err(ConnectionError::AuthError)
            },
            _ => Ok(()),
        }
    }

    /// Records a background task of the active session.
    pub fn register_task(&mut self, kind: TaskKind, handle: u64) -> (r: Result<(), ConnectionError>)
        requires
            old(self).wf(),
        ensures
            final(self).wf(),
            old(self)@.phase != Phase::Active ==> r == Err::<(), ConnectionError>(
                ConnectionError::NotConnected,
            ) && final(self)@ == old(self)@,
            old(self)@.phase == Phase::Active && old(self)@.tasks.contains_key(kind) ==> r == Err::<
                (),
                ConnectionError,
            >(ConnectionError::DuplicateTask) && final(self)@ == old(self)@,
            old(self)@.phase == Phase::Active && !old(self)@.tasks.contains_key(kind) ==> r is Ok
                && final(self)@ == (ConnectionView {
                tasks: old(self)@.tasks.insert(kind, handle),
                ..old(self)@
            }),
    {
        if self.phase != Phase::Active {
            return Err(ConnectionError::NotConnected);
        }
        match self.tasks.register(kind, handle) {
            Ok(()) => Ok(()),
            Err(RegistryError::DuplicateTask) => Err(ConnectionError::DuplicateTask),
        }
    }

    /// Queues a chat message to a channel or a user.
    pub fn send_message(
        &mut self,
        channel_id: Option<u32>,
        receiver: Option<u32>,
        text: Vec<u8>,
    ) -> (r: Result<(), ConnectionError>)
        requires
            old(self).wf(),
            text_fits(text@),
        ensures
            final(self).wf(),
            old(self)@.phase != Phase::Active ==> r == Err::<(), ConnectionError>(
                ConnectionError::NotConnected,
            ) && final(self)@ == old(self)@,
            old(self)@.phase == Phase::Active ==> r is Ok && final(self)@ == with_frame(
                old(self)@,
                frame_of(text_message(channel_id, receiver, text@)),
            ),
    {
        if self.phase != Phase::Active {
            return Err(ConnectionError::NotConnected);
        }
        let m = Message::TextMessage { channel_id, receiver, text };
        proof {
            vstd::bytes::lemma_auto_spec_u32_to_from_le_bytes();
            assert(payload_of(m@).len() <= text@.len() + 14);
        }
        let f = encode(&m);
        self.push_frame(f);
        Ok(())
    }

    /// Queues a reaction to the chat message with this id.
    pub fn like_message(&mut self, message_id: Vec<u8>) -> (r: Result<(), ConnectionError>)
        requires
            old(self).wf(),
            fits_one_frame(message_id@),
        ensures
            final(self).wf(),
            old(self)@.phase != Phase::Active ==> r == Err::<(), ConnectionError>(
                ConnectionError::NotConnected,
            ) && final(self)@ == old(self)@,
            old(self)@.phase == Phase::Active ==> r is Ok && final(self)@ == with_frame(
                old(self)@,
                frame_of(MessageModel::Like { message_id: message_id@ }),
            ),
    {
        if self.phase != Phase::Active {
            return Err(ConnectionError::NotConnected);
        }
        let m = Message::Like { message_id };
        proof {
            vstd::bytes::lemma_auto_spec_u32_to_from_le_bytes();
        }
        let f = encode(&m);
        self.push_frame(f);
        Ok(())
    }

    /// Queues this client's new avatar: the image's bytes and its MIME type.
    pub fn set_user_image(&mut self, image: Vec<u8>, mime: Vec<u8>) -> (r: Result<
        (),
        ConnectionError,
    >)
        requires
            old(self).wf(),
            image_fits(mime@, image@),
        ensures
            final(self).wf(),
            old(self)@.phase != Phase::Active ==> r == Err::<(), ConnectionError>(
                ConnectionError::NotConnected,
            ) && final(self)@ == old(self)@,
            old(self)@.phase == Phase::Active ==> r is Ok && final(self)@ == with_frame(
                old(self)@,
                frame_of(MessageModel::UserImage { mime: mime@, image: image@ }),
            ),
    {
        if self.phase != Phase::Active {
            return Err(ConnectionError::NotConnected);
        }
        let m = Message::UserImage { mime, image };
        proof {
            vstd::bytes::lemma_auto_spec_u32_to_from_le_bytes();
        }
        let f = encode(&m);
        self.push_frame(f);
        Ok(())
    }

    /// Queues a change of this client's own user state; the session id is the client's own.
    pub fn update_user_info(&mut self, patch: UserState) -> (r: Result<(), ConnectionError>)
        requires
            old(self).wf(),
            patch_fits(patch@),
        ensures
            final(self).wf(),
            old(self)@.phase != Phase::Active ==> r == Err::<(), ConnectionError>(
                ConnectionError::NotConnected,
            ) && final(self)@ == old(self)@,
            old(self)@.phase == Phase::Active ==> r is Ok && final(self)@ == with_frame(
                old(self)@,
                frame_of(own_state(old(self)@.session.unwrap(), patch@)),
            ),
    {
        if self.phase != Phase::Active {
            return Err(ConnectionError::NotConnected);
        }
        let own = match self.session {
            Some(s) => s,
            None => return Err(ConnectionError::NotConnected),
        };
        let m = Message::UserState(UserState { session: own, ..patch });
        proof {
            vstd::bytes::lemma_auto_spec_u32_to_from_le_bytes();
            assert(m@ == own_state(own, patch@));
            assert(payload_of(m@).len() <= 16 + match patch@.name {
                Some(n) => n.len(),
                None => 0,
            });
        }
        let f = encode(&m);
        self.push_frame(f);
        Ok(())
    }

    /// Queues a move of this client into a channel.
    pub fn join_channel(&mut self, channel_id: u32) -> (r: Result<(), ConnectionError>)
        requires
            old(self).wf(),
        ensures
            final(self).wf(),
            old(self)@.phase != Phase::Active ==> r == Err::<(), ConnectionError>(
                ConnectionError::NotConnected,
            ) && final(self)@ == old(self)@,
            old(self)@.phase == Phase::Active ==> r is Ok && final(self)@ == with_frame(
                old(self)@,
                frame_of(
                    MessageModel::UserState(
                        UserStateModel {
                            session: old(self)@.session.unwrap(),
                            name: None,
                            channel_id: Some(channel_id),
                            muted: None,
                            deafened: None,
                        },
                    ),
                ),
            ),
    {
        let patch = UserState {
            session: 0,
            name: None,
            channel_id: Some(channel_id),
            muted: None,
            deafened: None,
        };
        self.update_user_info(patch)
    }

    /// Logout, disconnect, or a fatal transport error: the running flag goes down first,
    /// then every task leaves the registry and comes back in stop order, for the caller to
    /// stop and join.
    pub fn begin_shutdown(&mut self) -> (r: Result<Vec<TaskEntry>, ConnectionError>)
        requires
            old(self).wf(),
        ensures
            final(self).wf(),
            old(self)@.phase != Phase::Active ==> (r matches Err(e) && e
                == ConnectionError::NotConnected) && final(self)@ == old(self)@,
            old(self)@.phase == Phase::Active ==> (r matches Ok(order) && order@ == stop_sequence(
                old(self)@.tasks,
            )) && final(self)@ == (ConnectionView {
                phase: Phase::ShuttingDown,
                running: false,
                tasks: Map::empty(),
                ..old(self)@
            }),
    {
        if self.phase != Phase::Active {
            return Err(ConnectionError::NotConnected);
        }
        self.running = false;
        self.phase = Phase::ShuttingDown;
        let order = self.tasks.shutdown_all();
        Ok(order)
    }

    /// Tears the connection down from any phase: the running flag goes down, every task
    /// leaves the registry and comes back in stop order, and the connection is closed. The
    /// caller stops and joins those tasks before it builds a new connection.
    pub fn close(&mut self) -> (order: Vec<TaskEntry>)
        requires
            old(self).wf(),
        ensures
            final(self).wf(),
            order@ == stop_sequence(old(self)@.tasks),
            final(self)@ == (ConnectionView {
                phase: Phase::Closed,
                running: false,
                tasks: Map::empty(),
                ..old(self)@
            }),
    {
        self.running = false;
        self.phase = Phase::Closed;
        self.tasks.shutdown_all()
    }

    /// Every task has been stopped and joined: the transport may close now.
    pub fn finish_shutdown(&mut self) -> (r: Result<(), ConnectionError>)
        requires
            old(self).wf(),
        ensures
            final(self).wf(),
            old(self)@.phase == Phase::ShuttingDown ==> r is Ok && final(self)@ == in_phase(
                old(self)@,
                Phase::Closed,
            ),
            old(self)@.phase != Phase::ShuttingDown ==> r == Err::<(), ConnectionError>(
                ConnectionError::InvalidPhase,
            ) && final(self)@ == old(self)@,
            final(self)@.phase == Phase::Closed ==> final(self)@.tasks == Map::<
                TaskKind,
                u64,
            >::empty(),
    {
        if self.phase != Phase::ShuttingDown {
            return Err(ConnectionError::InvalidPhase);
        }
        self.phase = Phase::Closed;
        Ok(())
    }

    /// Hands the queued frames to the writer, oldest first, and empties the queue.
    pub fn take_outbound(&mut self) -> (r: Vec<Vec<u8>>)
        requires
            old(self).wf(),
        ensures
            final(self).wf(),
            r@.map_values(|f: Vec<u8>| f@) == old(self)@.outbound,
            final(self)@ == (ConnectionView { outbound: Seq::empty(), ..old(self)@ }),
    {
        let mut r: Vec<Vec<u8>> = Vec::new();
        core::mem::swap(&mut self.outbound, &mut r);
        assert(self@.outbound =~= Seq::<Seq<u8>>::empty());
        r
    }
}


/// Every frame that the send operations queue decodes back to the message they queued:
/// a chat message, a change of the client's own state (a channel join is one), a like,
/// an avatar.
pub proof fn lemma_queued_frames_decode(
    channel_id: Option<u32>,
    receiver: Option<u32>,
    text: Seq<u8>,
    session: u32,
    patch: UserStateModel,
    message_id: Seq<u8>,
    mime: Seq<u8>,
    image: Seq<u8>,
)
    requires
        text_fits(text),
        patch_fits(patch),
        fits_one_frame(message_id),
        image_fits(mime, image),
    ensures
        spec_decode(frame_of(text_message(channel_id, receiver, text))) == Ok::<
            MessageModel,
            DecodeError,
        >(text_message(channel_id, receiver, text)),
        spec_decode(frame_of(own_state(session, patch))) == Ok::<MessageModel, DecodeError>(
            own_state(session, patch),
        ),
        spec_decode(frame_of(MessageModel::Like { message_id })) == Ok::<
            MessageModel,
            DecodeError,
        >(MessageModel::Like { message_id }),
        spec_decode(frame_of(MessageModel::UserImage { mime, image })) == Ok::<
            MessageModel,
            DecodeError,
        >(MessageModel::UserImage { mime, image }),
{
    vstd::bytes::lemma_auto_spec_u32_to_from_le_bytes();
    let t = text_message(channel_id, receiver, text);
    assert(payload_of(t).len() <= text.len() + 14);
    lemma_decode_frame_of(t);
    let u = own_state(session, patch);
    assert(payload_of(u).len() <= 16 + match patch.name {
        Some(n) => n.len(),
        None => 0,
    });
    lemma_decode_frame_of(u);
    lemma_decode_frame_of(MessageModel::Like { message_id });
    lemma_decode_frame_of(MessageModel::UserImage { mime, image });
}

} // verus!
