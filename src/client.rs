use crate::codec::{frame_of, Message, MessageModel, UserState};
use crate::connection::{
    fits_one_frame, image_fits, in_phase, own_state, patch_fits, text_fits, text_message, with_frame,
    Connection, ConnectionError, ConnectionView, Phase,
};
use crate::tasks::{stop_sequence, TaskEntry, TaskKind};
use vstd::prelude::*;

verus! {

/// The one connection slot of the client process.
pub struct Client {
    current: Option<Connection>,
}

impl Client {
    /// Every connection in the slot keeps its own invariant.
    pub closed spec fn wf(&self) -> bool {
        match self.current {
            Some(c) => c.wf(),
            None => true,
        }
    }

    /// The connection in the slot, if any.
    pub closed spec fn current_view(&self) -> Option<ConnectionView> {
        match self.current {
            Some(c) => Some(c@),
            None => None,
        }
    }

    pub fn new() -> (r: Client)
        ensures
            r.wf(),
            r.current_view() is None,
    {
        Client { current: None }
    }

    /// The phase of the connection in the slot, if any.
    pub fn phase(&self) -> (r: Option<Phase>)
        ensures
            r == match self.current_view() {
                Some(v) => Some(v.phase),
                None => None,
            },
    {
        match &self.current {
            Some(c) => Some(c.phase()),
            None => None,
        }
    }

    /// Installs a fresh connection for `username` and starts its handshake. A connection
    /// still in the slot is shut down first: its running flag goes down and its tasks come
    /// back in stop order, for the caller to stop and join before the new transport starts.
    pub fn connect_to_server(&mut self, username: Vec<u8>) -> (stop_first: Vec<TaskEntry>)
        requires
            old(self).wf(),
            fits_one_frame(username@),
        ensures
            final(self).wf(),
            stop_first@ == match old(self).current_view() {
                Some(v) => stop_sequence(v.tasks),
                None => Seq::<TaskEntry>::empty(),
            },
            final(self).current_view() == Some(
                ConnectionView {
                    username: username@,
                    phase: Phase::Connecting,
                    running: false,
                    session: None,
                    tasks: Map::empty(),
                    outbound: Seq::empty(),
                },
            ),
    {
        let stop_first = match &mut self.current {
            Some(c) => c.close(),
            None => Vec::new(),
        };
        let mut c = Connection::new(username);
        let _ = c.start_connect();
        self.current = Some(c);
        stop_first
    }

    /// TLS is up on the connection in the slot: its handshake frame is queued.
    pub fn transport_ready(&mut self) -> (r: Result<(), ConnectionError>)
        requires
            old(self).wf(),
        ensures
            final(self).wf(),
            match old(self).current_view() {
                Some(v) if v.phase == Phase::Connecting => r is Ok && final(self).current_view()
                    == Some(
                    with_frame(
                        in_phase(v, Phase::Authenticating),
                        frame_of(MessageModel::Authenticate { username: v.username }),
                    ),
                ),
                Some(_) => r == Err::<(), ConnectionError>(ConnectionError::InvalidPhase)
                    && final(self).current_view() == old(self).current_view(),
                None => r == Err::<(), ConnectionError>(ConnectionError::NotConnected)
                    && final(self).current_view() is None,
            },
    {
        match &mut self.current {
            Some(c) => c.transport_ready(),
            None => Err(ConnectionError::NotConnected),
        }
    }

    /// The transport of the connection in the slot could not be set up: the connection
    /// leaves the slot and the error goes to the caller.
    pub fn transport_failed(&mut self) -> (r: Result<(), ConnectionError>)
        requires
            old(self).wf(),
        ensures
            final(self).wf(),
            match old(self).current_view() {
                Some(v) if v.phase == Phase::Connecting => r == Err::<(), ConnectionError>(
                    ConnectionError::TransportError,
                ) && final(self).current_view() is None,
                Some(_) => r == Err::<(), ConnectionError>(ConnectionError::InvalidPhase)
                    && final(self).current_view() == old(self).current_view(),
                None => r == Err::<(), ConnectionError>(ConnectionError::NotConnected)
                    && final(self).current_view() is None,
            },
    {
        match &mut self.current {
            Some(c) => {
                let r = c.transport_failed();
                if let Err(ConnectionError::TransportError) = r {
                    self.current = None;
                }
                r
            },
            None => Err(ConnectionError::NotConnected),
        }
    }

    /// The server's answer to the handshake. A sync makes the session active; a rejection
    /// takes the connection out of the slot and reports `AuthError`.
    pub fn handshake_reply(&mut self, reply: &Message) -> (r: Result<(), ConnectionError>)
        requires
            old(self).wf(),
        ensures
            final(self).wf(),
            match old(self).current_view() {
                Some(v) if v.phase == Phase::Authenticating => match reply@ {
                    MessageModel::ServerSync { session } => r is Ok && final(self).current_view()
                        == Some(
                        ConnectionView {
                            phase: Phase::Active,
                            running: true,
                            session: Some(session),
                            ..v
                        },
                    ),
                    MessageModel::Reject { .. } => r == Err::<(), ConnectionError>(
                        ConnectionError::AuthError,
                    ) && final(self).current_view() is None,
                    _ => r is Ok && final(self).current_view() == old(self).current_view(),
                },
                Some(_) => r == Err::<(), ConnectionError>(ConnectionError::InvalidPhase)
                    && final(self).current_view() == old(self).current_view(),
                None => r == Err::<(), ConnectionError>(ConnectionError::NotConnected)
                    && final(self).current_view() is None,
            },
    {
        match &mut self.current {
            Some(c) => {
                let r = c.handshake_reply(reply);
                if let Err(ConnectionError::AuthError) = r {
                    self.current = None;
                }
                r
            },
            None => Err(ConnectionError::NotConnected),
        }
    }

    /// Records a background task of the active connection.
    pub fn register_task(&mut self, kind: TaskKind, handle: u64) -> (r: Result<
        (),
        ConnectionError,
    >)
        requires
            old(self).wf(),
        ensures
            final(self).wf(),
            match old(self).current_view() {
                Some(v) if v.phase == Phase::Active && !v.tasks.contains_key(kind) => r is Ok
                    && final(self).current_view() == Some(
                    ConnectionView { tasks: v.tasks.insert(kind, handle), ..v },
                ),
                Some(v) if v.phase == Phase::Active => r == Err::<(), ConnectionError>(
                    ConnectionError::DuplicateTask,
                ) && final(self).current_view() == old(self).current_view(),
                _ => r == Err::<(), ConnectionError>(ConnectionError::NotConnected)
                    && final(self).current_view() == old(self).current_view(),
            },
    {
        match &mut self.current {
            Some(c) => c.register_task(kind, handle),
            None => Err(ConnectionError::NotConnected),
        }
    }

    /// Hands the frames queued on the connection in the slot to the writer, oldest first.
    pub fn take_outbound(&mut self) -> (r: Vec<Vec<u8>>)
        requires
            old(self).wf(),
        ensures
            final(self).wf(),
            match old(self).current_view() {
                Some(v) => r@.map_values(|f: Vec<u8>| f@) == v.outbound
                    && final(self).current_view() == Some(
                    ConnectionView { outbound: Seq::empty(), ..v },
                ),
                None => r@.len() == 0 && final(self).current_view() is None,
            },
    {
        match &mut self.current {
            Some(c) => c.take_outbound(),
            None => Vec::new(),
        }
    }

    /// Whether the connection in the slot holds no task.
    pub fn tasks_empty(&self) -> (r: bool)
        ensures
            r == match self.current_view() {
                Some(v) => v.tasks == Map::<TaskKind, u64>::empty(),
                None => true,
            },
    {
        match &self.current {
            Some(c) => c.tasks_empty(),
            None => true,
        }
    }

    /// Queues a chat message; without a connection in the slot this is `NotConnected`.
    pub fn send_message(
        &mut self,
        chat_message: Vec<u8>,
        channel_id: Option<u32>,
        receiver: Option<u32>,
    ) -> (r: Result<(), ConnectionError>)
        requires
            old(self).wf(),
            text_fits(chat_message@),
        ensures
            final(self).wf(),
            match old(self).current_view() {
                Some(v) if v.phase == Phase::Active => r is Ok && final(self).current_view()
                    == Some(
                    ConnectionView {
                        outbound: v.outbound.push(
                            frame_of(text_message(channel_id, receiver, chat_message@)),
                        ),
                        ..v
                    },
                ),
                _ => r == Err::<(), ConnectionError>(ConnectionError::NotConnected)
                    && final(self).current_view() == old(self).current_view(),
            },
    {
        match &mut self.current {
            Some(c) => c.send_message(channel_id, receiver, chat_message),
            None => Err(ConnectionError::NotConnected),
        }
    }

    /// Queues a reaction to a chat message; without an active connection this is
    /// `NotConnected`.
    pub fn like_message(&mut self, message_id: Vec<u8>) -> (r: Result<(), ConnectionError>)
        requires
            old(self).wf(),
            fits_one_frame(message_id@),
        ensures
            final(self).wf(),
            match old(self).current_view() {
                Some(v) if v.phase == Phase::Active => r is Ok && final(self).current_view()
                    == Some(
                    ConnectionView {
                        outbound: v.outbound.push(
                            frame_of(MessageModel::Like { message_id: message_id@ }),
                        ),
                        ..v
                    },
                ),
                _ => r == Err::<(), ConnectionError>(ConnectionError::NotConnected)
                    && final(self).current_view() == old(self).current_view(),
            },
    {
        match &mut self.current {
            Some(c) => c.like_message(message_id),
            None => Err(ConnectionError::NotConnected),
        }
    }

    /// Queues this client's new avatar; without an active connection this is
    /// `NotConnected`.
    pub fn set_user_image(&mut self, image: Vec<u8>, mime: Vec<u8>) -> (r: Result<
        (),
        ConnectionError,
    >)
        requires
            old(self).wf(),
            image_fits(mime@, image@),
        ensures
            final(self).wf(),
            match old(self).current_view() {
                Some(v) if v.phase == Phase::Active => r is Ok && final(self).current_view()
                    == Some(
                    ConnectionView {
                        outbound: v.outbound.push(
                            frame_of(MessageModel::UserImage { mime: mime@, image: image@ }),
                        ),
                        ..v
                    },
                ),
                _ => r == Err::<(), ConnectionError>(ConnectionError::NotConnected)
                    && final(self).current_view() == old(self).current_view(),
            },
    {
        match &mut self.current {
            Some(c) => c.set_user_image(image, mime),
            None => Err(ConnectionError::NotConnected),
        }
    }

    /// Queues a change of this client's own user state.
    pub fn change_user_state(&mut self, user_state: UserState) -> (r: Result<(), ConnectionError>)
        requires
            old(self).wf(),
            patch_fits(user_state@),
        ensures
            final(self).wf(),
            match old(self).current_view() {
                Some(v) if v.phase == Phase::Active => r is Ok && final(self).current_view()
                    == Some(
                    ConnectionView {
                        outbound: v.outbound.push(
                            frame_of(own_state(v.session.unwrap(), user_state@)),
                        ),
                        ..v
                    },
                ),
                _ => r == Err::<(), ConnectionError>(ConnectionError::NotConnected)
                    && final(self).current_view() == old(self).current_view(),
            },
    {
        match &mut self.current {
            Some(c) => c.update_user_info(user_state),
            None => Err(ConnectionError::NotConnected),
        }
    }

    /// Queues a move of this client into a channel.
    pub fn join_channel(&mut self, channel_id: u32) -> (r: Result<(), ConnectionError>)
        requires
            old(self).wf(),
        ensures
            final(self).wf(),
            match old(self).current_view() {
                Some(v) if v.phase == Phase::Active => r is Ok && final(self).current_view()
                    == Some(
                    ConnectionView {
                        outbound: v.outbound.push(
                            frame_of(
                                own_state(
                                    v.session.unwrap(),
                                    crate::codec::UserStateModel {
                                        session: 0,
                                        name: None,
                                        channel_id: Some(channel_id),
                                        muted: None,
                                        deafened: None,
                                    },
                                ),
                            ),
                        ),
                        ..v
                    },
                ),
                _ => r == Err::<(), ConnectionError>(ConnectionError::NotConnected)
                    && final(self).current_view() == old(self).current_view(),
            },
    {
        match &mut self.current {
            Some(c) => c.join_channel(channel_id),
            None => Err(ConnectionError::NotConnected),
        }
    }

    /// Starts logging out: the active connection stops running and hands back its tasks in
    /// stop order. With no active connection this is `NotConnected` and nothing changes.
    pub fn logout(&mut self) -> (r: Result<Vec<TaskEntry>, ConnectionError>)
        requires
            old(self).wf(),
        ensures
            final(self).wf(),
            match old(self).current_view() {
                Some(v) if v.phase == Phase::Active => (r matches Ok(order) && order@
                    == stop_sequence(v.tasks)) && final(self).current_view() == Some(
                    ConnectionView {
                        phase: Phase::ShuttingDown,
                        running: false,
                        tasks: Map::empty(),
                        ..v
                    },
                ),
                _ => (r matches Err(e) && e == ConnectionError::NotConnected)
                    && final(self).current_view() == old(self).current_view(),
            },
    {
        match &mut self.current {
            Some(c) => c.begin_shutdown(),
            None => Err(ConnectionError::NotConnected),
        }
    }

    /// Ends a logout once every task has been joined: the connection closes and leaves the
    /// slot.
    pub fn finish_logout(&mut self) -> (r: Result<(), ConnectionError>)
        requires
            old(self).wf(),
        ensures
            final(self).wf(),
            match old(self).current_view() {
                Some(v) if v.phase == Phase::ShuttingDown => r is Ok
                    && final(self).current_view() is None,
                Some(_) => r == Err::<(), ConnectionError>(ConnectionError::InvalidPhase)
                    && final(self).current_view() == old(self).current_view(),
                None => r == Err::<(), ConnectionError>(ConnectionError::NotConnected)
                    && final(self).current_view() is None,
            },
    {
        match &mut self.current {
            Some(c) => {
                let r = c.finish_shutdown();
                if r.is_ok() {
                    self.current = None;
                }
                r
            },
            None => Err(ConnectionError::NotConnected),
        }
    }
}

} // verus!
