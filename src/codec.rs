use vstd::bytes::*;
use vstd::prelude::*;
use vstd::slice::slice_subrange;

verus! {

/// Type tags of the messages this client understands.
pub const TAG_AUTHENTICATE: u16 = 2;
pub const TAG_PING: u16 = 3;
pub const TAG_REJECT: u16 = 4;
pub const TAG_SERVER_SYNC: u16 = 5;
pub const TAG_USER_REMOVE: u16 = 8;
pub const TAG_USER_STATE: u16 = 9;
pub const TAG_TEXT_MESSAGE: u16 = 11;
pub const TAG_LIKE: u16 = 26;
pub const TAG_USER_IMAGE: u16 = 27;

/// Bytes before the payload: a `u16` tag and a `u32` payload length.
pub const HEADER_LEN: usize = 6;

/// Why a frame could not be turned into a message.
#[derive(Debug, Clone, Copy, PartialEq, Eq, Structural)]
pub enum DecodeError {
    /// The buffer is shorter than a header, or its length field does not match the payload.
    MalformedFrame,
    /// The type tag is not one this client knows.
    UnknownMessageType,
    /// The payload does not follow the layout that the tag calls for.
    PayloadDecodeError,
}

/// A (partial) user state: the fields that are present overwrite, the absent ones are kept.
#[derive(Debug, Clone, PartialEq, Eq)]
pub struct UserState {
    pub session: u32,
    pub name: Option<Vec<u8>>,
    pub channel_id: Option<u32>,
    pub muted: Option<bool>,
    pub deafened: Option<bool>,
}

pub struct UserStateModel {
    pub session: u32,
    pub name: Option<Seq<u8>>,
    pub channel_id: Option<u32>,
    pub muted: Option<bool>,
    pub deafened: Option<bool>,
}

pub open spec fn bytes_opt_view(o: Option<Vec<u8>>) -> Option<Seq<u8>> {
    match o {
        Some(v) => Some(v@),
        None => None,
    }
}

impl View for UserState {
    type V = UserStateModel;

    open spec fn view(&self) -> UserStateModel {
        UserStateModel {
            session: self.session,
            name: bytes_opt_view(self.name),
            channel_id: self.channel_id,
            muted: self.muted,
            deafened: self.deafened,
        }
    }
}

/// A decoded protocol message.
#[derive(Debug, Clone, PartialEq, Eq)]
pub enum Message {
    Authenticate { username: Vec<u8> },
    Ping {
        timestamp: u64,
        good: u32,
        late: u32,
        lost: u32,
        resync: u32,
        tcp_packets: u32,
        udp_packets: u32,
    },
    Reject { reason: u32 },
    ServerSync { session: u32 },
    UserRemove { session: u32 },
    UserState(UserState),
    TextMessage { channel_id: Option<u32>, receiver: Option<u32>, text: Vec<u8> },
    /// A reaction to the chat message with this id.
    Like { message_id: Vec<u8> },
    /// This client's avatar: the image's MIME type and its bytes.
    UserImage { mime: Vec<u8>, image: Vec<u8> },
}

pub enum MessageModel {
    Authenticate { username: Seq<u8> },
    Ping {
        timestamp: u64,
        good: u32,
        late: u32,
        lost: u32,
        resync: u32,
        tcp_packets: u32,
        udp_packets: u32,
    },
    Reject { reason: u32 },
    ServerSync { session: u32 },
    UserRemove { session: u32 },
    UserState(UserStateModel),
    TextMessage { channel_id: Option<u32>, receiver: Option<u32>, text: Seq<u8> },
    Like { message_id: Seq<u8> },
    UserImage { mime: Seq<u8>, image: Seq<u8> },
}

impl View for Message {
    type V = MessageModel;

    open spec fn view(&self) -> MessageModel {
        match self {
            Message::Authenticate { username } => MessageModel::Authenticate { username: username@ },
            Message::Ping { timestamp, good, late, lost, resync, tcp_packets, udp_packets } =>
                MessageModel::Ping {
                timestamp: *timestamp,
                good: *good,
                late: *late,
                lost: *lost,
                resync: *resync,
                tcp_packets: *tcp_packets,
                udp_packets: *udp_packets,
            },
            Message::Reject { reason } => MessageModel::Reject { reason: *reason },
            Message::ServerSync { session } => MessageModel::ServerSync { session: *session },
            Message::UserRemove { session } => MessageModel::UserRemove { session: *session },
            Message::UserState(u) => MessageModel::UserState(u@),
            Message::TextMessage { channel_id, receiver, text } => MessageModel::TextMessage {
                channel_id: *channel_id,
                receiver: *receiver,
                text: text@,
            },
            Message::Like { message_id } => MessageModel::Like { message_id: message_id@ },
            Message::UserImage { mime, image } => MessageModel::UserImage {
                mime: mime@,
                image: image@,
            },
        }
    }
}

// ---------------------------------------------------------------------------
// Wire layout
// ---------------------------------------------------------------------------

pub open spec fn enc_u16(v: u16) -> Seq<u8> {
    spec_u16_to_le_bytes(v)
}

pub open spec fn enc_u32(v: u32) -> Seq<u8> {
    spec_u32_to_le_bytes(v)
}

pub open spec fn enc_u64(v: u64) -> Seq<u8> {
    spec_u64_to_le_bytes(v)
}

/// An optional integer: a presence byte (0 absent, 1 present), then the value.
pub open spec fn enc_opt_u32(o: Option<u32>) -> Seq<u8> {
    match o {
        None => seq![0u8],
        Some(v) => seq![1u8] + enc_u32(v),
    }
}

/// An optional flag in one byte: 0 absent, 1 false, 2 true.
pub open spec fn enc_opt_bool(o: Option<bool>) -> Seq<u8> {
    match o {
        None => seq![0u8],
        Some(false) => seq![1u8],
        Some(true) => seq![2u8],
    }
}

/// A byte string: its length as a `u32`, then its bytes.
pub open spec fn enc_bytes(s: Seq<u8>) -> Seq<u8> {
    enc_u32(s.len() as u32) + s
}

pub open spec fn enc_opt_bytes(o: Option<Seq<u8>>) -> Seq<u8> {
    match o {
        None => seq![0u8],
        Some(s) => seq![1u8] + enc_bytes(s),
    }
}

pub open spec fn enc_user_state(u: UserStateModel) -> Seq<u8> {
    enc_u32(u.session) + (enc_opt_bytes(u.name) + (enc_opt_u32(u.channel_id) + (enc_opt_bool(
        u.muted,
    ) + enc_opt_bool(u.deafened))))
}

pub open spec fn tag_of(m: MessageModel) -> u16 {
    match m {
        MessageModel::Authenticate { .. } => TAG_AUTHENTICATE,
        MessageModel::Ping { .. } => TAG_PING,
        MessageModel::Reject { .. } => TAG_REJECT,
        MessageModel::ServerSync { .. } => TAG_SERVER_SYNC,
        MessageModel::UserRemove { .. } => TAG_USER_REMOVE,
        MessageModel::UserState(_) => TAG_USER_STATE,
        MessageModel::TextMessage { .. } => TAG_TEXT_MESSAGE,
        MessageModel::Like { .. } => TAG_LIKE,
        MessageModel::UserImage { .. } => TAG_USER_IMAGE,
    }
}

pub open spec fn payload_of(m: MessageModel) -> Seq<u8> {
    match m {
        MessageModel::Authenticate { username } => enc_bytes(username),
        MessageModel::Ping { timestamp, good, late, lost, resync, tcp_packets, udp_packets } =>
            enc_u64(timestamp) + (enc_u32(good) + (enc_u32(late) + (enc_u32(lost) + (enc_u32(
            resync,
        ) + (enc_u32(tcp_packets) + enc_u32(udp_packets)))))),
        MessageModel::Reject { reason } => enc_u32(reason),
        MessageModel::ServerSync { session } => enc_u32(session),
        MessageModel::UserRemove { session } => enc_u32(session),
        MessageModel::UserState(u) => enc_user_state(u),
        MessageModel::TextMessage { channel_id, receiver, text } => enc_opt_u32(channel_id) + (
        enc_opt_u32(receiver) + enc_bytes(text)),
        MessageModel::Like { message_id } => enc_bytes(message_id),
        MessageModel::UserImage { mime, image } => enc_bytes(mime) + enc_bytes(image),
    }
}

/// Whole frame: tag, payload length, payload.
pub open spec fn frame_of(m: MessageModel) -> Seq<u8> {
    enc_u16(tag_of(m)) + (enc_u32(payload_of(m).len() as u32) + payload_of(m))
}

pub open spec fn bytes_fit(s: Seq<u8>) -> bool {
    s.len() <= u32::MAX
}

pub open spec fn opt_bytes_fit(o: Option<Seq<u8>>) -> bool {
    match o {
        Some(s) => bytes_fit(s),
        None => true,
    }
}

/// A message can be framed: every byte string, and the payload as a whole, fits a `u32` length.
pub open spec fn well_formed(m: MessageModel) -> bool {
    &&& payload_of(m).len() <= u32::MAX
    &&& match m {
        MessageModel::Authenticate { username } => bytes_fit(username),
        MessageModel::UserState(u) => opt_bytes_fit(u.name),
        MessageModel::TextMessage { text, .. } => bytes_fit(text),
        MessageModel::Like { message_id } => bytes_fit(message_id),
        MessageModel::UserImage { mime, image } => bytes_fit(mime) && bytes_fit(image),
        _ => true,
    }
}

// ---------------------------------------------------------------------------
// Reading: each reader takes what it needs from the front and hands back the rest.
// ---------------------------------------------------------------------------

pub open spec fn take_u32(s: Seq<u8>) -> Option<(u32, Seq<u8>)> {
    if s.len() >= 4 {
        Some((spec_u32_from_le_bytes(s.take(4)), s.skip(4)))
    } else {
        None
    }
}

pub open spec fn take_u64(s: Seq<u8>) -> Option<(u64, Seq<u8>)> {
    if s.len() >= 8 {
        Some((spec_u64_from_le_bytes(s.take(8)), s.skip(8)))
    } else {
        None
    }
}

pub open spec fn take_opt_u32(s: Seq<u8>) -> Option<(Option<u32>, Seq<u8>)> {
    if s.len() >= 1 && s[0] == 0 {
        Some((None, s.skip(1)))
    } else if s.len() >= 1 && s[0] == 1 {
        match take_u32(s.skip(1)) {
            Some((v, r)) => Some((Some(v), r)),
            None => None,
        }
    } else {
        None
    }
}

pub open spec fn take_opt_bool(s: Seq<u8>) -> Option<(Option<bool>, Seq<u8>)> {
    if s.len() >= 1 && s[0] == 0 {
        Some((None, s.skip(1)))
    } else if s.len() >= 1 && s[0] == 1 {
        Some((Some(false), s.skip(1)))
    } else if s.len() >= 1 && s[0] == 2 {
        Some((Some(true), s.skip(1)))
    } else {
        None
    }
}

pub open spec fn take_bytes(s: Seq<u8>) -> Option<(Seq<u8>, Seq<u8>)> {
    match take_u32(s) {
        Some((n, r)) => if r.len() >= n {
            Some((r.take(n as int), r.skip(n as int)))
        } else {
            None
        },
        None => None,
    }
}

pub open spec fn take_opt_bytes(s: Seq<u8>) -> Option<(Option<Seq<u8>>, Seq<u8>)> {
    if s.len() >= 1 && s[0] == 0 {
        Some((None, s.skip(1)))
    } else if s.len() >= 1 && s[0] == 1 {
        match take_bytes(s.skip(1)) {
            Some((v, r)) => Some((Some(v), r)),
            None => None,
        }
    } else {
        None
    }
}

/// A single `u32`, filling the payload exactly.
pub open spec fn parse_one_u32(p: Seq<u8>) -> Option<u32> {
    match take_u32(p) {
        Some((v, r)) => if r.len() == 0 {
            Some(v)
        } else {
            None
        },
        None => None,
    }
}

pub open spec fn parse_user_state(p: Seq<u8>) -> Option<UserStateModel> {
    match take_u32(p) {
        None => None,
        Some((session, r1)) => match take_opt_bytes(r1) {
            None => None,
            Some((name, r2)) => match take_opt_u32(r2) {
                None => None,
                Some((channel_id, r3)) => match take_opt_bool(r3) {
                    None => None,
                    Some((muted, r4)) => match take_opt_bool(r4) {
                        None => None,
                        Some((deafened, r5)) => if r5.len() == 0 {
                            Some(UserStateModel { session, name, channel_id, muted, deafened })
                        } else {
                            None
                        },
                    },
                },
            },
        },
    }
}

pub open spec fn parse_ping(p: Seq<u8>) -> Option<MessageModel> {
    match take_u64(p) {
        None => None,
        Some((timestamp, r1)) => match take_u32(r1) {
            None => None,
            Some((good, r2)) => match take_u32(r2) {
                None => None,
                Some((late, r3)) => match take_u32(r3) {
                    None => None,
                    Some((lost, r4)) => match take_u32(r4) {
                        None => None,
                        Some((resync, r5)) => match take_u32(r5) {
                            None => None,
                            Some((tcp_packets, r6)) => match parse_one_u32(r6) {
                                None => None,
                                Some(udp_packets) => Some(
                                    MessageModel::Ping {
                                        timestamp,
                                        good,
                                        late,
                                        lost,
                                        resync,
                                        tcp_packets,
                                        udp_packets,
                                    },
                                ),
                            },
                        },
                    },
                },
            },
        },
    }
}

pub open spec fn parse_text_message(p: Seq<u8>) -> Option<MessageModel> {
    match take_opt_u32(p) {
        None => None,
        Some((channel_id, r1)) => match take_opt_u32(r1) {
            None => None,
            Some((receiver, r2)) => match take_bytes(r2) {
                None => None,
                Some((text, r3)) => if r3.len() == 0 {
                    Some(MessageModel::TextMessage { channel_id, receiver, text })
                } else {
                    None
                },
            },
        },
    }
}

/// Two byte strings, filling the payload exactly.
pub open spec fn parse_user_image(p: Seq<u8>) -> Option<MessageModel> {
    match take_bytes(p) {
        None => None,
        Some((mime, r1)) => match parse_one_bytes(r1) {
            None => None,
            Some(image) => Some(MessageModel::UserImage { mime, image }),
        },
    }
}

/// A single byte string, filling the payload exactly.
pub open spec fn parse_one_bytes(p: Seq<u8>) -> Option<Seq<u8>> {
    match take_bytes(p) {
        Some((s, r)) => if r.len() == 0 {
            Some(s)
        } else {
            None
        },
        None => None,
    }
}

pub open spec fn is_known_tag(tag: u16) -> bool {
    tag == TAG_AUTHENTICATE || tag == TAG_PING || tag == TAG_REJECT || tag == TAG_SERVER_SYNC
        || tag == TAG_USER_REMOVE || tag == TAG_USER_STATE || tag == TAG_TEXT_MESSAGE
        || tag == TAG_LIKE || tag == TAG_USER_IMAGE
}

/// The payload layout that a known tag calls for.
pub open spec fn parse_payload(tag: u16, p: Seq<u8>) -> Option<MessageModel> {
    if tag == TAG_AUTHENTICATE {
        match parse_one_bytes(p) {
            Some(username) => Some(MessageModel::Authenticate { username }),
            None => None,
        }
    } else if tag == TAG_LIKE {
        match parse_one_bytes(p) {
            Some(message_id) => Some(MessageModel::Like { message_id }),
            None => None,
        }
    } else if tag == TAG_USER_IMAGE {
        parse_user_image(p)
    } else if tag == TAG_PING {
        parse_ping(p)
    } else if tag == TAG_REJECT {
        match parse_one_u32(p) {
            Some(reason) => Some(MessageModel::Reject { reason }),
            None => None,
        }
    } else if tag == TAG_SERVER_SYNC {
        match parse_one_u32(p) {
            Some(session) => Some(MessageModel::ServerSync { session }),
            None => None,
        }
    } else if tag == TAG_USER_REMOVE {
        match parse_one_u32(p) {
            Some(session) => Some(MessageModel::UserRemove { session }),
            None => None,
        }
    } else if tag == TAG_USER_STATE {
        match parse_user_state(p) {
            Some(u) => Some(MessageModel::UserState(u)),
            None => None,
        }
    } else {
        parse_text_message(p)
    }
}

pub open spec fn frame_tag(b: Seq<u8>) -> u16 {
    spec_u16_from_le_bytes(b.take(2))
}

pub open spec fn declared_len(b: Seq<u8>) -> u32 {
    spec_u32_from_le_bytes(b.subrange(2, 6))
}

/// The buffer holds a header and exactly as many payload bytes as the header declares.
pub open spec fn frame_complete(b: Seq<u8>) -> bool {
    b.len() >= HEADER_LEN && b.len() - HEADER_LEN == declared_len(b)
}

/// What decoding a buffer gives.
pub open spec fn spec_decode(b: Seq<u8>) -> Result<MessageModel, DecodeError> {
    if !frame_complete(b) {
        Err(DecodeError::MalformedFrame)
    } else if !is_known_tag(frame_tag(b)) {
        Err(DecodeError::UnknownMessageType)
    } else {
        match parse_payload(frame_tag(b), b.skip(HEADER_LEN as int)) {
            Some(m) => Ok(m),
            None => Err(DecodeError::PayloadDecodeError),
        }
    }
}

// ---------------------------------------------------------------------------
// Reading back what was written
// ---------------------------------------------------------------------------

pub proof fn lemma_take_u32(v: u32, rest: Seq<u8>)
    ensures
        enc_u32(v).len() == 4,
        take_u32(enc_u32(v) + rest) == Some((v, rest)),
{
    lemma_auto_spec_u32_to_from_le_bytes();
    let s = enc_u32(v) + rest;
    assert(s.take(4) =~= enc_u32(v));
    assert(s.skip(4) =~= rest);
}

pub proof fn lemma_take_u64(v: u64, rest: Seq<u8>)
    ensures
        enc_u64(v).len() == 8,
        take_u64(enc_u64(v) + rest) == Some((v, rest)),
{
    lemma_auto_spec_u64_to_from_le_bytes();
    let s = enc_u64(v) + rest;
    assert(s.take(8) =~= enc_u64(v));
    assert(s.skip(8) =~= rest);
}

pub proof fn lemma_take_opt_u32(o: Option<u32>, rest: Seq<u8>)
    ensures
        take_opt_u32(enc_opt_u32(o) + rest) == Some((o, rest)),
{
    let s = enc_opt_u32(o) + rest;
    match o {
        None => {
            assert(s.skip(1) =~= rest);
        },
        Some(v) => {
            lemma_take_u32(v, rest);
            assert(s.skip(1) =~= enc_u32(v) + rest);
        },
    }
}

pub proof fn lemma_take_opt_bool(o: Option<bool>, rest: Seq<u8>)
    ensures
        take_opt_bool(enc_opt_bool(o) + rest) == Some((o, rest)),
{
    let s = enc_opt_bool(o) + rest;
    assert(s.skip(1) =~= rest);
}

pub proof fn lemma_take_bytes(b: Seq<u8>, rest: Seq<u8>)
    requires
        bytes_fit(b),
    ensures
        take_bytes(enc_bytes(b) + rest) == Some((b, rest)),
{
    let r = b + rest;
    lemma_take_u32(b.len() as u32, r);
    assert(enc_bytes(b) + rest =~= enc_u32(b.len() as u32) + r);
    assert(r.take(b.len() as int) =~= b);
    assert(r.skip(b.len() as int) =~= rest);
}

pub proof fn lemma_take_opt_bytes(o: Option<Seq<u8>>, rest: Seq<u8>)
    requires
        opt_bytes_fit(o),
    ensures
        take_opt_bytes(enc_opt_bytes(o) + rest) == Some((o, rest)),
{
    let s = enc_opt_bytes(o) + rest;
    match o {
        None => {
            assert(s.skip(1) =~= rest);
        },
        Some(b) => {
            lemma_take_bytes(b, rest);
            assert(s.skip(1) =~= enc_bytes(b) + rest);
        },
    }
}

pub proof fn lemma_parse_one_u32(v: u32)
    ensures
        parse_one_u32(enc_u32(v)) == Some(v),
{
    lemma_take_u32(v, Seq::empty());
    assert(enc_u32(v) + Seq::<u8>::empty() =~= enc_u32(v));
}

pub proof fn lemma_parse_payload(m: MessageModel)
    requires
        well_formed(m),
    ensures
        parse_payload(tag_of(m), payload_of(m)) == Some(m),
{
    let e = Seq::<u8>::empty();
    match m {
        MessageModel::Authenticate { username } => {
            lemma_take_bytes(username, e);
            assert(enc_bytes(username) + e =~= enc_bytes(username));
        },
        MessageModel::Like { message_id } => {
            lemma_take_bytes(message_id, e);
            assert(enc_bytes(message_id) + e =~= enc_bytes(message_id));
        },
        MessageModel::UserImage { mime, image } => {
            lemma_take_bytes(mime, enc_bytes(image));
            lemma_take_bytes(image, e);
            assert(enc_bytes(image) + e =~= enc_bytes(image));
        },
        MessageModel::Ping { timestamp, good, late, lost, resync, tcp_packets, udp_packets } => {
            let r6 = enc_u32(udp_packets);
            let r5 = enc_u32(tcp_packets) + r6;
            let r4 = enc_u32(resync) + r5;
            let r3 = enc_u32(lost) + r4;
            let r2 = enc_u32(late) + r3;
            let r1 = enc_u32(good) + r2;
            lemma_take_u64(timestamp, r1);
            lemma_take_u32(good, r2);
            lemma_take_u32(late, r3);
            lemma_take_u32(lost, r4);
            lemma_take_u32(resync, r5);
            lemma_take_u32(tcp_packets, r6);
            lemma_parse_one_u32(udp_packets);
        },
        MessageModel::Reject { reason } => {
            lemma_parse_one_u32(reason);
        },
        MessageModel::ServerSync { session } => {
            lemma_parse_one_u32(session);
        },
        MessageModel::UserRemove { session } => {
            lemma_parse_one_u32(session);
        },
        MessageModel::UserState(u) => {
            let r4 = enc_opt_bool(u.deafened);
            let r3 = enc_opt_bool(u.muted) + r4;
            let r2 = enc_opt_u32(u.channel_id) + r3;
            let r1 = enc_opt_bytes(u.name) + r2;
            lemma_take_u32(u.session, r1);
            lemma_take_opt_bytes(u.name, r2);
            lemma_take_opt_u32(u.channel_id, r3);
            lemma_take_opt_bool(u.muted, r4);
            lemma_take_opt_bool(u.deafened, e);
            assert(r4 + e =~= r4);
        },
        MessageModel::TextMessage { channel_id, receiver, text } => {
            let r2 = enc_bytes(text);
            let r1 = enc_opt_u32(receiver) + r2;
            lemma_take_opt_u32(channel_id, r1);
            lemma_take_opt_u32(receiver, r2);
            lemma_take_bytes(text, e);
            assert(r2 + e =~= r2);
        },
    }
}


/// Any framed message decodes back to itself.
pub proof fn lemma_decode_frame_of(m: MessageModel)
    requires
        well_formed(m),
    ensures
        spec_decode(frame_of(m)) == Ok::<MessageModel, DecodeError>(m),
{
    let p = payload_of(m);
    let b = frame_of(m);
    lemma_auto_spec_u16_to_from_le_bytes();
    lemma_take_u32(p.len() as u32, p);
    assert(b.take(2) =~= enc_u16(tag_of(m)));
    assert(b.subrange(2, 6) =~= enc_u32(p.len() as u32));
    lemma_auto_spec_u32_to_from_le_bytes();
    assert(b.skip(HEADER_LEN as int) =~= p);
    lemma_parse_payload(m);
}

// ---------------------------------------------------------------------------
// Executable writers
// ---------------------------------------------------------------------------

fn put_u32(out: &mut Vec<u8>, v: u32)
    ensures
        final(out)@ == old(out)@ + enc_u32(v),
{
    let mut b = u32_to_le_bytes(v);
    out.append(&mut b);
}

fn put_u64(out: &mut Vec<u8>, v: u64)
    ensures
        final(out)@ == old(out)@ + enc_u64(v),
{
    let mut b = u64_to_le_bytes(v);
    out.append(&mut b);
}

fn put_opt_u32(out: &mut Vec<u8>, o: Option<u32>)
    ensures
        final(out)@ == old(out)@ + enc_opt_u32(o),
{
    match o {
        None => out.push(0u8),
        Some(v) => {
            out.push(1u8);
            put_u32(out, v);
            assert(final(out)@ =~= old(out)@ + enc_opt_u32(o));
        },
    }
}

fn put_opt_bool(out: &mut Vec<u8>, o: Option<bool>)
    ensures
        final(out)@ == old(out)@ + enc_opt_bool(o),
{
    match o {
        None => out.push(0u8),
        Some(false) => out.push(1u8),
        Some(true) => out.push(2u8),
    }
    assert(out@ =~= old(out)@ + enc_opt_bool(o));
}

fn put_bytes(out: &mut Vec<u8>, s: &Vec<u8>)
    requires
        bytes_fit(s@),
    ensures
        final(out)@ == old(out)@ + enc_bytes(s@),
{
    put_u32(out, s.len() as u32);
    let ghost start = out@;
    let mut i: usize = 0;
    while i < s.len()
        invariant
            i <= s@.len(),
            out@ == start + s@.take(i as int),
        decreases s@.len() - i,
    {
        out.push(s[i]);
        i = i + 1;
        assert(out@ =~= start + s@.take(i as int));
    }
    assert(s@.take(s@.len() as int) =~= s@);
    assert(out@ =~= old(out)@ + enc_bytes(s@));
}

fn put_opt_bytes(out: &mut Vec<u8>, o: &Option<Vec<u8>>)
    requires
        opt_bytes_fit(bytes_opt_view(*o)),
    ensures
        final(out)@ == old(out)@ + enc_opt_bytes(bytes_opt_view(*o)),
{
    match o {
        None => out.push(0u8),
        Some(s) => {
            out.push(1u8);
            put_bytes(out, s);
            assert(final(out)@ =~= old(out)@ + enc_opt_bytes(bytes_opt_view(*o)));
        },
    }
}

/// The payload bytes of a message, without header.
fn encode_payload(m: &Message) -> (r: Vec<u8>)
    requires
        well_formed(m@),
    ensures
        r@ == payload_of(m@),
{
    let mut out: Vec<u8> = Vec::new();
    match m {
        Message::Authenticate { username } => {
            put_bytes(&mut out, username);
        },
        Message::Ping { timestamp, good, late, lost, resync, tcp_packets, udp_packets } => {
            put_u64(&mut out, *timestamp);
            put_u32(&mut out, *good);
            put_u32(&mut out, *late);
            put_u32(&mut out, *lost);
            put_u32(&mut out, *resync);
            put_u32(&mut out, *tcp_packets);
            put_u32(&mut out, *udp_packets);
        },
        Message::Reject { reason } => {
            put_u32(&mut out, *reason);
        },
        Message::ServerSync { session } => {
            put_u32(&mut out, *session);
        },
        Message::UserRemove { session } => {
            put_u32(&mut out, *session);
        },
        Message::UserState(u) => {
            put_u32(&mut out, u.session);
            put_opt_bytes(&mut out, &u.name);
            put_opt_u32(&mut out, u.channel_id);
            put_opt_bool(&mut out, u.muted);
            put_opt_bool(&mut out, u.deafened);
        },
        Message::TextMessage { channel_id, receiver, text } => {
            put_opt_u32(&mut out, *channel_id);
            put_opt_u32(&mut out, *receiver);
            put_bytes(&mut out, text);
        },
        Message::Like { message_id } => {
            put_bytes(&mut out, message_id);
        },
        Message::UserImage { mime, image } => {
            put_bytes(&mut out, mime);
            put_bytes(&mut out, image);
        },
    }
    assert(out@ =~= payload_of(m@));
    out
}

pub fn tag_of_message(m: &Message) -> (r: u16)
    ensures
        r == tag_of(m@),
{
    match m {
        Message::Authenticate { .. } => TAG_AUTHENTICATE,
        Message::Ping { .. } => TAG_PING,
        Message::Reject { .. } => TAG_REJECT,
        Message::ServerSync { .. } => TAG_SERVER_SYNC,
        Message::UserRemove { .. } => TAG_USER_REMOVE,
        Message::UserState(_) => TAG_USER_STATE,
        Message::TextMessage { .. } => TAG_TEXT_MESSAGE,
        Message::Like { .. } => TAG_LIKE,
        Message::UserImage { .. } => TAG_USER_IMAGE,
    }
}

/// Frames a message: tag, payload length, payload.
pub fn encode(m: &Message) -> (r: Vec<u8>)
    requires
        well_formed(m@),
    ensures
        r@ == frame_of(m@),
{
    let mut payload = encode_payload(m);
    let mut out = u16_to_le_bytes(tag_of_message(m));
    put_u32(&mut out, payload.len() as u32);
    out.append(&mut payload);
    assert(out@ =~= frame_of(m@));
    out
}

// ---------------------------------------------------------------------------
// Executable readers: each reads at `pos` and returns the position after what it read.
// ---------------------------------------------------------------------------

fn read_u32(b: &[u8], pos: usize) -> (r: Option<(u32, usize)>)
    requires
        pos <= b@.len(),
    ensures
        match r {
            Some((v, p)) => p <= b@.len() && take_u32(b@.skip(pos as int)) == Some(
                (v, b@.skip(p as int)),
            ),
            None => take_u32(b@.skip(pos as int)) is None,
        },
{
    if b.len() - pos >= 4 {
        let v = u32_from_le_bytes(slice_subrange(b, pos, pos + 4));
        assert(b@.subrange(pos as int, pos + 4) =~= b@.skip(pos as int).take(4));
        assert(b@.skip(pos as int).skip(4) =~= b@.skip(pos + 4));
        Some((v, pos + 4))
    } else {
        None
    }
}

fn read_u64(b: &[u8], pos: usize) -> (r: Option<(u64, usize)>)
    requires
        pos <= b@.len(),
    ensures
        match r {
            Some((v, p)) => p <= b@.len() && take_u64(b@.skip(pos as int)) == Some(
                (v, b@.skip(p as int)),
            ),
            None => take_u64(b@.skip(pos as int)) is None,
        },
{
    if b.len() - pos >= 8 {
        let v = u64_from_le_bytes(slice_subrange(b, pos, pos + 8));
        assert(b@.subrange(pos as int, pos + 8) =~= b@.skip(pos as int).take(8));
        assert(b@.skip(pos as int).skip(8) =~= b@.skip(pos + 8));
        Some((v, pos + 8))
    } else {
        None
    }
}

fn read_opt_u32(b: &[u8], pos: usize) -> (r: Option<(Option<u32>, usize)>)
    requires
        pos <= b@.len(),
    ensures
        match r {
            Some((v, p)) => p <= b@.len() && take_opt_u32(b@.skip(pos as int)) == Some(
                (v, b@.skip(p as int)),
            ),
            None => take_opt_u32(b@.skip(pos as int)) is None,
        },
{
    if pos < b.len() {
        assert(b@.skip(pos as int).skip(1) =~= b@.skip(pos + 1));
    }
    if pos < b.len() && b[pos] == 0 {
        Some((None, pos + 1))
    } else if pos < b.len() && b[pos] == 1 {
        match read_u32(b, pos + 1) {
            Some((v, p)) => Some((Some(v), p)),
            None => None,
        }
    } else {
        None
    }
}

fn read_opt_bool(b: &[u8], pos: usize) -> (r: Option<(Option<bool>, usize)>)
    requires
        pos <= b@.len(),
    ensures
        match r {
            Some((v, p)) => p <= b@.len() && take_opt_bool(b@.skip(pos as int)) == Some(
                (v, b@.skip(p as int)),
            ),
            None => take_opt_bool(b@.skip(pos as int)) is None,
        },
{
    if pos < b.len() {
        assert(b@.skip(pos as int).skip(1) =~= b@.skip(pos + 1));
    }
    if pos < b.len() && b[pos] == 0 {
        Some((None, pos + 1))
    } else if pos < b.len() && b[pos] == 1 {
        Some((Some(false), pos + 1))
    } else if pos < b.len() && b[pos] == 2 {
        Some((Some(true), pos + 1))
    } else {
        None
    }
}

fn read_bytes(b: &[u8], pos: usize) -> (r: Option<(Vec<u8>, usize)>)
    requires
        pos <= b@.len(),
    ensures
        match r {
            Some((v, p)) => p <= b@.len() && take_bytes(b@.skip(pos as int)) == Some(
                (v@, b@.skip(p as int)),
            ),
            None => take_bytes(b@.skip(pos as int)) is None,
        },
{
    match read_u32(b, pos) {
        None => None,
        Some((n, p)) => {
            if b.len() - p >= n as usize {
                let end = p + n as usize;
                let v = vstd::slice::slice_to_vec(slice_subrange(b, p, end));
                assert(b@.subrange(p as int, end as int) =~= b@.skip(p as int).take(n as int));
                assert(b@.skip(p as int).skip(n as int) =~= b@.skip(end as int));
                Some((v, end))
            } else {
                None
            }
        },
    }
}

fn read_opt_bytes(b: &[u8], pos: usize) -> (r: Option<(Option<Vec<u8>>, usize)>)
    requires
        pos <= b@.len(),
    ensures
        match r {
            Some((v, p)) => p <= b@.len() && take_opt_bytes(b@.skip(pos as int)) == Some(
                (bytes_opt_view(v), b@.skip(p as int)),
            ),
            None => take_opt_bytes(b@.skip(pos as int)) is None,
        },
{
    if pos < b.len() {
        assert(b@.skip(pos as int).skip(1) =~= b@.skip(pos + 1));
    }
    if pos < b.len() && b[pos] == 0 {
        Some((None, pos + 1))
    } else if pos < b.len() && b[pos] == 1 {
        match read_bytes(b, pos + 1) {
            Some((v, p)) => Some((Some(v), p)),
            None => None,
        }
    } else {
        None
    }
}


fn read_one_u32(b: &[u8], pos: usize) -> (r: Option<u32>)
    requires
        pos <= b@.len(),
    ensures
        r == parse_one_u32(b@.skip(pos as int)),
{
    match read_u32(b, pos) {
        Some((v, p)) => if p == b.len() {
            Some(v)
        } else {
            None
        },
        None => None,
    }
}

fn read_user_state(b: &[u8], pos: usize) -> (r: Option<UserState>)
    requires
        pos <= b@.len(),
    ensures
        match r {
            Some(u) => parse_user_state(b@.skip(pos as int)) == Some(u@),
            None => parse_user_state(b@.skip(pos as int)) is None,
        },
{
    let (session, p1) = match read_u32(b, pos) {
        Some(x) => x,
        None => return None,
    };
    let (name, p2) = match read_opt_bytes(b, p1) {
        Some(x) => x,
        None => return None,
    };
    let (channel_id, p3) = match read_opt_u32(b, p2) {
        Some(x) => x,
        None => return None,
    };
    let (muted, p4) = match read_opt_bool(b, p3) {
        Some(x) => x,
        None => return None,
    };
    let (deafened, p5) = match read_opt_bool(b, p4) {
        Some(x) => x,
        None => return None,
    };
    if p5 == b.len() {
        Some(UserState { session, name, channel_id, muted, deafened })
    } else {
        None
    }
}

fn read_ping(b: &[u8], pos: usize) -> (r: Option<Message>)
    requires
        pos <= b@.len(),
    ensures
        match r {
            Some(m) => parse_ping(b@.skip(pos as int)) == Some(m@),
            None => parse_ping(b@.skip(pos as int)) is None,
        },
{
    let (timestamp, p1) = match read_u64(b, pos) {
        Some(x) => x,
        None => return None,
    };
    let (good, p2) = match read_u32(b, p1) {
        Some(x) => x,
        None => return None,
    };
    let (late, p3) = match read_u32(b, p2) {
        Some(x) => x,
        None => return None,
    };
    let (lost, p4) = match read_u32(b, p3) {
        Some(x) => x,
        None => return None,
    };
    let (resync, p5) = match read_u32(b, p4) {
        Some(x) => x,
        None => return None,
    };
    let (tcp_packets, p6) = match read_u32(b, p5) {
        Some(x) => x,
        None => return None,
    };
    match read_one_u32(b, p6) {
        Some(udp_packets) => Some(
            Message::Ping { timestamp, good, late, lost, resync, tcp_packets, udp_packets },
        ),
        None => None,
    }
}

fn read_text_message(b: &[u8], pos: usize) -> (r: Option<Message>)
    requires
        pos <= b@.len(),
    ensures
        match r {
            Some(m) => parse_text_message(b@.skip(pos as int)) == Some(m@),
            None => parse_text_message(b@.skip(pos as int)) is None,
        },
{
    let (channel_id, p1) = match read_opt_u32(b, pos) {
        Some(x) => x,
        None => return None,
    };
    let (receiver, p2) = match read_opt_u32(b, p1) {
        Some(x) => x,
        None => return None,
    };
    let (text, p3) = match read_bytes(b, p2) {
        Some(x) => x,
        None => return None,
    };
    if p3 == b.len() {
        Some(Message::TextMessage { channel_id, receiver, text })
    } else {
        None
    }
}

fn read_one_bytes(b: &[u8], pos: usize) -> (r: Option<Vec<u8>>)
    requires
        pos <= b@.len(),
    ensures
        match r {
            Some(s) => parse_one_bytes(b@.skip(pos as int)) == Some(s@),
            None => parse_one_bytes(b@.skip(pos as int)) is None,
        },
{
    match read_bytes(b, pos) {
        Some((s, p)) => if p == b.len() {
            Some(s)
        } else {
            None
        },
        None => None,
    }
}

/// Whether a type tag names a message this client understands.
pub fn known_tag(tag: u16) -> (r: bool)
    ensures
        r == is_known_tag(tag),
{
    tag == TAG_AUTHENTICATE || tag == TAG_PING || tag == TAG_REJECT || tag == TAG_SERVER_SYNC
        || tag == TAG_USER_REMOVE || tag == TAG_USER_STATE || tag == TAG_TEXT_MESSAGE
        || tag == TAG_LIKE || tag == TAG_USER_IMAGE
}

fn read_payload(tag: u16, b: &[u8], pos: usize) -> (r: Option<Message>)
    requires
        pos <= b@.len(),
        is_known_tag(tag),
    ensures
        match r {
            Some(m) => parse_payload(tag, b@.skip(pos as int)) == Some(m@),
            None => parse_payload(tag, b@.skip(pos as int)) is None,
        },
{
    if tag == TAG_AUTHENTICATE {
        match read_one_bytes(b, pos) {
            Some(username) => Some(Message::Authenticate { username }),
            None => None,
        }
    } else if tag == TAG_LIKE {
        match read_one_bytes(b, pos) {
            Some(message_id) => Some(Message::Like { message_id }),
            None => None,
        }
    } else if tag == TAG_USER_IMAGE {
        let (mime, p1) = match read_bytes(b, pos) {
            Some(x) => x,
            None => return None,
        };
        match read_one_bytes(b, p1) {
            Some(image) => Some(Message::UserImage { mime, image }),
            None => None,
        }
    } else if tag == TAG_PING {
        read_ping(b, pos)
    } else if tag == TAG_REJECT {
        match read_one_u32(b, pos) {
            Some(reason) => Some(Message::Reject { reason }),
            None => None,
        }
    } else if tag == TAG_SERVER_SYNC {
        match read_one_u32(b, pos) {
            Some(session) => Some(Message::ServerSync { session }),
            None => None,
        }
    } else if tag == TAG_USER_REMOVE {
        match read_one_u32(b, pos) {
            Some(session) => Some(Message::UserRemove { session }),
            None => None,
        }
    } else if tag == TAG_USER_STATE {
        match read_user_state(b, pos) {
            Some(u) => Some(Message::UserState(u)),
            None => None,
        }
    } else {
        read_text_message(b, pos)
    }
}

/// How many bytes the frame at the front of `b` takes in all, once its header is there.
/// A reading loop buffers until it holds that many bytes, then decodes exactly those.
pub fn frame_size(b: &[u8]) -> (r: Option<u64>)
    ensures
        b@.len() < HEADER_LEN ==> r is None,
        b@.len() >= HEADER_LEN ==> r == Some((HEADER_LEN + declared_len(b@)) as u64),
{
    if b.len() < HEADER_LEN {
        None
    } else {
        let n = u32_from_le_bytes(slice_subrange(b, 2, 6));
        Some(HEADER_LEN as u64 + n as u64)
    }
}

/// Turns one whole frame back into a message.
pub fn decode(b: &[u8]) -> (r: Result<Message, DecodeError>)
    ensures
        match r {
            Ok(m) => spec_decode(b@) == Ok::<MessageModel, DecodeError>(m@),
            Err(e) => spec_decode(b@) == Err::<MessageModel, DecodeError>(e),
        },
{
    if b.len() < HEADER_LEN {
        return Err(DecodeError::MalformedFrame);
    }
    let n = u32_from_le_bytes(slice_subrange(b, 2, 6));
    if (b.len() - HEADER_LEN) as u64 != n as u64 {
        return Err(DecodeError::MalformedFrame);
    }
    let tag = u16_from_le_bytes(slice_subrange(b, 0, 2));
    assert(b@.subrange(0, 2) =~= b@.take(2));
    if !known_tag(tag) {
        return Err(DecodeError::UnknownMessageType);
    }
    match read_payload(tag, b, HEADER_LEN) {
        Some(m) => Ok(m),
        None => Err(DecodeError::PayloadDecodeError),
    }
}


// ---------------------------------------------------------------------------
// What the readers accept is exactly what the writers produce
// ---------------------------------------------------------------------------

proof fn lemma_take_u32_canonical(s: Seq<u8>)
    requires
        take_u32(s) is Some,
    ensures
        s == enc_u32(take_u32(s).unwrap().0) + take_u32(s).unwrap().1,
{
    lemma_auto_spec_u32_to_from_le_bytes();
    assert(s.take(4).len() == 4);
    assert(s =~= s.take(4) + s.skip(4));
}

proof fn lemma_take_u64_canonical(s: Seq<u8>)
    requires
        take_u64(s) is Some,
    ensures
        s == enc_u64(take_u64(s).unwrap().0) + take_u64(s).unwrap().1,
{
    lemma_auto_spec_u64_to_from_le_bytes();
    assert(s.take(8).len() == 8);
    assert(s =~= s.take(8) + s.skip(8));
}

proof fn lemma_take_opt_u32_canonical(s: Seq<u8>)
    requires
        take_opt_u32(s) is Some,
    ensures
        s == enc_opt_u32(take_opt_u32(s).unwrap().0) + take_opt_u32(s).unwrap().1,
{
    if s[0] == 0 {
        assert(s =~= seq![0u8] + s.skip(1));
    } else {
        lemma_take_u32_canonical(s.skip(1));
        assert(s =~= seq![1u8] + s.skip(1));
    }
}

proof fn lemma_take_opt_bool_canonical(s: Seq<u8>)
    requires
        take_opt_bool(s) is Some,
    ensures
        s == enc_opt_bool(take_opt_bool(s).unwrap().0) + take_opt_bool(s).unwrap().1,
{
    assert(s =~= seq![s[0]] + s.skip(1));
}

proof fn lemma_take_bytes_canonical(s: Seq<u8>)
    requires
        take_bytes(s) is Some,
    ensures
        s == enc_bytes(take_bytes(s).unwrap().0) + take_bytes(s).unwrap().1,
        bytes_fit(take_bytes(s).unwrap().0),
{
    lemma_take_u32_canonical(s);
    let (n, r) = take_u32(s).unwrap();
    assert(r.take(n as int).len() == n);
    assert(r =~= r.take(n as int) + r.skip(n as int));
    assert(s =~= enc_bytes(r.take(n as int)) + r.skip(n as int));
}

proof fn lemma_take_opt_bytes_canonical(s: Seq<u8>)
    requires
        take_opt_bytes(s) is Some,
    ensures
        s == enc_opt_bytes(take_opt_bytes(s).unwrap().0) + take_opt_bytes(s).unwrap().1,
        opt_bytes_fit(take_opt_bytes(s).unwrap().0),
{
    if s[0] == 0 {
        assert(s =~= seq![0u8] + s.skip(1));
    } else {
        lemma_take_bytes_canonical(s.skip(1));
        assert(s =~= seq![1u8] + s.skip(1));
    }
}

proof fn lemma_parse_one_u32_canonical(p: Seq<u8>)
    requires
        parse_one_u32(p) is Some,
    ensures
        p == enc_u32(parse_one_u32(p).unwrap()),
{
    lemma_take_u32_canonical(p);
    assert(p =~= enc_u32(parse_one_u32(p).unwrap()));
}

/// A payload that parses is the payload of what it parses to, under that message's tag.
pub proof fn lemma_parse_payload_canonical(tag: u16, p: Seq<u8>)
    requires
        parse_payload(tag, p) is Some,
        p.len() <= u32::MAX,
    ensures
        payload_of(parse_payload(tag, p).unwrap()) == p,
        tag_of(parse_payload(tag, p).unwrap()) == tag || !is_known_tag(tag),
        well_formed(parse_payload(tag, p).unwrap()),
{
    if tag == TAG_USER_IMAGE {
        lemma_take_bytes_canonical(p);
        let r1 = take_bytes(p).unwrap().1;
        lemma_take_bytes_canonical(r1);
        assert(r1 =~= enc_bytes(take_bytes(r1).unwrap().0));
    } else if tag == TAG_AUTHENTICATE || tag == TAG_LIKE {
        lemma_take_bytes_canonical(p);
        assert(p =~= enc_bytes(take_bytes(p).unwrap().0));
    } else if tag == TAG_PING {
        lemma_take_u64_canonical(p);
        let r1 = take_u64(p).unwrap().1;
        lemma_take_u32_canonical(r1);
        let r2 = take_u32(r1).unwrap().1;
        lemma_take_u32_canonical(r2);
        let r3 = take_u32(r2).unwrap().1;
        lemma_take_u32_canonical(r3);
        let r4 = take_u32(r3).unwrap().1;
        lemma_take_u32_canonical(r4);
        let r5 = take_u32(r4).unwrap().1;
        lemma_take_u32_canonical(r5);
        let r6 = take_u32(r5).unwrap().1;
        lemma_parse_one_u32_canonical(r6);
    } else if tag == TAG_REJECT || tag == TAG_SERVER_SYNC || tag == TAG_USER_REMOVE {
        lemma_parse_one_u32_canonical(p);
    } else if tag == TAG_USER_STATE {
        lemma_take_u32_canonical(p);
        let r1 = take_u32(p).unwrap().1;
        lemma_take_opt_bytes_canonical(r1);
        let r2 = take_opt_bytes(r1).unwrap().1;
        lemma_take_opt_u32_canonical(r2);
        let r3 = take_opt_u32(r2).unwrap().1;
        lemma_take_opt_bool_canonical(r3);
        let r4 = take_opt_bool(r3).unwrap().1;
        lemma_take_opt_bool_canonical(r4);
        let r5 = take_opt_bool(r4).unwrap().1;
        assert(r4 =~= enc_opt_bool(take_opt_bool(r4).unwrap().0));
    } else {
        lemma_take_opt_u32_canonical(p);
        let r1 = take_opt_u32(p).unwrap().1;
        lemma_take_opt_u32_canonical(r1);
        let r2 = take_opt_u32(r1).unwrap().1;
        lemma_take_bytes_canonical(r2);
        assert(r2 =~= enc_bytes(take_bytes(r2).unwrap().0));
    }
}

// ---------------------------------------------------------------------------
// Laws of the codec
// ---------------------------------------------------------------------------

/// A buffer decodes to a message exactly when it is that message's frame.
pub proof fn lemma_decode_ok_iff_frame(b: Seq<u8>, m: MessageModel)
    ensures
        spec_decode(b) == Ok::<MessageModel, DecodeError>(m) <==> (well_formed(m) && b
            == frame_of(m)),
{
    if spec_decode(b) == Ok::<MessageModel, DecodeError>(m) {
        let p = b.skip(HEADER_LEN as int);
        lemma_parse_payload_canonical(frame_tag(b), p);
        lemma_auto_spec_u16_to_from_le_bytes();
        lemma_auto_spec_u32_to_from_le_bytes();
        assert(b.take(2).len() == 2);
        assert(b.subrange(2, 6).len() == 4);
        assert(b =~= b.take(2) + (b.subrange(2, 6) + p));
    }
    if well_formed(m) && b == frame_of(m) {
        lemma_decode_frame_of(m);
    }
}

/// A frame cut short anywhere before its end is refused as malformed.
pub proof fn lemma_truncated_frame(m: MessageModel, k: nat)
    requires
        well_formed(m),
        k < frame_of(m).len(),
    ensures
        spec_decode(frame_of(m).take(k as int)) == Err::<MessageModel, DecodeError>(
            DecodeError::MalformedFrame,
        ),
{
    let b = frame_of(m);
    let t = b.take(k as int);
    lemma_auto_spec_u32_to_from_le_bytes();
    lemma_auto_spec_u16_to_from_le_bytes();
    lemma_take_u32(payload_of(m).len() as u32, payload_of(m));
    assert(b.len() == HEADER_LEN + payload_of(m).len());
    if k >= HEADER_LEN {
        assert(t.subrange(2, 6) =~= b.subrange(2, 6));
        assert(b.subrange(2, 6) =~= enc_u32(payload_of(m).len() as u32));
    }
}

/// Any buffer shorter than its header, or shorter than the length its header declares,
/// is refused as malformed.
pub proof fn lemma_short_buffer(b: Seq<u8>)
    requires
        b.len() < HEADER_LEN || b.len() < HEADER_LEN + declared_len(b),
    ensures
        spec_decode(b) == Err::<MessageModel, DecodeError>(DecodeError::MalformedFrame),
{
}

/// A whole frame with a tag outside the known set is refused as of unknown type.
pub proof fn lemma_unknown_tag(b: Seq<u8>)
    requires
        frame_complete(b),
        !is_known_tag(frame_tag(b)),
    ensures
        spec_decode(b) == Err::<MessageModel, DecodeError>(DecodeError::UnknownMessageType),
{
}

/// A whole frame with a known tag, whose payload is the payload of no well-formed message
/// of that tag, is refused as a payload that does not decode.
pub proof fn lemma_schema_violation(b: Seq<u8>)
    requires
        frame_complete(b),
        is_known_tag(frame_tag(b)),
        forall|m: MessageModel|
            well_formed(m) && tag_of(m) == frame_tag(b) ==> payload_of(m) != b.skip(
                HEADER_LEN as int,
            ),
    ensures
        spec_decode(b) == Err::<MessageModel, DecodeError>(DecodeError::PayloadDecodeError),
{
    let p = b.skip(HEADER_LEN as int);
    if parse_payload(frame_tag(b), p) is Some {
        lemma_parse_payload_canonical(frame_tag(b), p);
        let m = parse_payload(frame_tag(b), p).unwrap();
        assert(well_formed(m) && tag_of(m) == frame_tag(b));
    }
}

} // verus!
