use crate::codec::{decode, spec_decode, DecodeError, Message, MessageModel, UserStateModel};
use crate::roster::{copy_user, lookup, merge_patch, Roster};
use vstd::prelude::*;

verus! {

/// What one inbound message does to the roster.
pub open spec fn apply_message(
    m: Map<u32, UserStateModel>,
    msg: MessageModel,
) -> Map<u32, UserStateModel> {
    match msg {
        MessageModel::UserState(u) => m.insert(u.session, merge_patch(lookup(m, u.session), u)),
        MessageModel::UserRemove { session } => m.remove(session),
        _ => m,
    }
}

/// The roster after a run of messages, applied in order.
pub open spec fn apply_all(
    m: Map<u32, UserStateModel>,
    msgs: Seq<MessageModel>,
) -> Map<u32, UserStateModel>
    decreases msgs.len(),
{
    if msgs.len() == 0 {
        m
    } else {
        apply_message(apply_all(m, msgs.drop_last()), msgs.last())
    }
}

/// The messages that a run of frames carries, in order; frames that do not decode drop out.
pub open spec fn decoded_messages(frames: Seq<Seq<u8>>) -> Seq<MessageModel>
    decreases frames.len(),
{
    if frames.len() == 0 {
        Seq::empty()
    } else {
        let rest = decoded_messages(frames.drop_last());
        match spec_decode(frames.last()) {
            Ok(m) => rest.push(m),
            Err(_) => rest,
        }
    }
}

/// Decodes one inbound frame and applies it to the roster. A frame that does not decode
/// leaves the roster as it was.
pub fn dispatch_frame(roster: &mut Roster, frame: &[u8]) -> (r: Result<Message, DecodeError>)
    requires
        old(roster).wf(),
    ensures
        final(roster).wf(),
        match r {
            Ok(m) => spec_decode(frame@) == Ok::<MessageModel, DecodeError>(m@) && final(roster)@
                == apply_message(old(roster)@, m@),
            Err(e) => spec_decode(frame@) == Err::<MessageModel, DecodeError>(e)
                && final(roster)@ == old(roster)@,
        },
{
    let r = decode(frame);
    if let Ok(m) = &r {
        match m {
            Message::UserState(u) => roster.apply_user_state(copy_user(u)),
            Message::UserRemove { session } => roster.remove_user(*session),
            _ => {},
        }
    }
    r
}

/// Processes inbound frames in arrival order: hands back the messages that decoded, in
/// that order, with the roster updated by each in turn.
pub fn dispatch_all(roster: &mut Roster, frames: &Vec<Vec<u8>>) -> (delivered: Vec<Message>)
    requires
        old(roster).wf(),
    ensures
        final(roster).wf(),
        delivered@.map_values(|m: Message| m@) == decoded_messages(
            frames@.map_values(|f: Vec<u8>| f@),
        ),
        final(roster)@ == apply_all(
            old(roster)@,
            decoded_messages(frames@.map_values(|f: Vec<u8>| f@)),
        ),
{
    let ghost all = frames@.map_values(|f: Vec<u8>| f@);
    let mut delivered: Vec<Message> = Vec::new();
    let mut i: usize = 0;
    assert(all.take(0) =~= Seq::<Seq<u8>>::empty());
    assert(delivered@.map_values(|m: Message| m@) =~= Seq::<MessageModel>::empty());
    while i < frames.len()
        invariant
            i <= frames@.len(),
            all == frames@.map_values(|f: Vec<u8>| f@),
            roster.wf(),
            delivered@.map_values(|m: Message| m@) == decoded_messages(all.take(i as int)),
            roster@ == apply_all(old(roster)@, decoded_messages(all.take(i as int))),
        decreases frames@.len() - i,
    {
        assert(all.take(i + 1).drop_last() =~= all.take(i as int));
        assert(all.take(i + 1).last() == frames@[i as int]@);
        let ghost before = delivered@.map_values(|m: Message| m@);
        match dispatch_frame(roster, frames[i].as_slice()) {
            Ok(m) => {
                let ghost mm = m@;
                delivered.push(m);
                assert(delivered@.map_values(|m: Message| m@) =~= before.push(mm));
                assert(before.push(mm).drop_last() =~= before);
            },
            Err(_) => {},
        }
        i = i + 1;
    }
    assert(all.take(frames@.len() as int) =~= all);
    delivered
}


/// A frame that does not decode, wherever it stands in the inbound stream, changes neither
/// which messages are delivered, nor their order, nor the roster they leave behind.
pub proof fn lemma_bad_frame_changes_nothing(
    before: Seq<Seq<u8>>,
    bad: Seq<u8>,
    after: Seq<Seq<u8>>,
    m: Map<u32, UserStateModel>,
)
    requires
        spec_decode(bad) is Err,
    ensures
        decoded_messages(before.push(bad) + after) == decoded_messages(before + after),
        apply_all(m, decoded_messages(before.push(bad) + after)) == apply_all(
            m,
            decoded_messages(before + after),
        ),
    decreases after.len(),
{
    if after.len() == 0 {
        assert(before.push(bad) + after =~= before.push(bad));
        assert(before + after =~= before);
        assert(before.push(bad).drop_last() =~= before);
    } else {
        lemma_bad_frame_changes_nothing(before, bad, after.drop_last(), m);
        assert((before.push(bad) + after).drop_last() =~= before.push(bad) + after.drop_last());
        assert((before + after).drop_last() =~= before + after.drop_last());
    }
}

} // verus!
