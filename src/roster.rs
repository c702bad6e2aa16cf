use crate::codec::{bytes_opt_view, UserState, UserStateModel};
use vstd::prelude::*;

verus! {

/// Overwrites `original` with the value in `other`, if there is one.
pub fn update_if_some<T>(original: &mut T, other: Option<T>)
    ensures
        *final(original) == match other {
            Some(v) => v,
            None => *old(original),
        },
{
    if let Some(v) = other {
        *original = v;
    }
}

/// A patch field as an update of an optional field: only a present value updates.
fn present<T>(field: Option<T>) -> (r: Option<Option<T>>)
    ensures
        r == (if field is Some {
            Some(field)
        } else {
            None
        }),
{
    if field.is_some() {
        Some(field)
    } else {
        None
    }
}

/// A field after a patch: the patch's value where it has one, else the prior value.
pub open spec fn patched<T>(prior: Option<T>, update: Option<T>) -> Option<T> {
    if update is Some {
        update
    } else {
        prior
    }
}

/// Merge-patch: the fields present in `p` overwrite, the absent ones keep their prior value.
/// With no prior entry the result holds exactly the fields present in `p`.
pub open spec fn merge_patch(prior: Option<UserStateModel>, p: UserStateModel) -> UserStateModel {
    match prior {
        None => p,
        Some(o) => UserStateModel {
            session: p.session,
            name: patched(o.name, p.name),
            channel_id: patched(o.channel_id, p.channel_id),
            muted: patched(o.muted, p.muted),
            deafened: patched(o.deafened, p.deafened),
        },
    }
}

pub open spec fn lookup(m: Map<u32, UserStateModel>, session: u32) -> Option<UserStateModel> {
    if m.contains_key(session) {
        Some(m[session])
    } else {
        None
    }
}

/// The known users, keyed by the session id that the server assigned.
pub struct Roster {
    users: Vec<UserState>,
    model: Ghost<Map<u32, UserStateModel>>,
}

impl View for Roster {
    type V = Map<u32, UserStateModel>;

    closed spec fn view(&self) -> Map<u32, UserStateModel> {
        self.model@
    }
}

fn copy_bytes(v: &Vec<u8>) -> (r: Vec<u8>)
    ensures
        r@ == v@,
{
    vstd::slice::slice_to_vec(v.as_slice())
}

pub(crate) fn copy_user(u: &UserState) -> (r: UserState)
    ensures
        r@ == u@,
{
    let name = match &u.name {
        Some(n) => Some(copy_bytes(n)),
        None => None,
    };
    UserState {
        session: u.session,
        name,
        channel_id: u.channel_id,
        muted: u.muted,
        deafened: u.deafened,
    }
}

impl Roster {
    /// Each session id appears once, and the map holds exactly the stored entries.
    pub closed spec fn wf(&self) -> bool {
        &&& forall|i: int, j: int|
            0 <= i < j < self.users@.len() ==> self.users@[i].session
                != self.users@[j].session
        &&& forall|i: int|
            0 <= i < self.users@.len() ==> self.model@.contains_key(self.users@[i].session)
                && self.model@[self.users@[i].session] == self.users@[i]@
        &&& forall|id: u32|
            self.model@.contains_key(id) ==> exists|i: int|
                0 <= i < self.users@.len() && self.users@[i].session == id
    }

    pub fn new() -> (r: Roster)
        ensures
            r.wf(),
            r@ == Map::<u32, UserStateModel>::empty(),
    {
        Roster { users: Vec::new(), model: Ghost(Map::empty()) }
    }

    fn find(&self, session: u32) -> (r: Option<usize>)
        requires
            self.wf(),
        ensures
            match r {
                Some(i) => i < self.users@.len() && self.users@[i as int].session == session,
                None => !self@.contains_key(session),
            },
    {
        let mut i: usize = 0;
        while i < self.users.len()
            invariant
                i <= self.users@.len(),
                forall|j: int| 0 <= j < i ==> self.users@[j].session != session,
            decreases self.users@.len() - i,
        {
            if self.users[i].session == session {
                return Some(i);
            }
            i = i + 1;
        }
        None
    }

    /// A copy of the state known for a session id, if any.
    pub fn get(&self, session: u32) -> (r: Option<UserState>)
        requires
            self.wf(),
        ensures
            match r {
                Some(u) => self@.contains_key(session) && u@ == self@[session],
                None => !self@.contains_key(session),
            },
    {
        match self.find(session) {
            Some(i) => Some(copy_user(&self.users[i])),
            None => None,
        }
    }

    /// Applies one user-state update with merge-patch semantics.
    pub fn apply_user_state(&mut self, patch: UserState)
        requires
            old(self).wf(),
        ensures
            final(self).wf(),
            final(self)@ == old(self)@.insert(
                patch.session,
                merge_patch(lookup(old(self)@, patch.session), patch@),
            ),
    {
        let id = patch.session;
        let ghost merged = merge_patch(lookup(self@, id), patch@);
        match self.find(id) {
            Some(i) => {
                let mut e = self.users.remove(i);
                update_if_some(&mut e.name, present(patch.name));
                update_if_some(&mut e.channel_id, present(patch.channel_id));
                update_if_some(&mut e.muted, present(patch.muted));
                update_if_some(&mut e.deafened, present(patch.deafened));
                self.users.insert(i, e);
                proof {
                    assert(e@ == merged);
                    self.model@ = self.model@.insert(id, merged);
                    assert(self.users@ =~= old(self).users@.update(i as int, e));
                    assert forall|k: u32| self.model@.contains_key(k) implies exists|j: int|
                        0 <= j < self.users@.len() && self.users@[j].session == k by {
                        if k == id {
                            assert(self.users@[i as int].session == k);
                        } else {
                            let j = choose|j: int|
                                0 <= j < old(self).users@.len() && old(self).users@[j].session
                                    == k;
                            assert(self.users@[j].session == k);
                        }
                    }
                }
            },
            None => {
                self.users.push(patch);
                proof {
                    self.model@ = self.model@.insert(id, merged);
                    assert forall|k: u32| self.model@.contains_key(k) implies exists|j: int|
                        0 <= j < self.users@.len() && self.users@[j].session == k by {
                        if k == id {
                            assert(self.users@[old(self).users@.len() as int].session == k);
                        } else {
                            let j = choose|j: int|
                                0 <= j < old(self).users@.len() && old(self).users@[j].session
                                    == k;
                            assert(self.users@[j].session == k);
                        }
                    }
                }
            },
        }
    }

    /// Forgets a session id; nothing changes where it was not known.
    pub fn remove_user(&mut self, session: u32)
        requires
            old(self).wf(),
        ensures
            final(self).wf(),
            final(self)@ == old(self)@.remove(session),
    {
        match self.find(session) {
            Some(i) => {
                self.users.remove(i);
                proof {
                    self.model@ = self.model@.remove(session);
                    assert forall|k: u32| self.model@.contains_key(k) implies exists|j: int|
                        0 <= j < self.users@.len() && self.users@[j].session == k by {
                        let j = choose|j: int|
                            0 <= j < old(self).users@.len() && old(self).users@[j].session == k;
                        if j < i {
                            assert(self.users@[j].session == k);
                        } else {
                            assert(self.users@[j - 1].session == k);
                        }
                    }
                }
            },
            None => {
                assert(self@.remove(session) =~= self@);
            },
        }
    }
}


/// Merge-patch over a roster: a patch for an id not seen before creates an entry with
/// exactly the patch's fields; a second patch for that id overwrites the fields it holds and
/// keeps the others; a removal then makes the id absent.
pub proof fn lemma_patch_patch_remove(
    m: Map<u32, UserStateModel>,
    first: UserStateModel,
    second: UserStateModel,
)
    requires
        !m.contains_key(first.session),
        second.session == first.session,
    ensures
        ({
            let id = first.session;
            let m1 = m.insert(id, merge_patch(lookup(m, id), first));
            let m2 = m1.insert(id, merge_patch(lookup(m1, id), second));
            &&& lookup(m1, id) == Some(first)
            &&& lookup(m2, id) == Some(
                UserStateModel {
                    session: id,
                    name: patched(first.name, second.name),
                    channel_id: patched(first.channel_id, second.channel_id),
                    muted: patched(first.muted, second.muted),
                    deafened: patched(first.deafened, second.deafened),
                },
            )
            &&& lookup(m2.remove(id), id) is None
        }),
{
}

} // verus!
