//! The reducer layer: the atomic state-transition operations of the chat
//! service. Each reducer validates its inputs, queries the store, and either
//! applies its whole mutation or fails with a `ChatError` and changes
//! nothing. The `*_post` spec functions state each transition in full; the
//! lemmas in `laws` compose them.

use vstd::prelude::*;
use crate::model::{
    ChatDb, ChatError, GroupChat, GroupChatMembership, Message, User, has_chat, has_user,
    is_member,
};

verus! {

/// Rejects an empty display name and returns a non-empty one unchanged.
pub fn validate_name(name: String) -> (r: Result<String, ChatError>)
    ensures
        name@.len() == 0 ==> r == Err::<String, ChatError>(ChatError::EmptyInput),
        name@.len() > 0 ==> r == Ok::<String, ChatError>(name),
{
    if name.as_str().is_empty() {
        Err(ChatError::EmptyInput)
    } else {
        Ok(name)
    }
}

/// Rejects an empty message body and returns a non-empty one unchanged.
pub fn validate_message(text: String) -> (r: Result<String, ChatError>)
    ensures
        text@.len() == 0 ==> r == Err::<String, ChatError>(ChatError::EmptyInput),
        text@.len() > 0 ==> r == Ok::<String, ChatError>(text),
{
    if text.as_str().is_empty() {
        Err(ChatError::EmptyInput)
    } else {
        Ok(text)
    }
}

impl ChatDb {
    /// The index of the caller's `User` row, if one exists.
    fn find_user_index(&self, identity: u64) -> (r: Option<usize>)
        ensures
            match r {
                Some(i) => i < self.users@.len() && self.users@[i as int].identity == identity,
                None => !has_user(self.users@, identity),
            },
    {
        let mut idx: usize = 0;
        while idx < self.users.len()
            invariant
                idx <= self.users@.len(),
                forall|j: int| 0 <= j < idx ==> self.users@[j].identity != identity,
            decreases self.users@.len() - idx,
        {
            if self.users[idx].identity == identity {
                return Some(idx);
            }
            idx += 1;
        }
        None
    }

    /// The index of the group-chat row with this id, if one exists.
    fn find_chat_index(&self, groupchat_id: u32) -> (r: Option<usize>)
        ensures
            match r {
                Some(i) => i < self.groupchats@.len() && self.groupchats@[i as int].id
                    == groupchat_id,
                None => !has_chat(self.groupchats@, groupchat_id),
            },
    {
        let mut idx: usize = 0;
        while idx < self.groupchats.len()
            invariant
                idx <= self.groupchats@.len(),
                forall|j: int| 0 <= j < idx ==> self.groupchats@[j].id != groupchat_id,
            decreases self.groupchats@.len() - idx,
        {
            if self.groupchats[idx].id == groupchat_id {
                return Some(idx);
            }
            idx += 1;
        }
        None
    }

    /// Whether a membership row exists for this `(identity, groupchat_id)`
    /// pair; the lookup the composite index serves in the store.
    fn has_membership(&self, identity: u64, groupchat_id: u32) -> (r: bool)
        ensures
            r == is_member(self.memberships@, identity, groupchat_id),
    {
        let mut idx: usize = 0;
        while idx < self.memberships.len()
            invariant
                idx <= self.memberships@.len(),
                forall|j: int|
                    0 <= j < idx ==> !(self.memberships@[j].identity == identity
                        && self.memberships@[j].groupchat_id == groupchat_id),
            decreases self.memberships@.len() - idx,
        {
            let m = self.memberships[idx];
            if m.identity == identity && m.groupchat_id == groupchat_id {
                return true;
            }
            idx += 1;
        }
        false
    }

    /// The empty store, as published initially: no rows, both auto-increment
    /// counters at their first value.
    pub fn init() -> (db: ChatDb)
        ensures
            db.wf(),
            db.users@.len() == 0,
            db.groupchats@.len() == 0,
            db.memberships@.len() == 0,
            db.messages@.len() == 0,
            db.next_groupchat_id == 1,
            db.next_membership_id == 1,
    {
        ChatDb {
            users: Vec::new(),
            groupchats: Vec::new(),
            memberships: Vec::new(),
            messages: Vec::new(),
            next_groupchat_id: 1,
            next_membership_id: 1,
        }
    }
}

/// What `identity_connected` does: if the caller is unknown, exactly one
/// `User` row with no name is appended; a reconnect of a known identity is a
/// true no-op. Nothing else changes.
pub open spec fn connected_post(pre: ChatDb, post: ChatDb, caller: u64) -> bool {
    if has_user(pre.users@, caller) {
        post == pre
    } else {
        &&& post.users@ == pre.users@.push((User { identity: caller, name: None }))
        &&& post.groupchats == pre.groupchats
        &&& post.memberships == pre.memberships
        &&& post.messages == pre.messages
        &&& post.next_groupchat_id == pre.next_groupchat_id
        &&& post.next_membership_id == pre.next_membership_id
    }
}

impl ChatDb {
    /// Lifecycle hook: the platform reports that `caller` connected.
    /// Materializes the caller's `User` row on first sight, afterwards
    /// `has_user` holds for the caller.
    pub fn identity_connected(&mut self, caller: u64)
        requires
            old(self).wf(),
        ensures
            final(self).wf(),
            connected_post(*old(self), *final(self), caller),
            has_user(final(self).users@, caller),
    {
        match self.find_user_index(caller) {
            Some(_) => {},
            None => {
                self.users.push(User { identity: caller, name: None });
                proof {
                    let n = self.users@.len() - 1;
                    assert(self.users@[n].identity == caller);
                    assert forall|id: u64| has_user(old(self).users@, id) implies has_user(
                        self.users@,
                        id,
                    ) by {
                        let w = choose|w: int|
                            0 <= w < old(self).users@.len() && old(self).users@[w].identity == id;
                        assert(self.users@[w].identity == id);
                    };
                }
            },
        }
    }
}

/// What `set_name` does: an empty name is rejected before anything else; a
/// caller without a `User` row is unknown; otherwise only the caller's row
/// changes, and only its `name` field.
pub open spec fn set_name_post(
    pre: ChatDb,
    post: ChatDb,
    caller: u64,
    name: String,
    r: Result<(), ChatError>,
) -> bool {
    if name@.len() == 0 {
        r == Err::<(), ChatError>(ChatError::EmptyInput) && post == pre
    } else if !has_user(pre.users@, caller) {
        r == Err::<(), ChatError>(ChatError::UnknownUser) && post == pre
    } else {
        &&& r == Ok::<(), ChatError>(())
        &&& exists|i: int|
            0 <= i < pre.users@.len() && pre.users@[i].identity == caller && post.users@
                == pre.users@.update(i, (User { identity: caller, name: Some(name) }))
        &&& post.groupchats == pre.groupchats
        &&& post.memberships == pre.memberships
        &&& post.messages == pre.messages
        &&& post.next_groupchat_id == pre.next_groupchat_id
        &&& post.next_membership_id == pre.next_membership_id
    }
}

/// What `create_groupchat` does: an empty name is rejected; otherwise one
/// new room is appended, keyed by the auto-increment counter and owned by
/// the caller. Two rooms may share a name; only the id is unique.
pub open spec fn create_groupchat_post(
    pre: ChatDb,
    post: ChatDb,
    caller: u64,
    name: String,
    r: Result<(), ChatError>,
) -> bool {
    if name@.len() == 0 {
        r == Err::<(), ChatError>(ChatError::EmptyInput) && post == pre
    } else {
        &&& r == Ok::<(), ChatError>(())
        &&& post.groupchats@ == pre.groupchats@.push(
            (GroupChat { id: pre.next_groupchat_id, name, created_by: caller }),
        )
        &&& post.next_groupchat_id == pre.next_groupchat_id + 1
        &&& post.users == pre.users
        &&& post.memberships == pre.memberships
        &&& post.messages == pre.messages
        &&& post.next_membership_id == pre.next_membership_id
    }
}

/// What `set_group_chat_name` does: an empty name is rejected, then a
/// missing room, then a caller other than the room's creator; otherwise only
/// the room's `name` changes — `id` and `created_by` are immutable.
pub open spec fn set_group_chat_name_post(
    pre: ChatDb,
    post: ChatDb,
    caller: u64,
    groupchat_id: u32,
    new_name: String,
    r: Result<(), ChatError>,
) -> bool {
    if new_name@.len() == 0 {
        r == Err::<(), ChatError>(ChatError::EmptyInput) && post == pre
    } else if !has_chat(pre.groupchats@, groupchat_id) {
        r == Err::<(), ChatError>(ChatError::NotFound) && post == pre
    } else {
        let i = crate::model::chat_index(pre.groupchats@, groupchat_id);
        if pre.groupchats@[i].created_by != caller {
            r == Err::<(), ChatError>(ChatError::Forbidden) && post == pre
        } else {
            &&& r == Ok::<(), ChatError>(())
            &&& post.groupchats@ == pre.groupchats@.update(
                i,
                (GroupChat { id: groupchat_id, name: new_name, created_by: caller }),
            )
            &&& post.users == pre.users
            &&& post.memberships == pre.memberships
            &&& post.messages == pre.messages
            &&& post.next_groupchat_id == pre.next_groupchat_id
            &&& post.next_membership_id == pre.next_membership_id
        }
    }
}

impl ChatDb {
    /// Sets the caller's display name. Fails with `EmptyInput` on an empty
    /// name and with `UnknownUser` when the caller has no `User` row; on
    /// success only the caller's `name` field changes.
    pub fn set_name(&mut self, caller: u64, name: String) -> (r: Result<(), ChatError>)
        requires
            old(self).wf(),
        ensures
            final(self).wf(),
            set_name_post(*old(self), *final(self), caller, name, r),
    {
        let name = match validate_name(name) {
            Ok(n) => n,
            Err(e) => {
                return Err(e);
            },
        };
        match self.find_user_index(caller) {
            Some(i) => {
                self.users[i] = User { identity: caller, name: Some(name) };
                proof {
                    assert(forall|k: int|
                        0 <= k < self.users@.len() ==> self.users@[k].identity == old(
                            self,
                        ).users@[k].identity);
                    assert forall|id: u64| has_user(old(self).users@, id) implies has_user(
                        self.users@,
                        id,
                    ) by {
                        let w = choose|w: int|
                            0 <= w < old(self).users@.len() && old(self).users@[w].identity == id;
                        assert(self.users@[w].identity == id);
                    };
                }
                Ok(())
            },
            None => Err(ChatError::UnknownUser),
        }
    }

    /// Creates a new group chat owned by the caller. Fails with `EmptyInput`
    /// on an empty name; the new room's id is assigned by the store and not
    /// returned to the caller.
    pub fn create_groupchat(&mut self, caller: u64, name: String) -> (r: Result<(), ChatError>)
        requires
            old(self).wf(),
            old(self).next_groupchat_id < u32::MAX,
        ensures
            final(self).wf(),
            create_groupchat_post(*old(self), *final(self), caller, name, r),
    {
        if name.as_str().is_empty() {
            return Err(ChatError::EmptyInput);
        }
        let id = self.next_groupchat_id;
        self.groupchats.push(GroupChat { id, name, created_by: caller });
        self.next_groupchat_id = id + 1;
        proof {
            let n = self.groupchats@.len() - 1;
            assert forall|cid: u32| has_chat(old(self).groupchats@, cid) implies has_chat(
                self.groupchats@,
                cid,
            ) by {
                let w = choose|w: int|
                    0 <= w < old(self).groupchats@.len() && old(self).groupchats@[w].id == cid;
                assert(self.groupchats@[w].id == cid);
            };
        }
        Ok(())
    }

    /// Renames a group chat. Fails with `EmptyInput` on an empty name, with
    /// `NotFound` when no room has this id, and with `Forbidden` for any
    /// caller other than the room's creator; on success only the room's
    /// `name` changes.
    pub fn set_group_chat_name(
        &mut self,
        caller: u64,
        groupchat_id: u32,
        new_name: String,
    ) -> (r: Result<(), ChatError>)
        requires
            old(self).wf(),
        ensures
            final(self).wf(),
            set_group_chat_name_post(*old(self), *final(self), caller, groupchat_id, new_name, r),
    {
        if new_name.as_str().is_empty() {
            return Err(ChatError::EmptyInput);
        }
        match self.find_chat_index(groupchat_id) {
            Some(i) => {
                proof {
                    let ci = crate::model::chat_index(self.groupchats@, groupchat_id);
                    assert(has_chat(self.groupchats@, groupchat_id));
                    assert(0 <= ci < self.groupchats@.len() && self.groupchats@[ci].id
                        == groupchat_id);
                    assert(ci == i as int);
                }
                if self.groupchats[i].created_by != caller {
                    return Err(ChatError::Forbidden);
                }
                let created_by = self.groupchats[i].created_by;
                self.groupchats[i] = GroupChat { id: groupchat_id, name: new_name, created_by };
                proof {
                    assert(forall|k: int|
                        0 <= k < self.groupchats@.len() ==> self.groupchats@[k].id == old(
                            self,
                        ).groupchats@[k].id);
                    assert forall|cid: u32| has_chat(old(self).groupchats@, cid) implies has_chat(
                        self.groupchats@,
                        cid,
                    ) by {
                        let w = choose|w: int|
                            0 <= w < old(self).groupchats@.len() && old(self).groupchats@[w].id
                                == cid;
                        assert(self.groupchats@[w].id == cid);
                    };
                }
                Ok(())
            },
            None => Err(ChatError::NotFound),
        }
    }
}

/// What `join_groupchat` does: an unknown caller is rejected first, then a
/// missing room, then a duplicate join; otherwise exactly one membership row
/// for `(caller, groupchat_id)` is appended, keyed by the auto-increment
/// counter.
pub open spec fn join_groupchat_post(
    pre: ChatDb,
    post: ChatDb,
    caller: u64,
    groupchat_id: u32,
    r: Result<(), ChatError>,
) -> bool {
    if !has_user(pre.users@, caller) {
        r == Err::<(), ChatError>(ChatError::UnknownUser) && post == pre
    } else if !has_chat(pre.groupchats@, groupchat_id) {
        r == Err::<(), ChatError>(ChatError::NotFound) && post == pre
    } else if is_member(pre.memberships@, caller, groupchat_id) {
        r == Err::<(), ChatError>(ChatError::AlreadyMember) && post == pre
    } else {
        &&& r == Ok::<(), ChatError>(())
        &&& post.memberships@ == pre.memberships@.push(
            (GroupChatMembership {
                id: pre.next_membership_id,
                identity: caller,
                groupchat_id,
            }),
        )
        &&& post.next_membership_id == pre.next_membership_id + 1
        &&& post.users == pre.users
        &&& post.groupchats == pre.groupchats
        &&& post.messages == pre.messages
        &&& post.next_groupchat_id == pre.next_groupchat_id
    }
}

/// What `send_message` does: an empty body is rejected first, then a missing
/// room, then a caller without a membership for the room; otherwise exactly
/// one message row is appended, carrying the caller, the platform-assigned
/// timestamp, the body and the room.
pub open spec fn send_message_post(
    pre: ChatDb,
    post: ChatDb,
    caller: u64,
    groupchat_id: u32,
    text: String,
    now: u64,
    r: Result<(), ChatError>,
) -> bool {
    if text@.len() == 0 {
        r == Err::<(), ChatError>(ChatError::EmptyInput) && post == pre
    } else if !has_chat(pre.groupchats@, groupchat_id) {
        r == Err::<(), ChatError>(ChatError::NotFound) && post == pre
    } else if !is_member(pre.memberships@, caller, groupchat_id) {
        r == Err::<(), ChatError>(ChatError::Forbidden) && post == pre
    } else {
        &&& r == Ok::<(), ChatError>(())
        &&& post.messages@ == pre.messages@.push(
            (Message { sender: caller, sent: now, text, groupchat_id }),
        )
        &&& post.users == pre.users
        &&& post.groupchats == pre.groupchats
        &&& post.memberships == pre.memberships
        &&& post.next_groupchat_id == pre.next_groupchat_id
        &&& post.next_membership_id == pre.next_membership_id
    }
}

impl ChatDb {
    /// Joins the caller to a group chat. Fails with `UnknownUser` when the
    /// caller has no `User` row, with `NotFound` when no room has this id,
    /// and with `AlreadyMember` when a membership for the pair already
    /// exists; on success exactly one membership row is appended.
    pub fn join_groupchat(&mut self, caller: u64, groupchat_id: u32) -> (r: Result<
        (),
        ChatError,
    >)
        requires
            old(self).wf(),
            old(self).next_membership_id < u32::MAX,
        ensures
            final(self).wf(),
            join_groupchat_post(*old(self), *final(self), caller, groupchat_id, r),
    {
        if self.find_user_index(caller).is_none() {
            return Err(ChatError::UnknownUser);
        }
        if self.find_chat_index(groupchat_id).is_none() {
            return Err(ChatError::NotFound);
        }
        if self.has_membership(caller, groupchat_id) {
            return Err(ChatError::AlreadyMember);
        }
        let id = self.next_membership_id;
        self.memberships.push(GroupChatMembership { id, identity: caller, groupchat_id });
        self.next_membership_id = id + 1;
        Ok(())
    }

    /// Appends a message from the caller to a group chat, stamped with the
    /// platform-supplied logical timestamp `now`. Fails with `EmptyInput` on
    /// an empty body, with `NotFound` when no room has this id, and with
    /// `Forbidden` when the caller holds no membership for the room.
    pub fn send_message(
        &mut self,
        caller: u64,
        groupchat_id: u32,
        text: String,
        now: u64,
    ) -> (r: Result<(), ChatError>)
        requires
            old(self).wf(),
        ensures
            final(self).wf(),
            send_message_post(*old(self), *final(self), caller, groupchat_id, text, now, r),
    {
        let text = match validate_message(text) {
            Ok(t) => t,
            Err(e) => {
                return Err(e);
            },
        };
        if self.find_chat_index(groupchat_id).is_none() {
            return Err(ChatError::NotFound);
        }
        if !self.has_membership(caller, groupchat_id) {
            return Err(ChatError::Forbidden);
        }
        self.messages.push(Message { sender: caller, sent: now, text, groupchat_id });
        Ok(())
    }
}

/// The membership rows that survive a disconnect of `caller`: everyone
/// else's.
pub open spec fn membership_kept(caller: u64) -> spec_fn(GroupChatMembership) -> bool {
    |m: GroupChatMembership| m.identity != caller
}

/// What `identity_disconnected` does: every membership row of the caller is
/// deleted (the others keep their order), the caller's `User` row is deleted
/// if present (its absence is not an error), and chats, messages and the
/// counters are untouched.
pub open spec fn disconnected_post(pre: ChatDb, post: ChatDb, caller: u64) -> bool {
    &&& post.memberships@ == pre.memberships@.filter(membership_kept(caller))
    &&& if has_user(pre.users@, caller) {
        exists|i: int|
            0 <= i < pre.users@.len() && pre.users@[i].identity == caller && post.users@
                == pre.users@.remove(i)
    } else {
        post.users == pre.users
    }
    &&& post.groupchats == pre.groupchats
    &&& post.messages == pre.messages
    &&& post.next_groupchat_id == pre.next_groupchat_id
    &&& post.next_membership_id == pre.next_membership_id
}

impl ChatDb {
    /// Lifecycle hook: the platform reports that `caller` disconnected.
    /// Cascading cleanup in one transaction: all of the caller's membership
    /// rows go, then the caller's `User` row; afterwards the store holds no
    /// trace of the caller beyond the messages already sent.
    pub fn identity_disconnected(&mut self, caller: u64)
        requires
            old(self).wf(),
        ensures
            final(self).wf(),
            disconnected_post(*old(self), *final(self), caller),
            !has_user(final(self).users@, caller),
            forall|j: int|
                0 <= j < final(self).memberships@.len()
                    ==> final(self).memberships@[j].identity != caller,
    {
        let ghost s = self.memberships@;
        let ghost pred = membership_kept(caller);
        let mut kept: Vec<GroupChatMembership> = Vec::new();
        let mut idx: usize = 0;
        while idx < self.memberships.len()
            invariant
                old(self).wf(),
                *self == *old(self),
                s == old(self).memberships@,
                idx <= s.len(),
                pred == membership_kept(caller),
                kept@ == s.take(idx as int).filter(pred),
                forall|j: int| 0 <= j < kept@.len() ==> #[trigger] kept@[j].identity != caller,
                forall|j: int| #![trigger kept@[j]]
                    0 <= j < kept@.len() ==> exists|k: int| 0 <= k < idx && kept@[j] == s[k],
                forall|j1: int, j2: int|
                    0 <= j1 < j2 < kept@.len() ==> kept@[j1].id != kept@[j2].id,
                forall|j1: int, j2: int|
                    0 <= j1 < j2 < kept@.len() ==> !(kept@[j1].identity == kept@[j2].identity
                        && kept@[j1].groupchat_id == kept@[j2].groupchat_id),
            decreases s.len() - idx,
        {
            let m = self.memberships[idx];
            proof {
                assert(s.take(idx as int + 1) =~= s.take(idx as int).push(m));
                s.take(idx as int).lemma_filter_push(m, pred);
            }
            if m.identity != caller {
                proof {
                    assert forall|j: int| 0 <= j < kept@.len() implies kept@[j].id != m.id && !(
                    kept@[j].identity == m.identity && kept@[j].groupchat_id
                        == m.groupchat_id) by {
                        let k = choose|k: int| 0 <= k < idx && kept@[j] == s[k];
                        assert(old(self).memberships@[k].id != old(self).memberships@[idx as int].id);
                    };
                }
                kept.push(m);
            }
            idx += 1;
        }
        proof {
            assert(s.take(s.len() as int) =~= s);
        }
        self.memberships = kept;
        match self.find_user_index(caller) {
            Some(i) => {
                self.users.remove(i);
                proof {
                    old(self).users@.remove_ensures(i as int);
                    assert forall|id: u64|
                        id != caller && has_user(old(self).users@, id) implies has_user(
                        self.users@,
                        id,
                    ) by {
                        let w = choose|w: int|
                            0 <= w < old(self).users@.len() && old(self).users@[w].identity == id;
                        if w < i {
                            assert(self.users@[w].identity == id);
                        } else {
                            assert(self.users@[w - 1].identity == id);
                        }
                    };
                    assert forall|k: int|
                        0 <= k < self.users@.len() implies self.users@[k].identity != caller by {
                        if k < i {
                            assert(self.users@[k] == old(self).users@[k]);
                        } else {
                            assert(self.users@[k] == old(self).users@[k + 1]);
                        }
                    };
                    assert forall|j1: int, j2: int|
                        0 <= j1 < j2 < self.users@.len() implies self.users@[j1].identity
                        != self.users@[j2].identity by {
                        let o1: int = if j1 < i { j1 } else { j1 + 1 };
                        let o2: int = if j2 < i { j2 } else { j2 + 1 };
                        assert(self.users@[j1] == old(self).users@[o1]);
                        assert(self.users@[j2] == old(self).users@[o2]);
                    };
                    assert forall|j: int|
                        0 <= j < self.memberships@.len() implies has_user(
                        self.users@,
                        #[trigger] self.memberships@[j].identity,
                    ) && has_chat(self.groupchats@, self.memberships@[j].groupchat_id)
                        && self.memberships@[j].id < self.next_membership_id by {
                        let k = choose|k: int| 0 <= k < s.len() && self.memberships@[j] == s[k];
                        assert(has_user(old(self).users@, s[k].identity));
                        assert(has_chat(old(self).groupchats@, s[k].groupchat_id));
                    };
                }
            },
            None => {
                proof {
                    assert forall|j: int|
                        0 <= j < self.memberships@.len() implies has_user(
                        self.users@,
                        #[trigger] self.memberships@[j].identity,
                    ) && has_chat(self.groupchats@, self.memberships@[j].groupchat_id)
                        && self.memberships@[j].id < self.next_membership_id by {
                        let k = choose|k: int| 0 <= k < s.len() && self.memberships@[j] == s[k];
                        assert(has_user(old(self).users@, s[k].identity));
                        assert(has_chat(old(self).groupchats@, s[k].groupchat_id));
                    };
                }
            },
        }
    }
}

} // verus!
