//! The relational data model: the four entity tables, the error taxonomy,
//! and the well-formedness invariant that every reducer preserves.

use vstd::prelude::*;

verus! {

/// One row per known identity. A row exists iff the identity is currently
/// connected. The identity is an opaque stable identifier, held here as a
/// plain integer; `name` is absent until the user explicitly sets one.
pub struct User {
    pub identity: u64,
    pub name: Option<String>,
}

/// One row per chat room. `id` is a surrogate key assigned by the store's
/// auto-increment counter; `created_by` is immutable after creation and
/// `name` is never empty. Rooms are never deleted.
pub struct GroupChat {
    pub id: u32,
    pub name: String,
    pub created_by: u64,
}

/// A many-to-many join row between a user and a group chat. At most one row
/// exists for any `(identity, groupchat_id)` pair.
#[derive(Clone, Copy, PartialEq, Eq, Structural, Debug)]
pub struct GroupChatMembership {
    pub id: u32,
    pub identity: u64,
    pub groupchat_id: u32,
}

/// An immutable chat event: appended by `send_message`, never updated or
/// deleted. `sent` is the logical timestamp the platform supplied at
/// insertion time; `text` is never empty.
pub struct Message {
    pub sender: u64,
    pub sent: u64,
    pub text: String,
    pub groupchat_id: u32,
}

/// The closed error taxonomy of the reducer layer.
#[derive(PartialEq, Eq, Structural, Clone, Copy, Debug)]
pub enum ChatError {
    /// A name or message body was empty.
    EmptyInput,
    /// The referenced group chat does not exist.
    NotFound,
    /// A duplicate `join_groupchat` for the same `(identity, groupchat_id)`.
    AlreadyMember,
    /// Rename by a non-creator, or posting without a membership.
    Forbidden,
    /// The caller has no `User` row although one is required.
    UnknownUser,
}

/// The whole relational store: the four tables plus the store-owned
/// auto-increment counters for the two surrogate keys.
pub struct ChatDb {
    pub users: Vec<User>,
    pub groupchats: Vec<GroupChat>,
    pub memberships: Vec<GroupChatMembership>,
    pub messages: Vec<Message>,
    pub next_groupchat_id: u32,
    pub next_membership_id: u32,
}

/// Some user row carries this identity.
pub open spec fn has_user(users: Seq<User>, identity: u64) -> bool {
    exists|i: int| 0 <= i < users.len() && users[i].identity == identity
}

/// Some group-chat row carries this id.
pub open spec fn has_chat(chats: Seq<GroupChat>, id: u32) -> bool {
    exists|i: int| 0 <= i < chats.len() && chats[i].id == id
}

/// The index of the group-chat row with this id (meaningful when unique).
pub open spec fn chat_index(chats: Seq<GroupChat>, id: u32) -> int {
    choose|i: int| 0 <= i < chats.len() && chats[i].id == id
}

/// The predicate selecting the membership rows of one
/// `(identity, groupchat_id)` pair.
pub open spec fn membership_pair(identity: u64, groupchat_id: u32) -> spec_fn(
    GroupChatMembership,
) -> bool {
    |m: GroupChatMembership| m.identity == identity && m.groupchat_id == groupchat_id
}

/// How many membership rows exist for this `(identity, groupchat_id)` pair.
pub open spec fn pair_count(
    memberships: Seq<GroupChatMembership>,
    identity: u64,
    groupchat_id: u32,
) -> nat {
    memberships.filter(membership_pair(identity, groupchat_id)).len()
}

/// A membership row for this `(identity, groupchat_id)` pair exists.
pub open spec fn is_member(
    memberships: Seq<GroupChatMembership>,
    identity: u64,
    groupchat_id: u32,
) -> bool {
    exists|i: int|
        0 <= i < memberships.len() && memberships[i].identity == identity
            && memberships[i].groupchat_id == groupchat_id
}

impl ChatDb {
    /// User identities are primary keys: pairwise distinct.
    pub open spec fn users_wf(self) -> bool {
        forall|i: int, j: int|
            0 <= i < j < self.users@.len() ==> self.users@[i].identity != self.users@[j].identity
    }

    /// Group-chat ids are pairwise-distinct primary keys below the
    /// auto-increment counter, and chat names are never empty.
    pub open spec fn groupchats_wf(self) -> bool {
        &&& forall|i: int, j: int|
            0 <= i < j < self.groupchats@.len() ==> self.groupchats@[i].id != self.groupchats@[j].id
        &&& forall|i: int|
            0 <= i < self.groupchats@.len() ==> self.groupchats@[i].id < self.next_groupchat_id
        &&& forall|i: int| 0 <= i < self.groupchats@.len() ==> self.groupchats@[i].name@.len() > 0
    }

    /// Membership ids are pairwise-distinct primary keys below the
    /// auto-increment counter, `(identity, groupchat_id)` pairs are unique,
    /// and every row references an existing user and an existing chat.
    pub open spec fn memberships_wf(self) -> bool {
        &&& forall|i: int, j: int|
            0 <= i < j < self.memberships@.len()
                ==> self.memberships@[i].id != self.memberships@[j].id
        &&& forall|i: int|
            0 <= i < self.memberships@.len()
                ==> self.memberships@[i].id < self.next_membership_id
        &&& forall|i: int, j: int|
            0 <= i < j < self.memberships@.len()
                ==> !(self.memberships@[i].identity == self.memberships@[j].identity
                    && self.memberships@[i].groupchat_id == self.memberships@[j].groupchat_id)
        &&& forall|i: int|
            0 <= i < self.memberships@.len()
                ==> has_user(self.users@, #[trigger] self.memberships@[i].identity)
        &&& forall|i: int|
            0 <= i < self.memberships@.len()
                ==> has_chat(self.groupchats@, #[trigger] self.memberships@[i].groupchat_id)
    }

    /// Message bodies are never empty and every message references a chat
    /// that existed at insertion time (chats are never deleted).
    pub open spec fn messages_wf(self) -> bool {
        &&& forall|i: int| 0 <= i < self.messages@.len() ==> self.messages@[i].text@.len() > 0
        &&& forall|i: int|
            0 <= i < self.messages@.len()
                ==> has_chat(self.groupchats@, #[trigger] self.messages@[i].groupchat_id)
    }

    /// The well-formedness invariant of the whole store: established by
    /// `init` and preserved by every reducer.
    pub open spec fn wf(self) -> bool {
        &&& self.users_wf()
        &&& self.groupchats_wf()
        &&& self.memberships_wf()
        &&& self.messages_wf()
    }
}

} // verus!
