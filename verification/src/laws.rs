//! Laws of the reducer layer that relate several operations. Each lemma
//! takes the states before and after the calls it speaks of, with the
//! reducers' own transition predicates as premises, and proves what must
//! hold of the final state.

use vstd::prelude::*;
use crate::model::{
    ChatDb, ChatError, GroupChat, GroupChatMembership, has_chat, has_user, is_member,
    membership_pair, pair_count,
};
use crate::reducers::{
    connected_post, create_groupchat_post, disconnected_post, join_groupchat_post, membership_kept,
    set_group_chat_name_post,
};

verus! {

/// A connect followed immediately by a disconnect of the same identity
/// leaves no `User` row and no membership row for that identity.
pub proof fn lemma_connect_then_disconnect(db0: ChatDb, db1: ChatDb, db2: ChatDb, caller: u64)
    requires
        db0.wf(),
        db1.wf(),
        connected_post(db0, db1, caller),
        disconnected_post(db1, db2, caller),
    ensures
        !has_user(db2.users@, caller),
        forall|j: int|
            0 <= j < db2.memberships@.len() ==> db2.memberships@[j].identity != caller,
{
    let pred = membership_kept(caller);
    assert forall|j: int|
        0 <= j < db2.memberships@.len() implies db2.memberships@[j].identity != caller by {
        db1.memberships@.lemma_filter_pred(pred, j);
    };
    if has_user(db1.users@, caller) {
        let i = choose|i: int|
            0 <= i < db1.users@.len() && db1.users@[i].identity == caller && db2.users@
                == db1.users@.remove(i);
        db1.users@.remove_ensures(i);
        assert forall|k: int|
            0 <= k < db2.users@.len() implies db2.users@[k].identity != caller by {
            if k < i {
                assert(db2.users@[k] == db1.users@[k]);
            } else {
                assert(db2.users@[k] == db1.users@[k + 1]);
            }
        };
    }
}

/// `join_groupchat` is idempotent-safe: after a successful join, a second
/// join of the same pair fails with `AlreadyMember`, changes nothing, and
/// exactly one membership row for the pair exists.
pub proof fn lemma_join_twice(
    db0: ChatDb,
    db1: ChatDb,
    db2: ChatDb,
    caller: u64,
    groupchat_id: u32,
    r1: Result<(), ChatError>,
    r2: Result<(), ChatError>,
)
    requires
        db0.wf(),
        join_groupchat_post(db0, db1, caller, groupchat_id, r1),
        join_groupchat_post(db1, db2, caller, groupchat_id, r2),
        r1 == Ok::<(), ChatError>(()),
    ensures
        r2 == Err::<(), ChatError>(ChatError::AlreadyMember),
        db2 == db1,
        pair_count(db2.memberships@, caller, groupchat_id) == 1,
{
    let pred = membership_pair(caller, groupchat_id);
    let row = GroupChatMembership {
        id: db0.next_membership_id,
        identity: caller,
        groupchat_id,
    };
    assert(db1.memberships@ == db0.memberships@.push(row));
    assert(db1.memberships@[db0.memberships@.len() as int] == row);
    assert(is_member(db1.memberships@, caller, groupchat_id));
    assert(has_user(db1.users@, caller) && has_chat(db1.groupchats@, groupchat_id));
    assert forall|i: int|
        0 <= i < db0.memberships@.len() implies !pred(db0.memberships@[i]) by {
        assert(!(db0.memberships@[i].identity == caller && db0.memberships@[i].groupchat_id
            == groupchat_id));
    };
    db0.memberships@.lemma_all_neg_filter_empty(pred);
    db0.memberships@.lemma_filter_push(row, pred);
    assert(db1.memberships@.filter(pred) == db0.memberships@.filter(pred).push(row));
}

/// Round trip: creating a room and then renaming it (as its creator, under
/// the id the store assigned) adds exactly one row, which ends with the new
/// name, the assigned id, and the creator unchanged.
pub proof fn lemma_create_then_rename(
    db0: ChatDb,
    db1: ChatDb,
    db2: ChatDb,
    caller: u64,
    first_name: String,
    new_name: String,
    r1: Result<(), ChatError>,
    r2: Result<(), ChatError>,
)
    requires
        db0.wf(),
        first_name@.len() > 0,
        new_name@.len() > 0,
        create_groupchat_post(db0, db1, caller, first_name, r1),
        set_group_chat_name_post(db1, db2, caller, db0.next_groupchat_id, new_name, r2),
    ensures
        r1 == Ok::<(), ChatError>(()),
        r2 == Ok::<(), ChatError>(()),
        db2.groupchats@ == db0.groupchats@.push(
            (GroupChat { id: db0.next_groupchat_id, name: new_name, created_by: caller }),
        ),
        db2.groupchats@.len() == db0.groupchats@.len() + 1,
{
    let id = db0.next_groupchat_id;
    let n = db0.groupchats@.len() as int;
    assert(db1.groupchats@[n].id == id);
    assert(has_chat(db1.groupchats@, id));
    let i = crate::model::chat_index(db1.groupchats@, id);
    assert(0 <= i < db1.groupchats@.len() && db1.groupchats@[i].id == id);
    assert(i == n) by {
        if i < n {
            assert(db1.groupchats@[i] == db0.groupchats@[i]);
            assert(db0.groupchats@[i].id < db0.next_groupchat_id);
        }
    };
    assert(db1.groupchats@[i].created_by == caller);
    assert(db2.groupchats@ =~= db0.groupchats@.push(
        (GroupChat { id, name: new_name, created_by: caller }),
    ));
}

} // verus!
