//! The service-wide laws, each proved over the spec-level table that the
//! operations' own contracts speak of.
//!
//! Laws that concern a single operation stand as that operation's `ensures`
//! (fetching an absent id or username yields the not-found envelope and
//! never a storage failure; confirming succeeds exactly on the stored
//! password; a mismatched old password fails with its own message and
//! leaves the table unchanged). The laws here relate several operations.

use vstd::prelude::*;

use crate::model::UserView;
use crate::store::{
    has_id, ids_distinct, lemma_remove_id_absent, lemma_remove_id_distinct, lemma_remove_id_gone,
    lemma_remove_id_len, lemma_remove_id_other, lemma_row_with_id_at, lemma_row_with_id_indexes,
    lemma_set_password_lookup, password_matches, remove_id, row_with_id, set_password,
    usernames_distinct,
};

verus! {

/// Law: a user just created is fetched back by its returned id with the
/// username and password it was created with, and its id is distinct from
/// every id the table held before; every other lookup is untouched.
pub proof fn lemma_created_user_is_fetchable(pre: Seq<UserView>, u: UserView)
    requires
        ids_distinct(pre),
        !has_id(pre, u.id),
    ensures
        row_with_id(pre.push(u), u.id) == Some(u),
        forall|i: int| 0 <= i < pre.len() ==> (#[trigger] pre[i]).id != u.id,
        forall|other: Seq<char>| other != u.id ==> row_with_id(pre.push(u), other) == row_with_id(
            pre,
            other,
        ),
{
    let post = pre.push(u);
    lemma_row_with_id_indexes(pre, u.id);
    assert forall|j: int| 0 <= j < pre.len() implies post[j].id != u.id by {
        assert(post[j] == pre[j]);
    }
    lemma_row_with_id_at(post, u.id, pre.len() as int);
    assert forall|other: Seq<char>| other != u.id implies row_with_id(post, other) == row_with_id(
        pre,
        other,
    ) by {
        lemma_push_preserves_other_lookup(pre, u, other);
    }
}

/// Appending a row leaves the lookup of every other id as it was.
proof fn lemma_push_preserves_other_lookup(pre: Seq<UserView>, u: UserView, other: Seq<char>)
    requires
        other != u.id,
    ensures
        row_with_id(pre.push(u), other) == row_with_id(pre, other),
    decreases pre.len(),
{
    let post = pre.push(u);
    if pre.len() == 0 {
        assert(post.drop_first() =~= pre);
    } else {
        assert(post[0] == pre[0]);
        if pre[0].id != other {
            assert(post.drop_first() =~= pre.drop_first().push(u));
            lemma_push_preserves_other_lookup(pre.drop_first(), u, other);
        }
    }
}

/// Law: after a password update with the correct old password, confirming
/// the new password succeeds, and confirming the old one fails whenever the
/// two differ. (When the new password equals the old one, confirming the
/// old password naturally still succeeds.)
pub proof fn lemma_update_then_confirm(
    rows: Seq<UserView>,
    id: Seq<char>,
    old_pw: Seq<char>,
    new_pw: Seq<char>,
)
    requires
        password_matches(rows, id, old_pw),
    ensures
        password_matches(set_password(rows, id, new_pw), id, new_pw),
        old_pw != new_pw ==> !password_matches(set_password(rows, id, new_pw), id, old_pw),
{
    lemma_row_with_id_indexes(rows, id);
    lemma_set_password_lookup(rows, id, new_pw, id);
}

/// Law: a password update touches no other user — any other id keeps both
/// its presence and its stored password.
pub proof fn lemma_update_leaves_others(
    rows: Seq<UserView>,
    id: Seq<char>,
    new_pw: Seq<char>,
    other: Seq<char>,
)
    requires
        other != id,
    ensures
        row_with_id(set_password(rows, id, new_pw), other) == row_with_id(rows, other),
{
    lemma_row_with_id_indexes(rows, other);
    lemma_set_password_lookup(rows, id, new_pw, other);
}

/// Law: deleting a user makes a subsequent fetch of its id come back
/// not-found, while every other id's lookup is untouched; deleting an
/// absent id leaves the table exactly as it was.
pub proof fn lemma_delete_semantics(rows: Seq<UserView>, id: Seq<char>, other: Seq<char>)
    ensures
        !has_id(remove_id(rows, id), id),
        other != id ==> row_with_id(remove_id(rows, id), other) == row_with_id(rows, other),
        !has_id(rows, id) ==> remove_id(rows, id) == rows,
{
    lemma_remove_id_gone(rows, id);
    if other != id {
        lemma_remove_id_other(rows, id, other);
    }
    if !has_id(rows, id) {
        lemma_remove_id_absent(rows, id);
    }
}

/// The table after deleting each id of a list in turn.
pub open spec fn remove_each(rows: Seq<UserView>, ids: Seq<Seq<char>>) -> Seq<UserView>
    decreases ids.len(),
{
    if ids.len() == 0 {
        rows
    } else {
        remove_each(remove_id(rows, ids[0]), ids.drop_first())
    }
}

/// Law: out of a table of N users, deleting M of them — M distinct ids,
/// each present — leaves exactly N - M users, and the listing returns all
/// of them. (A table of N users is built by N successful creates, each of
/// which appends exactly one row.)
pub proof fn lemma_listing_after_deletes(rows: Seq<UserView>, ids: Seq<Seq<char>>)
    requires
        ids_distinct(rows),
        usernames_distinct(rows),
        forall|k1: int, k2: int| 0 <= k1 < k2 < ids.len() ==> ids[k1] != ids[k2],
        forall|k: int| 0 <= k < ids.len() ==> has_id(rows, #[trigger] ids[k]),
    ensures
        remove_each(rows, ids).len() + ids.len() == rows.len(),
    decreases ids.len(),
{
    if ids.len() > 0 {
        let first = ids[0];
        let rest = ids.drop_first();
        let shrunk = remove_id(rows, first);
        lemma_remove_id_len(rows, first);
        lemma_remove_id_distinct(rows, first);
        assert forall|k: int| 0 <= k < rest.len() implies has_id(shrunk, #[trigger] rest[k]) by {
            assert(rest[k] == ids[k + 1]);
            lemma_remove_id_other(rows, first, rest[k]);
        }
        assert forall|k1: int, k2: int| 0 <= k1 < k2 < rest.len() implies rest[k1] != rest[k2] by {
            assert(rest[k1] == ids[k1 + 1]);
            assert(rest[k2] == ids[k2 + 1]);
        }
        lemma_listing_after_deletes(shrunk, rest);
    }
}

} // verus!
