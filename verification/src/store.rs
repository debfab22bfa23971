//! A verified model of the users table and the data-access operations
//! against it.
//!
//! The backing relational store is assumed to execute each statement
//! atomically against one table of user rows, with the schema enforcing
//! uniqueness of `id` (the key) and of `username`. This module states that
//! assumed behaviour as spec functions over a sequence of rows and provides
//! an executable table, `UserStore`, proved against them; the real
//! connection pool and SQL execution live outside the verified library.

use vstd::prelude::*;

use crate::ext::{fresh_user_id, str_eq};
use crate::model::{StorageError, User, UserView};

verus! {

// ---------------------------------------------------------------------
// What the table guarantees and what each statement does to it, in spec.
// ---------------------------------------------------------------------

/// No two rows carry the same id.
pub open spec fn ids_distinct(rows: Seq<UserView>) -> bool {
    forall|i: int, j: int| 0 <= i < j < rows.len() ==> rows[i].id != rows[j].id
}

/// No two rows carry the same username.
pub open spec fn usernames_distinct(rows: Seq<UserView>) -> bool {
    forall|i: int, j: int| 0 <= i < j < rows.len() ==> rows[i].username != rows[j].username
}

/// The first row carrying the given id, if any; with distinct ids, the only
/// one.
pub open spec fn row_with_id(rows: Seq<UserView>, id: Seq<char>) -> Option<UserView>
    decreases rows.len(),
{
    if rows.len() == 0 {
        None
    } else if rows[0].id == id {
        Some(rows[0])
    } else {
        row_with_id(rows.drop_first(), id)
    }
}

pub open spec fn has_id(rows: Seq<UserView>, id: Seq<char>) -> bool {
    row_with_id(rows, id) is Some
}

/// The first row carrying the given username, if any.
pub open spec fn row_with_username(rows: Seq<UserView>, username: Seq<char>) -> Option<UserView>
    decreases rows.len(),
{
    if rows.len() == 0 {
        None
    } else if rows[0].username == username {
        Some(rows[0])
    } else {
        row_with_username(rows.drop_first(), username)
    }
}

pub open spec fn has_username(rows: Seq<UserView>, username: Seq<char>) -> bool {
    row_with_username(rows, username) is Some
}

/// The row with the given id holds exactly this password.
pub open spec fn password_matches(rows: Seq<UserView>, id: Seq<char>, sample: Seq<char>) -> bool {
    match row_with_id(rows, id) {
        Some(u) => u.password == sample,
        None => false,
    }
}

/// What `UPDATE users SET password = .. WHERE id = ..` leaves behind: every
/// row with the id gets the new password, every other row is untouched.
pub open spec fn set_password(rows: Seq<UserView>, id: Seq<char>, new_password: Seq<char>) -> Seq<UserView> {
    Seq::new(
        rows.len(),
        |i: int|
            if rows[i].id == id {
                UserView { id: rows[i].id, username: rows[i].username, password: new_password }
            } else {
                rows[i]
            },
    )
}

/// What `DELETE FROM users WHERE id = ..` leaves behind: the rows without
/// that id, in their original order.
pub open spec fn remove_id(rows: Seq<UserView>, id: Seq<char>) -> Seq<UserView>
    decreases rows.len(),
{
    if rows.len() == 0 {
        Seq::empty()
    } else if rows[0].id == id {
        remove_id(rows.drop_first(), id)
    } else {
        seq![rows[0]] + remove_id(rows.drop_first(), id)
    }
}

// ---------------------------------------------------------------------
// Lemmas about the lookup and the two mutating statements.
// ---------------------------------------------------------------------

/// A successful lookup names a row of the sequence with the looked-up id; a
/// failed one means no row carries it.
pub proof fn lemma_row_with_id_indexes(rows: Seq<UserView>, id: Seq<char>)
    ensures
        match row_with_id(rows, id) {
            Some(u) => u.id == id && exists|i: int| 0 <= i < rows.len() && rows[i] == u,
            None => forall|i: int| 0 <= i < rows.len() ==> rows[i].id != id,
        },
    decreases rows.len(),
{
    if rows.len() > 0 && rows[0].id != id {
        let rest = rows.drop_first();
        lemma_row_with_id_indexes(rest, id);
        match row_with_id(rest, id) {
            Some(u) => {
                let i = choose|i: int| 0 <= i < rest.len() && rest[i] == u;
                assert(rows[i + 1] == u);
            },
            None => {
                assert forall|i: int| 0 <= i < rows.len() implies rows[i].id != id by {
                    if i > 0 {
                        assert(rest[i - 1] == rows[i]);
                    }
                }
            },
        }
    }
}

/// The lookup returns the row at the first index whose id matches.
pub proof fn lemma_row_with_id_at(rows: Seq<UserView>, id: Seq<char>, i: int)
    requires
        0 <= i < rows.len(),
        rows[i].id == id,
        forall|j: int| 0 <= j < i ==> rows[j].id != id,
    ensures
        row_with_id(rows, id) == Some(rows[i]),
    decreases i,
{
    if i > 0 {
        let rest = rows.drop_first();
        assert forall|j: int| 0 <= j < i - 1 implies rest[j].id != id by {
            assert(rest[j] == rows[j + 1]);
        }
        assert(rest[i - 1] == rows[i]);
        lemma_row_with_id_at(rest, id, i - 1);
    }
}

/// The username lookup, characterised the same way as the id lookup.
pub proof fn lemma_row_with_username_indexes(rows: Seq<UserView>, username: Seq<char>)
    ensures
        match row_with_username(rows, username) {
            Some(u) => u.username == username && exists|i: int| 0 <= i < rows.len() && rows[i] == u,
            None => forall|i: int| 0 <= i < rows.len() ==> rows[i].username != username,
        },
    decreases rows.len(),
{
    if rows.len() > 0 && rows[0].username != username {
        let rest = rows.drop_first();
        lemma_row_with_username_indexes(rest, username);
        match row_with_username(rest, username) {
            Some(u) => {
                let i = choose|i: int| 0 <= i < rest.len() && rest[i] == u;
                assert(rows[i + 1] == u);
            },
            None => {
                assert forall|i: int| 0 <= i < rows.len() implies rows[i].username != username by {
                    if i > 0 {
                        assert(rest[i - 1] == rows[i]);
                    }
                }
            },
        }
    }
}

/// The username lookup returns the row at the first index whose username
/// matches.
pub proof fn lemma_row_with_username_at(rows: Seq<UserView>, username: Seq<char>, i: int)
    requires
        0 <= i < rows.len(),
        rows[i].username == username,
        forall|j: int| 0 <= j < i ==> rows[j].username != username,
    ensures
        row_with_username(rows, username) == Some(rows[i]),
    decreases i,
{
    if i > 0 {
        let rest = rows.drop_first();
        assert forall|j: int| 0 <= j < i - 1 implies rest[j].username != username by {
            assert(rest[j] == rows[j + 1]);
        }
        assert(rest[i - 1] == rows[i]);
        lemma_row_with_username_at(rest, username, i - 1);
    }
}

/// Replacing a password changes no lookup target other than the password of
/// the looked-up row itself.
pub proof fn lemma_set_password_lookup(rows: Seq<UserView>, id: Seq<char>, new_password: Seq<char>, q: Seq<char>)
    ensures
        row_with_id(set_password(rows, id, new_password), q) == match row_with_id(rows, q) {
            Some(u) => Some(
                if u.id == id {
                    UserView { id: u.id, username: u.username, password: new_password }
                } else {
                    u
                },
            ),
            None => None::<UserView>,
        },
    decreases rows.len(),
{
    let updated = set_password(rows, id, new_password);
    if rows.len() > 0 {
        assert(updated[0].id == rows[0].id);
        if rows[0].id != q {
            assert(updated.drop_first() =~= set_password(rows.drop_first(), id, new_password));
            lemma_set_password_lookup(rows.drop_first(), id, new_password, q);
        }
    }
}

/// Every row that survives a delete is a row of the original sequence, and
/// none of the survivors carries the deleted id.
pub proof fn lemma_remove_id_membership(rows: Seq<UserView>, id: Seq<char>)
    ensures
        forall|k: int| 0 <= k < remove_id(rows, id).len()
            ==> (#[trigger] remove_id(rows, id)[k]).id != id
                && exists|i: int| 0 <= i < rows.len() && rows[i] == remove_id(rows, id)[k],
    decreases rows.len(),
{
    if rows.len() > 0 {
        let rest = rows.drop_first();
        lemma_remove_id_membership(rest, id);
        let removed = remove_id(rows, id);
        assert forall|k: int| 0 <= k < removed.len() implies (#[trigger] removed[k]).id != id
            && exists|i: int| 0 <= i < rows.len() && rows[i] == removed[k] by {
            if rows[0].id == id {
                let i = choose|i: int| 0 <= i < rest.len() && rest[i] == remove_id(rest, id)[k];
                assert(rows[i + 1] == removed[k]);
            } else {
                if k == 0 {
                    assert(removed[0] == rows[0]);
                } else {
                    assert(removed[k] == remove_id(rest, id)[k - 1]);
                    let i = choose|i: int| 0 <= i < rest.len() && rest[i] == remove_id(rest, id)[k - 1];
                    assert(rows[i + 1] == removed[k]);
                }
            }
        }
    }
}

/// A delete removes exactly the rows with the deleted id: one when it was
/// present (ids being distinct), none otherwise.
pub proof fn lemma_remove_id_len(rows: Seq<UserView>, id: Seq<char>)
    requires
        ids_distinct(rows),
    ensures
        remove_id(rows, id).len() == rows.len() - (if has_id(rows, id) { 1int } else { 0int }),
    decreases rows.len(),
{
    if rows.len() > 0 {
        let rest = rows.drop_first();
        assert forall|i: int, j: int| 0 <= i < j < rest.len() implies rest[i].id != rest[j].id by {
            assert(rest[i] == rows[i + 1]);
            assert(rest[j] == rows[j + 1]);
        }
        lemma_remove_id_len(rest, id);
        if rows[0].id == id {
            // no row of the rest carries the key again
            lemma_row_with_id_indexes(rest, id);
            if has_id(rest, id) {
                let u = row_with_id(rest, id).unwrap();
                let i = choose|i: int| 0 <= i < rest.len() && rest[i] == u;
                assert(rows[i + 1] == u);
                assert(false);
            }
        }
    }
}

/// Distinctness of ids and of usernames survives a delete.
pub proof fn lemma_remove_id_distinct(rows: Seq<UserView>, id: Seq<char>)
    requires
        ids_distinct(rows),
        usernames_distinct(rows),
    ensures
        ids_distinct(remove_id(rows, id)),
        usernames_distinct(remove_id(rows, id)),
    decreases rows.len(),
{
    if rows.len() > 0 {
        let rest = rows.drop_first();
        assert forall|i: int, j: int| 0 <= i < j < rest.len() implies rest[i].id != rest[j].id
            && rest[i].username != rest[j].username by {
            assert(rest[i] == rows[i + 1]);
            assert(rest[j] == rows[j + 1]);
        }
        lemma_remove_id_distinct(rest, id);
        lemma_remove_id_membership(rest, id);
        if rows[0].id != id {
            let removed = remove_id(rows, id);
            let kept = remove_id(rest, id);
            assert forall|i: int, j: int| 0 <= i < j < removed.len() implies removed[i].id != removed[j].id
                && removed[i].username != removed[j].username by {
                if i == 0 {
                    assert(removed[0] == rows[0]);
                    assert(removed[j] == kept[j - 1]);
                    let m = choose|m: int| 0 <= m < rest.len() && rest[m] == kept[j - 1];
                    assert(rows[m + 1] == removed[j]);
                } else {
                    assert(removed[i] == kept[i - 1]);
                    assert(removed[j] == kept[j - 1]);
                }
            }
        }
    }
}

/// Deleting one id leaves every other id's lookup untouched.
pub proof fn lemma_remove_id_other(rows: Seq<UserView>, id: Seq<char>, other: Seq<char>)
    requires
        other != id,
    ensures
        row_with_id(remove_id(rows, id), other) == row_with_id(rows, other),
    decreases rows.len(),
{
    if rows.len() > 0 {
        let rest = rows.drop_first();
        lemma_remove_id_other(rest, id, other);
        if rows[0].id != id {
            let removed = remove_id(rows, id);
            assert(removed[0] == rows[0]);
            assert(removed.drop_first() =~= remove_id(rest, id));
        }
    }
}

/// After a delete, the deleted id is found no more.
pub proof fn lemma_remove_id_gone(rows: Seq<UserView>, id: Seq<char>)
    ensures
        !has_id(remove_id(rows, id), id),
    decreases rows.len(),
{
    lemma_remove_id_membership(rows, id);
    lemma_row_with_id_indexes(remove_id(rows, id), id);
    if has_id(remove_id(rows, id), id) {
        let u = row_with_id(remove_id(rows, id), id).unwrap();
        let k = choose|k: int| 0 <= k < remove_id(rows, id).len() && remove_id(rows, id)[k] == u;
        assert(remove_id(rows, id)[k].id != id);
        assert(false);
    }
}

/// Deleting an id that no row carries leaves the table as it was.
pub proof fn lemma_remove_id_absent(rows: Seq<UserView>, id: Seq<char>)
    requires
        !has_id(rows, id),
    ensures
        remove_id(rows, id) == rows,
    decreases rows.len(),
{
    if rows.len() > 0 {
        let rest = rows.drop_first();
        lemma_remove_id_absent(rest, id);
        assert(remove_id(rows, id) =~= rows);
    }
}

/// Extending the table by one row extends a delete's result by that row,
/// unless the row carries the deleted id.
pub proof fn lemma_remove_id_push(rows: Seq<UserView>, id: Seq<char>, row: UserView)
    ensures
        remove_id(rows.push(row), id) == if row.id == id {
            remove_id(rows, id)
        } else {
            remove_id(rows, id).push(row)
        },
    decreases rows.len(),
{
    let extended = rows.push(row);
    if rows.len() == 0 {
        assert(extended.drop_first() =~= rows);
        assert(remove_id(rows, id) =~= Seq::<UserView>::empty());
        if row.id == id {
            assert(remove_id(extended, id) =~= remove_id(rows, id));
        } else {
            assert(remove_id(extended, id) =~= remove_id(rows, id).push(row));
        }
    } else {
        assert(extended[0] == rows[0]);
        assert(extended.drop_first() =~= rows.drop_first().push(row));
        lemma_remove_id_push(rows.drop_first(), id, row);
        if rows[0].id != id {
            if row.id == id {
                assert(remove_id(extended, id) =~= remove_id(rows, id));
            } else {
                assert(remove_id(extended, id) =~= remove_id(rows, id).push(row));
            }
        }
    }
}

// ---------------------------------------------------------------------
// The executable table.
// ---------------------------------------------------------------------

/// An in-memory users table, the verified stand-in for the relational
/// store's single table.
pub struct UserStore {
    rows: Vec<User>,
}

impl View for UserStore {
    type V = Seq<UserView>;

    closed spec fn view(&self) -> Seq<UserView> {
        self.rows@.map_values(|u: User| u@)
    }
}

impl UserStore {
    /// Both schema constraints: ids unique, usernames unique.
    pub open spec fn wf(&self) -> bool {
        ids_distinct(self@) && usernames_distinct(self@)
    }

    /// An empty table.
    pub fn new() -> (r: UserStore)
        ensures
            r@ == Seq::<UserView>::empty(),
            r.wf(),
    {
        let r = UserStore { rows: Vec::new() };
        proof {
            assert(r@ =~= Seq::<UserView>::empty());
        }
        r
    }

    /// How many rows the table holds.
    pub fn len(&self) -> (r: usize)
        ensures
            r == self@.len(),
    {
        self.rows.len()
    }
}

/// `SELECT .. FROM users WHERE id = ..`: a copy of the row with the id, or
/// nothing when no row carries it.
pub fn get_user_by_id(store: &UserStore, id: &str) -> (r: Option<User>)
    ensures
        match r {
            Some(u) => row_with_id(store@, id@) == Some(u@),
            None => !has_id(store@, id@),
        },
{
    let n = store.rows.len();
    let mut i: usize = 0;
    while i < n
        invariant
            n == store.rows.len(),
            i <= n,
            forall|j: int| 0 <= j < i ==> store@[j].id != id@,
        decreases n - i,
    {
        if str_eq(store.rows[i].id.as_str(), id) {
            proof {
                lemma_row_with_id_at(store@, id@, i as int);
            }
            return Some(store.rows[i].duplicate());
        }
        i += 1;
    }
    proof {
        lemma_row_with_id_indexes(store@, id@);
    }
    None
}

/// `SELECT .. FROM users WHERE username = ..`: exact-match lookup with the
/// same not-found semantics as the lookup by id.
pub fn get_user_by_username(store: &UserStore, username: &str) -> (r: Option<User>)
    ensures
        match r {
            Some(u) => row_with_username(store@, username@) == Some(u@),
            None => !has_username(store@, username@),
        },
{
    let n = store.rows.len();
    let mut i: usize = 0;
    while i < n
        invariant
            n == store.rows.len(),
            i <= n,
            forall|j: int| 0 <= j < i ==> store@[j].username != username@,
        decreases n - i,
    {
        if str_eq(store.rows[i].username.as_str(), username) {
            proof {
                lemma_row_with_username_at(store@, username@, i as int);
            }
            return Some(store.rows[i].duplicate());
        }
        i += 1;
    }
    proof {
        lemma_row_with_username_indexes(store@, username@);
    }
    None
}

/// `SELECT .. FROM users`: a copy of every row, in table order.
pub fn get_all_users(store: &UserStore) -> (r: Vec<User>)
    ensures
        r@.map_values(|u: User| u@) == store@,
{
    let n = store.rows.len();
    let mut out: Vec<User> = Vec::new();
    let mut i: usize = 0;
    while i < n
        invariant
            n == store.rows.len(),
            i <= n,
            out@.len() == i,
            forall|j: int| 0 <= j < i ==> (#[trigger] out@[j])@ == store@[j],
        decreases n - i,
    {
        out.push(store.rows[i].duplicate());
        i += 1;
    }
    proof {
        assert(out@.map_values(|u: User| u@) =~= store@);
    }
    out
}

/// `INSERT INTO users (id, username, password) VALUES (..) RETURNING ..`:
/// succeeds and echoes the persisted row exactly when neither schema
/// constraint is violated; otherwise reports the violation and leaves the
/// table as it was.
pub fn insert_user(store: &mut UserStore, id: String, username: String, password: String) -> (r: Result<
    User,
    StorageError,
>)
    requires
        old(store).wf(),
    ensures
        final(store).wf(),
        match r {
            Ok(u) => u@ == (UserView { id: id@, username: username@, password: password@ })
                && !has_id(old(store)@, id@) && !has_username(old(store)@, username@)
                && final(store)@ == old(store)@.push(u@),
            Err(e) => final(store)@ == old(store)@ && (has_id(old(store)@, id@) || has_username(
                old(store)@,
                username@,
            )) && e.msg@ == if has_id(old(store)@, id@) {
                "duplicate key value violates a unique constraint on id"@
            } else {
                "duplicate key value violates a unique constraint on username"@
            },
        },
{
    let ghost pre = store@;
    if get_user_by_id(store, id.as_str()).is_some() {
        return Err(StorageError { msg: "duplicate key value violates a unique constraint on id".to_owned() });
    }
    if get_user_by_username(store, username.as_str()).is_some() {
        return Err(
            StorageError { msg: "duplicate key value violates a unique constraint on username".to_owned() },
        );
    }
    let row = User { id, username, password };
    let echoed = row.duplicate();
    store.rows.push(row);
    proof {
        assert(store@ =~= pre.push(echoed@));
        lemma_row_with_id_indexes(pre, echoed@.id);
        lemma_row_with_username_indexes(pre, echoed@.username);
        assert forall|i: int, j: int| 0 <= i < j < store@.len() implies store@[i].id != store@[j].id
            && store@[i].username != store@[j].username by {
            if j < pre.len() {
                assert(store@[i] == pre[i]);
                assert(store@[j] == pre[j]);
            } else {
                assert(store@[i] == pre[i]);
                assert(store@[j] == echoed@);
            }
        }
    }
    Ok(echoed)
}

/// The create operation: the service generates a fresh identifier, inserts
/// the row, and returns the persisted entity. It fails when the insert
/// does — whenever the username is already taken, or in the improbable case
/// that the drawn identifier collides with a stored one; since every drawn
/// identifier is 36 characters long, a table holding no id of that length
/// (an empty one, in particular) owes success for every fresh username.
pub fn create_user(store: &mut UserStore, username: &str, passwd: &str) -> (r: Result<User, StorageError>)
    requires
        old(store).wf(),
    ensures
        final(store).wf(),
        match r {
            Ok(u) => u@.username == username@ && u@.password == passwd@ && u@.id.len() == 36
                && !has_id(old(store)@, u@.id) && !has_username(old(store)@, username@)
                && final(store)@ == old(store)@.push(u@),
            Err(_) => final(store)@ == old(store)@,
        },
        has_username(old(store)@, username@) ==> r is Err,
        r is Err ==> has_username(old(store)@, username@) || exists|i: int|
            0 <= i < old(store)@.len() && (#[trigger] old(store)@[i]).id.len() == 36,
{
    let id = fresh_user_id();
    let ghost drawn = id@;
    let r = insert_user(store, id, username.to_owned(), passwd.to_owned());
    proof {
        if r is Err && !has_username(old(store)@, username@) {
            lemma_row_with_id_indexes(old(store)@, drawn);
            let u = row_with_id(old(store)@, drawn).unwrap();
            let i = choose|i: int| 0 <= i < old(store)@.len() && old(store)@[i] == u;
            assert(old(store)@[i].id.len() == 36);
        }
    }
    r
}

/// `UPDATE users SET password = .. WHERE id = ..`: replaces the password of
/// the row with the id, leaves every other row untouched, and returns the
/// affected-row count — `1` when the id was present, `0` when it was not.
pub fn update_user_password(store: &mut UserStore, id: &str, new_passwd: &str) -> (r: u64)
    requires
        old(store).wf(),
    ensures
        final(store).wf(),
        final(store)@ == set_password(old(store)@, id@, new_passwd@),
        r == (if has_id(old(store)@, id@) { 1u64 } else { 0u64 }),
{
    let ghost pre = store@;
    let n = store.rows.len();
    let mut out: Vec<User> = Vec::new();
    let mut found = false;
    let mut i: usize = 0;
    while i < n
        invariant
            n == store.rows.len(),
            store@ == pre,
            i <= n,
            out@.len() == i,
            forall|j: int| 0 <= j < i ==> (#[trigger] out@[j])@ == set_password(pre, id@, new_passwd@)[j],
            found <==> exists|j: int| 0 <= j < i && (#[trigger] pre[j]).id == id@,
        decreases n - i,
    {
        let row = &store.rows[i];
        proof {
            assert(row@ == pre[i as int]);
        }
        if str_eq(row.id.as_str(), id) {
            out.push(User { id: row.id.clone(), username: row.username.clone(), password: new_passwd.to_owned() });
            found = true;
            proof {
                assert(pre[i as int].id == id@);
            }
        } else {
            out.push(row.duplicate());
            proof {
                assert(pre[i as int].id != id@);
            }
        }
        i += 1;
    }
    store.rows = out;
    proof {
        assert(store@ =~= set_password(pre, id@, new_passwd@));
        lemma_row_with_id_indexes(pre, id@);
        assert forall|a: int, b: int| 0 <= a < b < store@.len() implies store@[a].id != store@[b].id
            && store@[a].username != store@[b].username by {
            assert(store@[a].id == pre[a].id && store@[a].username == pre[a].username);
            assert(store@[b].id == pre[b].id && store@[b].username == pre[b].username);
        }
    }
    if found {
        1
    } else {
        0
    }
}

/// `DELETE FROM users WHERE id = ..`: removes the row with the id and
/// returns the affected-row count — `0` exactly when the id did not exist.
pub fn delete_user(store: &mut UserStore, id: &str) -> (r: u64)
    requires
        old(store).wf(),
    ensures
        final(store).wf(),
        final(store)@ == remove_id(old(store)@, id@),
        r == (if has_id(old(store)@, id@) { 1u64 } else { 0u64 }),
        final(store)@.len() + r == old(store)@.len(),
{
    let ghost pre = store@;
    let n = store.rows.len();
    let mut out: Vec<User> = Vec::new();
    let mut found = false;
    let mut i: usize = 0;
    while i < n
        invariant
            n == store.rows.len(),
            store@ == pre,
            i <= n,
            out@.map_values(|u: User| u@) == remove_id(pre.subrange(0, i as int), id@),
            found <==> exists|j: int| 0 <= j < i && (#[trigger] pre[j]).id == id@,
        decreases n - i,
    {
        let ghost prefix = pre.subrange(0, i as int);
        proof {
            assert(pre.subrange(0, i + 1) =~= prefix.push(pre[i as int]));
            lemma_remove_id_push(prefix, id@, pre[i as int]);
        }
        let row = &store.rows[i];
        proof {
            assert(row@ == pre[i as int]);
        }
        if str_eq(row.id.as_str(), id) {
            found = true;
            proof {
                assert(pre[i as int].id == id@);
            }
        } else {
            out.push(row.duplicate());
            proof {
                assert(pre[i as int].id != id@);
                assert(out@.map_values(|u: User| u@) =~= remove_id(prefix, id@).push(pre[i as int]));
            }
        }
        i += 1;
    }
    store.rows = out;
    proof {
        assert(pre.subrange(0, n as int) =~= pre);
        lemma_row_with_id_indexes(pre, id@);
        lemma_remove_id_distinct(pre, id@);
        lemma_remove_id_len(pre, id@);
    }
    if found {
        1
    } else {
        0
    }
}

} // verus!
