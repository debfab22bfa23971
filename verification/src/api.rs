//! The request-handling layer.
//!
//! Each externally exposed operation maps to one data-access call (plus, for
//! the password operations, a read-then-compare step) and wraps every
//! outcome in the uniform response envelope; operation-level failures are
//! encoded inside the envelope, never thrown past it.
//!
//! Every decision is taken here, in verified code, over the outcome of the
//! store call: the `*_response` and `update_password_*` functions take that
//! outcome as an argument, so an unverified transport can run the real
//! store call and hand the result in. The `handle_*` functions compose the
//! same decisions with the verified in-memory table.

use vstd::prelude::*;

use crate::ext::{join_msg, str_eq};
use crate::model::{Response, StorageError, User};
use crate::store::{
    create_user, delete_user, get_all_users, get_user_by_id, get_user_by_username, has_id,
    has_username, password_matches, remove_id, row_with_id, row_with_username, set_password,
    update_user_password, UserStore,
};

verus! {

/// Envelope for a create outcome: the persisted entity on success, the
/// underlying error text on failure.
pub fn created_response(outcome: Result<User, StorageError>) -> (r: Response<User>)
    ensures
        r.was_success <==> outcome is Ok,
        match outcome {
            Ok(u) => r.data matches Some(d) && d@ == u@ && r.msg@ == "User created successfully"@,
            Err(e) => r.data is None && r.msg@ == "Failed to create user: "@ + e.msg@,
        },
{
    match outcome {
        Ok(user) => Response {
            was_success: true,
            data: Some(user),
            msg: "User created successfully".to_owned(),
        },
        Err(err) => Response::with_error(join_msg("Failed to create user: ", err.msg.as_str())),
    }
}

/// Envelope for a lookup outcome: found, not-found and storage failure are
/// distinguished only in the message text, never in the structure.
pub fn fetched_user_response(fetch: Result<Option<User>, StorageError>) -> (r: Response<User>)
    ensures
        r.was_success <==> fetch matches Ok(Some(_)),
        match fetch {
            Ok(Some(u)) => r.data matches Some(d) && d@ == u@ && r.msg@
                == "User retrieved successfully"@,
            Ok(None) => r.data is None && r.msg@ == "User was not found"@,
            Err(e) => r.data is None && r.msg@ == "Failed to retrieve user: "@ + e.msg@,
        },
{
    match fetch {
        Ok(Some(user)) => Response {
            was_success: true,
            data: Some(user),
            msg: "User retrieved successfully".to_owned(),
        },
        Ok(None) => Response::with_error("User was not found".to_owned()),
        Err(err) => Response::with_error(join_msg("Failed to retrieve user: ", err.msg.as_str())),
    }
}

/// Envelope for a list-all outcome: the full collection, possibly empty, or
/// the storage failure's text.
pub fn all_users_response(outcome: Result<Vec<User>, StorageError>) -> (r: Response<Vec<User>>)
    ensures
        r.was_success <==> outcome is Ok,
        match outcome {
            Ok(users) => r.data matches Some(d) && d == users && r.msg@
                == "Users retrieved successfully"@,
            Err(e) => r.data is None && r.msg@ == "Failed to retrieve users with err: "@ + e.msg@,
        },
{
    match outcome {
        Ok(users) => Response {
            was_success: true,
            data: Some(users),
            msg: "Users retrieved successfully".to_owned(),
        },
        Err(err) => Response::with_error(
            join_msg("Failed to retrieve users with err: ", err.msg.as_str()),
        ),
    }
}

/// The confirm-password decision over a read outcome: succeeds exactly when
/// the read found a user whose stored password equals the sample; carries no
/// payload either way.
pub fn confirm_password_response(fetch: Result<Option<User>, StorageError>, sample: &str) -> (r:
    Response<()>)
    ensures
        r.data is None,
        r.was_success <==> (fetch matches Ok(Some(u)) && u@.password == sample@),
        match fetch {
            Ok(Some(u)) => r.msg@ == if u@.password == sample@ {
                "Password comfirmed successfully"@
            } else {
                "Password comfirmed failed"@
            },
            Ok(None) => r.msg@ == "User was not found"@,
            Err(e) => r.msg@ == "Failed to retrieve user: "@ + e.msg@,
        },
{
    let cur_password = match fetch {
        Ok(Some(user)) => user.password,
        Ok(None) => return Response::with_error("User was not found".to_owned()),
        Err(err) => return Response::with_error(
            join_msg("Failed to retrieve user: ", err.msg.as_str()),
        ),
    };
    if str_eq(sample, cur_password.as_str()) {
        Response { was_success: true, data: None, msg: "Password comfirmed successfully".to_owned() }
    } else {
        Response::with_error("Password comfirmed failed".to_owned())
    }
}

/// The first step of a password update, over the prior read's outcome:
/// either the failure envelope that short-circuits the operation, or leave
/// to proceed with the write. Proceeding is owed exactly when the read found
/// the user and the old password matched.
pub fn update_password_precheck(fetch: Result<Option<User>, StorageError>, old_password: &str) -> (r:
    Result<(), Response<()>>)
    ensures
        r is Ok <==> (fetch matches Ok(Some(u)) && u@.password == old_password@),
        match r {
            Ok(_) => true,
            Err(resp) => !resp.was_success && resp.data is None && match fetch {
                Ok(Some(u)) => u@.password != old_password@ && resp.msg@
                    == "Old password is incorrect"@,
                Ok(None) => resp.msg@ == "User was not found"@,
                Err(e) => resp.msg@ == "Failed to update user password: "@ + e.msg@,
            },
        },
{
    let cur_passwd = match fetch {
        Ok(Some(user)) => user.password,
        Ok(None) => return Err(Response::with_error("User was not found".to_owned())),
        Err(err) => return Err(
            Response::with_error(join_msg("Failed to update user password: ", err.msg.as_str())),
        ),
    };
    if !str_eq(cur_passwd.as_str(), old_password) {
        return Err(Response::with_error("Old password is incorrect".to_owned()));
    }
    Ok(())
}

/// The second step of a password update, over the write's outcome: an
/// affected-row count of zero (the user vanished between the read and the
/// write) is reported as its own failure, distinct from the not-found of the
/// first step; any positive count is success.
pub fn update_password_outcome(outcome: Result<u64, StorageError>) -> (r: Response<()>)
    ensures
        r.data is None,
        r.was_success <==> (outcome matches Ok(n) && n > 0),
        match outcome {
            Ok(n) => r.msg@ == if n == 0 {
                "You can't update password for a not exist user"@
            } else {
                "User password updated successfully"@
            },
            Err(e) => r.msg@ == "Failed to update user password: "@ + e.msg@,
        },
{
    match outcome {
        Ok(0) => Response::with_error("You can't update password for a not exist user".to_owned()),
        Ok(_) => Response {
            was_success: true,
            data: None,
            msg: "User password updated successfully".to_owned(),
        },
        Err(err) => Response::with_error(
            join_msg("Failed to update user password: ", err.msg.as_str()),
        ),
    }
}

/// Envelope for a delete outcome: zero affected rows is reported as
/// not-found, any positive count as success.
pub fn delete_outcome_response(outcome: Result<u64, StorageError>) -> (r: Response<()>)
    ensures
        r.data is None,
        r.was_success <==> (outcome matches Ok(n) && n > 0),
        match outcome {
            Ok(n) => r.msg@ == if n == 0 {
                "User was not found"@
            } else {
                "User deleted successfully"@
            },
            Err(e) => r.msg@ == "Failed to delete user: "@ + e.msg@,
        },
{
    match outcome {
        Ok(0) => Response::with_error("User was not found".to_owned()),
        Ok(_) => Response { was_success: true, data: None, msg: "User deleted successfully".to_owned() },
        Err(err) => Response::with_error(join_msg("Failed to delete user: ", err.msg.as_str())),
    }
}

/// Register a user: create it, then wrap the outcome. On success the
/// envelope carries the persisted entity, whose 36-character identifier no
/// prior user carried; the table gains exactly that row. A taken username
/// is never a success, and a failure with a fresh username can only be the
/// drawn identifier colliding with a stored 36-character one — so on a
/// table without such ids (an empty one, in particular) success is owed.
pub fn handle_create_user(store: &mut UserStore, username: &str, password: &str) -> (r: Response<
    User,
>)
    requires
        old(store).wf(),
    ensures
        final(store).wf(),
        r.was_success ==> (r.data matches Some(u) && u@.username == username@ && u@.password
            == password@ && u@.id.len() == 36 && !has_id(old(store)@, u@.id) && final(store)@
            == old(store)@.push(u@) && r.msg@ == "User created successfully"@),
        !r.was_success ==> final(store)@ == old(store)@ && r.data is None,
        has_username(old(store)@, username@) ==> !r.was_success,
        !r.was_success ==> has_username(old(store)@, username@) || exists|i: int|
            0 <= i < old(store)@.len() && (#[trigger] old(store)@[i]).id.len() == 36,
{
    created_response(create_user(store, username, password))
}

/// Fetch a user by id and wrap the outcome.
pub fn handle_get_user(store: &UserStore, id: &str) -> (r: Response<User>)
    ensures
        r.was_success <==> has_id(store@, id@),
        has_id(store@, id@) ==> (r.data matches Some(u) && row_with_id(store@, id@) == Some(u@))
            && r.msg@ == "User retrieved successfully"@,
        !has_id(store@, id@) ==> r.data is None && r.msg@ == "User was not found"@,
{
    let fetch: Result<Option<User>, StorageError> = Ok(get_user_by_id(store, id));
    fetched_user_response(fetch)
}

/// Fetch a user by exact username and wrap the outcome.
pub fn handle_get_user_by_username(store: &UserStore, username: &str) -> (r: Response<User>)
    ensures
        r.was_success <==> has_username(store@, username@),
        has_username(store@, username@) ==> (r.data matches Some(u) && row_with_username(
            store@,
            username@,
        ) == Some(u@)) && r.msg@ == "User retrieved successfully"@,
        !has_username(store@, username@) ==> r.data is None && r.msg@ == "User was not found"@,
{
    let fetch: Result<Option<User>, StorageError> = Ok(get_user_by_username(store, username));
    fetched_user_response(fetch)
}

/// List every user: always succeeds against a reachable table and returns
/// the full collection, possibly empty.
pub fn handle_get_all_users(store: &UserStore) -> (r: Response<Vec<User>>)
    ensures
        r.was_success,
        r.data matches Some(users) && users@.map_values(|u: User| u@) == store@,
        r.msg@ == "Users retrieved successfully"@,
{
    let outcome: Result<Vec<User>, StorageError> = Ok(get_all_users(store));
    all_users_response(outcome)
}

/// Check a password sample: read the user by id, then compare by exact
/// equality. Succeeds exactly when the user exists and holds the sample as
/// its password; never succeeds for a nonexistent id.
pub fn handle_confirm_password(store: &UserStore, id: &str, sample: &str) -> (r: Response<()>)
    ensures
        r.data is None,
        r.was_success <==> password_matches(store@, id@, sample@),
        !has_id(store@, id@) ==> r.msg@ == "User was not found"@,
        has_id(store@, id@) ==> r.msg@ == if password_matches(store@, id@, sample@) {
            "Password comfirmed successfully"@
        } else {
            "Password comfirmed failed"@
        },
{
    let fetch: Result<Option<User>, StorageError> = Ok(get_user_by_id(store, id));
    confirm_password_response(fetch, sample)
}

/// Change a password: read the user by id, compare the old password, then
/// write the new one. The mismatch failure is its own message and leaves
/// the table untouched; success replaces exactly that user's password.
pub fn handle_update_user_password(
    store: &mut UserStore,
    id: &str,
    old_password: &str,
    new_password: &str,
) -> (r: Response<()>)
    requires
        old(store).wf(),
    ensures
        final(store).wf(),
        r.data is None,
        r.was_success <==> password_matches(old(store)@, id@, old_password@),
        r.was_success ==> final(store)@ == set_password(old(store)@, id@, new_password@) && r.msg@
            == "User password updated successfully"@,
        !r.was_success ==> final(store)@ == old(store)@,
        !has_id(old(store)@, id@) ==> r.msg@ == "User was not found"@,
        has_id(old(store)@, id@) && !password_matches(old(store)@, id@, old_password@) ==> r.msg@
            == "Old password is incorrect"@,
{
    let fetch: Result<Option<User>, StorageError> = Ok(get_user_by_id(store, id));
    match update_password_precheck(fetch, old_password) {
        Err(resp) => resp,
        Ok(_) => {
            let affected = update_user_password(store, id, new_password);
            let outcome: Result<u64, StorageError> = Ok(affected);
            update_password_outcome(outcome)
        },
    }
}

/// Delete a user by id: zero affected rows is reported as not-found, a
/// positive count as success; the table loses exactly the row with that id.
pub fn handle_delete_user(store: &mut UserStore, id: &str) -> (r: Response<()>)
    requires
        old(store).wf(),
    ensures
        final(store).wf(),
        r.data is None,
        final(store)@ == remove_id(old(store)@, id@),
        r.was_success <==> has_id(old(store)@, id@),
        r.was_success ==> r.msg@ == "User deleted successfully"@,
        !r.was_success ==> r.msg@ == "User was not found"@ && final(store)@ == old(store)@,
{
    let affected = delete_user(store, id);
    let outcome: Result<u64, StorageError> = Ok(affected);
    proof {
        if !has_id(old(store)@, id@) {
            crate::store::lemma_remove_id_absent(old(store)@, id@);
        }
    }
    delete_outcome_response(outcome)
}

} // verus!
