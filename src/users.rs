use vstd::prelude::*;

use crate::entities::User;
use crate::errors::StoreError;
use crate::store::{Database, Transaction};

verus! {

/// The position of the user named `name` among `users`, if any.
fn find_user(users: &Vec<User>, name: &String) -> (r: Option<usize>)
    ensures
        match r {
            Some(i) => i < users@.len() && users@[i as int].username@ == name@,
            None => forall|j: int| 0 <= j < users@.len() ==> users@[j].username@ != name@,
        },
{
    let mut i: usize = 0;
    while i < users.len()
        invariant
            i <= users@.len(),
            forall|j: int| 0 <= j < i ==> users@[j].username@ != name@,
        decreases users@.len() - i,
    {
        if users[i].username == *name {
            return Some(i);
        }
        i = i + 1;
    }
    None
}

/// Stores a new account and returns its username.
///
/// Fails with `ConstraintViolation`, writing nothing, when the username is taken.
pub fn insert_user(tx: &mut Transaction, user: &User) -> (r: Result<String, StoreError>)
    requires
        old(tx)@.wf(),
    ensures
        final(tx)@.wf(),
        final(tx).base_stamp() == old(tx).base_stamp(),
        match r {
            Ok(name) => !old(tx)@.has_user(user.username@) && name@ == user.username@
                && final(tx)@ == old(tx)@.with_user(user@),
            Err(e) => old(tx)@.has_user(user.username@) && e == StoreError::ConstraintViolation
                && final(tx)@ == old(tx)@,
        },
{
    match find_user(&tx.working.users, &user.username) {
        Some(i) => {
            assert(old(tx)@.users[i as int].username == user.username@);
            Err(StoreError::ConstraintViolation)
        },
        None => {
            tx.working.users.push(user.duplicate());
            assert(tx@.users =~= old(tx)@.users.push(user@));
            assert(tx@.courses == old(tx)@.courses);
            assert(tx@.lectures == old(tx)@.lectures);
            assert forall|a: int, b: int| 0 <= a < b < tx@.users.len() implies tx@.users[a].username
                != tx@.users[b].username by {
                if b == old(tx)@.users.len() {
                    assert(old(tx)@.users[a].username == tx.working.users@[a].username@);
                }
            }
            Ok(user.username.clone())
        },
    }
}

/// The account named `username`, if there is one.
pub fn select_user_by_username(db: &Database, username: &String) -> (r: Option<User>)
    ensures
        r is Some <==> db@.has_user(username@),
        r matches Some(u) ==> u@.username == username@ && db@.users.contains(u@),
{
    match find_user(&db.users, username) {
        Some(i) => {
            let u = db.users[i].duplicate();
            assert(db@.users[i as int] == u@);
            Some(u)
        },
        None => {
            assert(!db@.has_user(username@));
            None
        },
    }
}

} // verus!
