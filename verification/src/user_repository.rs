//! The user repository: typed queries over the `users` table, whose two
//! columns are both unique, and its implementation on the relational
//! backing store. A fetched user goes through the same username validation
//! as at creation time, so stale data written under other rules cannot come
//! back silently.

use vstd::prelude::*;

use crate::db::{DbManager, DbManagerError, StorageFault, UserRow};
use crate::text::str_eq;
use crate::user::{username_ok, User, Username};

verus! {

/// The first `users` row carrying the username, scanning from the front —
/// what a single-row fetch by the unique username column resolves to.
pub open spec fn user_lookup(rows: Seq<UserRow>, username: Seq<char>) -> Option<UserRow>
    decreases rows.len(),
{
    if rows.len() == 0 {
        None
    } else if rows[0].username@ == username {
        Some(rows[0])
    } else {
        user_lookup(rows.drop_first(), username)
    }
}

/// Whether some row already stores this password hash (the column is
/// unique).
pub open spec fn hash_in(rows: Seq<UserRow>, hash: Seq<char>) -> bool {
    exists|i: int| 0 <= i < rows.len() && (#[trigger] rows[i]).password@ == hash
}

proof fn lemma_user_lookup_at(rows: Seq<UserRow>, username: Seq<char>, i: int)
    requires
        0 <= i < rows.len(),
        rows[i].username@ == username,
        forall|j: int| 0 <= j < i ==> (#[trigger] rows[j]).username@ != username,
    ensures
        user_lookup(rows, username) == Some(rows[i]),
    decreases i,
{
    if i > 0 {
        assert(rows[0].username@ != username);
        let rest = rows.drop_first();
        assert forall|j: int| 0 <= j < i - 1 implies (#[trigger] rest[j]).username@ != username by {
            assert(rest[j] == rows[j + 1]);
        }
        assert(rest[i - 1] == rows[i]);
        lemma_user_lookup_at(rest, username, i - 1);
    }
}

proof fn lemma_user_lookup_none(rows: Seq<UserRow>, username: Seq<char>)
    requires
        forall|j: int| 0 <= j < rows.len() ==> (#[trigger] rows[j]).username@ != username,
    ensures
        user_lookup(rows, username) is None,
    decreases rows.len(),
{
    if rows.len() > 0 {
        let rest = rows.drop_first();
        assert forall|j: int| 0 <= j < rest.len() implies (#[trigger] rest[j]).username@
            != username by {
            assert(rest[j] == rows[j + 1]);
        }
        lemma_user_lookup_none(rest, username);
    }
}

proof fn lemma_user_lookup_push(rows: Seq<UserRow>, row: UserRow, username: Seq<char>)
    ensures
        user_lookup(rows.push(row), username) == (if user_lookup(rows, username) is Some {
            user_lookup(rows, username)
        } else if row.username@ == username {
            Some(row)
        } else {
            None
        }),
    decreases rows.len(),
{
    let ext = rows.push(row);
    if rows.len() == 0 {
        assert(ext[0] == row);
        assert(ext.drop_first() =~= Seq::<UserRow>::empty());
        assert(user_lookup(Seq::<UserRow>::empty(), username) is None);
        assert(user_lookup(rows, username) is None);
    } else {
        assert(ext[0] == rows[0]);
        assert(ext.drop_first() =~= rows.drop_first().push(row));
        lemma_user_lookup_push(rows.drop_first(), row, username);
    }
}

/// Typed queries for users over an abstract view of the store: the hash
/// each username is stored with, and which hashes are taken.
pub trait UserRepository: Sized {
    /// The backend's own well-formedness; every operation preserves it.
    spec fn wf(&self) -> bool;

    /// The password hash stored under the username, if any.
    spec fn user_at(&self, username: Seq<char>) -> Option<Seq<char>>;

    /// Whether some user is already stored with this password hash.
    spec fn hash_used(&self, hash: Seq<char>) -> bool;

    /// How many users the store holds.
    spec fn user_count(&self) -> nat;

    /// Write a new user. Either column already present is a
    /// unique-constraint violation that leaves the store untouched;
    /// otherwise the username is recorded with the hash, everything else
    /// unchanged, and the user is handed back.
    fn insert_user(&mut self, user: User) -> (r: Result<User, DbManagerError>)
        requires
            old(self).wf(),
        ensures
            final(self).wf(),
            old(self).user_at(user.username@) is Some || old(self).hash_used(
                user.hashed_password@,
            ) ==> (r == Err::<User, DbManagerError>(
                DbManagerError::OpenConnection(StorageFault::UniqueViolation),
            ) && *final(self) == *old(self)),
            old(self).user_at(user.username@) is None && !old(self).hash_used(
                user.hashed_password@,
            ) ==> ({
                &&& r == Ok::<User, DbManagerError>(user)
                &&& final(self).user_at(user.username@) == Some(user.hashed_password@)
                &&& forall|n: Seq<char>|
                    n != user.username@ ==> final(self).user_at(n) == old(self).user_at(n)
                &&& forall|h: Seq<char>|
                    final(self).hash_used(h) == (old(self).hash_used(h) || h
                        == user.hashed_password@)
                &&& final(self).user_count() == old(self).user_count() + 1
            }),
    ;

    /// Fetch the one user stored under the username, re-validating it on
    /// the way out: a username nobody holds is a not-found fault, and a
    /// stored username that no longer passes validation is a decode fault
    /// rather than data handed back unchecked.
    fn get_user(&self, username: &str) -> (r: Result<User, DbManagerError>)
        requires
            self.wf(),
        ensures
            self.user_at(username@) is None ==> r == Err::<User, DbManagerError>(
                DbManagerError::OpenConnection(StorageFault::RowNotFound),
            ),
            self.user_at(username@) matches Some(h) ==> (if username_ok(username@) {
                r matches Ok(u) && u.username@ == username@ && u.hashed_password@ == h
            } else {
                r matches Err(DbManagerError::OpenConnection(StorageFault::UserDecode(e)))
                    && Username::new_failure(username@) == Some(e)
            }),
    ;
}

impl DbManager {
    /// Index of the first user row carrying the username, if any.
    fn find_user(&self, username: &str) -> (r: Option<usize>)
        ensures
            r matches Some(i) ==> (i < self.db.users@.len() && self.db.users@[i as int].username@
                == username@ && (forall|j: int|
                0 <= j < i ==> (#[trigger] self.db.users@[j]).username@ != username@)),
            r is None ==> (forall|j: int|
                0 <= j < self.db.users@.len() ==> (#[trigger] self.db.users@[j]).username@
                    != username@),
    {
        let mut idx: usize = 0;
        while idx < self.db.users.len()
            invariant
                idx <= self.db.users@.len(),
                forall|j: int| 0 <= j < idx ==> (#[trigger] self.db.users@[j]).username@ != username@,
            decreases self.db.users@.len() - idx,
        {
            if str_eq(self.db.users[idx].username.as_str(), username) {
                return Some(idx);
            }
            idx = idx + 1;
        }
        None
    }

    /// Index of the first user row storing the password hash, if any.
    fn find_user_by_hash(&self, hash: &str) -> (r: Option<usize>)
        ensures
            r matches Some(i) ==> (i < self.db.users@.len() && self.db.users@[i as int].password@
                == hash@),
            r is None ==> (forall|j: int|
                0 <= j < self.db.users@.len() ==> (#[trigger] self.db.users@[j]).password@
                    != hash@),
    {
        let mut idx: usize = 0;
        while idx < self.db.users.len()
            invariant
                idx <= self.db.users@.len(),
                forall|j: int| 0 <= j < idx ==> (#[trigger] self.db.users@[j]).password@ != hash@,
            decreases self.db.users@.len() - idx,
        {
            if str_eq(self.db.users[idx].password.as_str(), hash) {
                return Some(idx);
            }
            idx = idx + 1;
        }
        None
    }
}

impl UserRepository for DbManager {
    open spec fn wf(&self) -> bool {
        self.db.wf()
    }

    open spec fn user_at(&self, username: Seq<char>) -> Option<Seq<char>> {
        match user_lookup(self.db.users@, username) {
            None => None,
            Some(row) => Some(row.password@),
        }
    }

    open spec fn hash_used(&self, hash: Seq<char>) -> bool {
        hash_in(self.db.users@, hash)
    }

    open spec fn user_count(&self) -> nat {
        self.db.users@.len()
    }

    fn insert_user(&mut self, user: User) -> (r: Result<User, DbManagerError>) {
        let username = user.username.get_username();
        let password = user.hashed_password.get_password();

        match self.find_user(username.as_str()) {
            Some(found) => {
                proof {
                    lemma_user_lookup_at(self.db.users@, user.username@, found as int);
                }
                return Err(DbManagerError::OpenConnection(StorageFault::UniqueViolation));
            },
            None => {
                proof {
                    lemma_user_lookup_none(self.db.users@, user.username@);
                }
            },
        }
        if self.find_user_by_hash(password.as_str()).is_some() {
            return Err(DbManagerError::OpenConnection(StorageFault::UniqueViolation));
        }

        let ghost old_rows = self.db.users@;
        let row = UserRow { username, password };
        self.db.users.push(row);
        proof {
            lemma_user_lookup_push(old_rows, row, user.username@);
            assert forall|n: Seq<char>| n != user.username@ implies self.user_at(n) == old(
                self,
            ).user_at(n) by {
                lemma_user_lookup_push(old_rows, row, n);
            }
            assert forall|h: Seq<char>|
                self.hash_used(h) == (old(self).hash_used(h) || h
                    == user.hashed_password@) by {
                if self.hash_used(h) {
                    let i = choose|i: int|
                        0 <= i < self.db.users@.len() && (#[trigger] self.db.users@[i]).password@
                            == h;
                    if i < old_rows.len() {
                        assert(old_rows[i].password@ == h);
                    } else {
                        assert(self.db.users@[i] == row);
                    }
                }
                if old(self).hash_used(h) {
                    let i = choose|i: int|
                        0 <= i < old_rows.len() && (#[trigger] old_rows[i]).password@ == h;
                    assert(self.db.users@[i].password@ == h);
                }
                if h == user.hashed_password@ {
                    assert(self.db.users@[old_rows.len() as int].password@ == h);
                }
            }
        }
        Ok(user)
    }

    fn get_user(&self, username: &str) -> (r: Result<User, DbManagerError>) {
        match self.find_user(username) {
            None => {
                proof {
                    lemma_user_lookup_none(self.db.users@, username@);
                }
                Err(DbManagerError::OpenConnection(StorageFault::RowNotFound))
            },
            Some(found) => {
                proof {
                    lemma_user_lookup_at(self.db.users@, username@, found as int);
                }
                let row = &self.db.users[found];
                match User::from_columns(row.username.as_str(), row.password.as_str()) {
                    Ok(user) => Ok(user),
                    Err(e) => Err(DbManagerError::OpenConnection(StorageFault::UserDecode(e))),
                }
            },
        }
    }
}

} // verus!
