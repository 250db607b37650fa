//! The schema/connection manager of the backing store. The store is modelled
//! as the three tables the schema holds — `users`, `karma`, `karma_status` —
//! each a vector of raw rows exactly as the columns are persisted. Opening a
//! store that does not yet exist creates it and runs the schema once; opening
//! an existing store connects to it untouched and does not re-run schema
//! creation.

use vstd::prelude::*;

use crate::karma::KarmaError;
use crate::user::UsernameError;

verus! {

/// A raw row of the `users` table: both columns are unique.
#[derive(Debug, Clone, PartialEq)]
pub struct UserRow {
    pub username: String,
    pub password: String,
}

/// A raw row of the `karma` table: primary key, numeric purpose code,
/// unique name.
#[derive(Debug, Clone, PartialEq)]
pub struct KarmaRow {
    pub id: i32,
    pub purpose: i32,
    pub name: String,
}

/// A raw row of the `karma_status` table: primary key, the karma it refers
/// to, the closing purpose code (0 when absent), the state text, and the
/// timestamp.
#[derive(Debug, Clone, PartialEq)]
pub struct StatusRow {
    pub id: i32,
    pub karma_id: i32,
    pub closed_with: i32,
    pub current_state: String,
    pub timestamp: i64,
}

/// The storage-level faults a repository operation can surface: the expected
/// single row is missing, a unique column was violated, a stored value does
/// not decode into the domain model, or a table's id space is exhausted
/// (the driver would report the store as full).
#[derive(Debug, PartialEq)]
pub enum StorageFault {
    RowNotFound,
    UniqueViolation,
    KarmaDecode(KarmaError),
    UserDecode(UsernameError),
    Full,
}

/// The error of the schema/connection manager: every fault of the layer
/// below surfaces wrapped in this single kind.
#[derive(Debug, PartialEq)]
pub enum DbManagerError {
    OpenConnection(StorageFault),
}

impl DbManagerError {
    /// The tag this error crosses the command boundary under: the internal
    /// cause is deliberately redacted to a generic `external` kind, so no
    /// driver detail leaks to the shell.
    pub fn kind_tag(&self) -> (r: String)
        ensures
            r@ == "external"@,
    {
        "external".to_owned()
    }
}

/// The three tables of one backing store.
#[derive(Debug, Clone, PartialEq)]
pub struct BackingStore {
    pub users: Vec<UserRow>,
    pub karma: Vec<KarmaRow>,
    pub karma_status: Vec<StatusRow>,
}

impl BackingStore {
    /// The `karma` table is well formed: ids are assigned densely in
    /// insertion order, names are unique, and every purpose code is in
    /// range.
    pub open spec fn karma_wf(&self) -> bool {
        &&& forall|i: int|
            0 <= i < self.karma@.len() ==> (#[trigger] self.karma@[i]).id as int == i + 1
        &&& forall|i: int, j: int|
            0 <= i < j < self.karma@.len() ==> (#[trigger] self.karma@[i]).name@ != (
            #[trigger] self.karma@[j]).name@
        &&& forall|i: int|
            0 <= i < self.karma@.len() ==> 1 <= (#[trigger] self.karma@[i]).purpose <= 5
    }

    /// The `karma_status` table is well formed: ids dense in insertion
    /// order, the state text is one of the two encodings, and the closing
    /// purpose is a code or the 0 sentinel.
    pub open spec fn status_wf(&self) -> bool {
        &&& forall|i: int|
            0 <= i < self.karma_status@.len() ==> (#[trigger] self.karma_status@[i]).id as int == i
                + 1
        &&& forall|i: int|
            0 <= i < self.karma_status@.len() ==> ((#[trigger] self.karma_status@[i]).current_state@
                == "active"@ || self.karma_status@[i].current_state@ == "closed"@)
        &&& forall|i: int|
            0 <= i < self.karma_status@.len() ==> 0 <= (#[trigger] self.karma_status@[i]).closed_with
                <= 5
    }

    /// The `users` table is well formed: both unique columns hold.
    pub open spec fn users_wf(&self) -> bool {
        &&& forall|i: int, j: int|
            0 <= i < j < self.users@.len() ==> (#[trigger] self.users@[i]).username@ != (
            #[trigger] self.users@[j]).username@
        &&& forall|i: int, j: int|
            0 <= i < j < self.users@.len() ==> (#[trigger] self.users@[i]).password@ != (
            #[trigger] self.users@[j]).password@
    }

    pub open spec fn wf(&self) -> bool {
        self.karma_wf() && self.status_wf() && self.users_wf()
    }

    /// A store as schema creation leaves it: the three tables exist and are
    /// empty.
    pub open spec fn is_fresh(&self) -> bool {
        self.users@.len() == 0 && self.karma@.len() == 0 && self.karma_status@.len() == 0
    }
}

/// Owns one opened backing store and remembers whether opening it ran
/// schema creation.
#[derive(Debug)]
pub struct DbManager {
    pub db: BackingStore,
    pub created_schema: bool,
}

impl DbManager {
    /// Ensure a backing store exists: an absent store is created and the
    /// schema applied, an existing one is taken over exactly as it is —
    /// schema creation is skipped and nothing in it changes.
    pub fn db_setup(disk: Option<BackingStore>) -> (r: (BackingStore, bool))
        ensures
            disk matches Some(existing) ==> r.0 == existing && !r.1,
            disk is None ==> r.0.is_fresh() && r.0.wf() && r.1,
    {
        match disk {
            Some(existing) => (existing, false),
            None => {
                let fresh = BackingStore { users: Vec::new(), karma: Vec::new(), karma_status: Vec::new() };
                (fresh, true)
            },
        }
    }

    /// Open the manager over what the locator finds on disk: `None` stands
    /// for a store that does not exist yet. Opening an existing store never
    /// re-runs schema creation and never fails; opening an absent one
    /// creates the three empty tables exactly once.
    pub fn new(disk: Option<BackingStore>) -> (r: DbManager)
        ensures
            disk matches Some(existing) ==> r.db == existing && !r.created_schema,
            disk is None ==> r.db.is_fresh() && r.db.wf() && r.created_schema,
    {
        let (db, created_schema) = DbManager::db_setup(disk);
        DbManager { db, created_schema }
    }
}

} // verus!
