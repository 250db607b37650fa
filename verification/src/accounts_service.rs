//! The accounts service: owns a store manager for account operations.
//! Account features stop here for now — login and authentication are out of
//! this application's scope — so the service only wires itself up.

use vstd::prelude::*;

use crate::db::{BackingStore, DbManager, DbManagerError};

verus! {

/// Failure to set the accounts service up: the store manager could not be
/// created.
#[derive(Debug, PartialEq)]
pub enum AccountsServiceError {
    DbManager(DbManagerError),
}

/// Owns the store manager used for account operations.
#[derive(Debug)]
pub struct AccountsService {
    pub db_manager: DbManager,
}

impl AccountsService {
    /// Wire the accounts service over what the store locator finds: an
    /// existing store is taken over unchanged, an absent one is created.
    pub fn new(disk: Option<BackingStore>) -> (r: Result<AccountsService, AccountsServiceError>)
        ensures
            r is Ok,
            disk matches Some(existing) ==> (r matches Ok(s) && s.db_manager.db == existing
                && !s.db_manager.created_schema),
            disk is None ==> (r matches Ok(s) && s.db_manager.db.is_fresh()
                && s.db_manager.created_schema),
    {
        let db_manager = DbManager::new(disk);
        Ok(AccountsService { db_manager })
    }
}

} // verus!
