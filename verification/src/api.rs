//! The command boundary: the purpose-label reading, the controller that
//! wires the service graph, the process-wide controller slot with its
//! double-checked lazy initialisation protocol, and the `create_karma`
//! command over it. Errors cross this boundary as one more wrapping tag per
//! layer below.

use vstd::prelude::*;

use crate::db::{BackingStore, DbManager, DbManagerError, StorageFault};
use crate::karma::{KarmaPoint, KarmaType};
use crate::karma_repository::{karma_lookup, KarmaRepository};
use crate::karma_service::{KarmaService, KarmaServiceError};
use crate::text::str_eq;

verus! {

/// Failure to initialise the api controller: the store could not be opened
/// and wired.
#[derive(Debug, PartialEq)]
pub enum ApiControllerError {
    DatabaseConnectionFailure(DbManagerError),
}

/// The errors the karma commands report across the boundary.
#[derive(Debug, PartialEq)]
pub enum KarmaApiError {
    /// The purpose label is not supported; carries the rejected text.
    InvalidKarmaType(String),
    ApiControllerFailure(ApiControllerError),
    KarmaCreationFailed(KarmaServiceError),
}

impl KarmaType {
    /// Read a purpose from its text label. Only `work` is mapped today;
    /// every other label is rejected, carrying the original text unchanged.
    pub fn from_label(value: &str) -> (r: Result<KarmaType, KarmaApiError>)
        ensures
            value@ == "work"@ ==> r == Ok::<KarmaType, KarmaApiError>(KarmaType::Work),
            value@ != "work"@ ==> (r matches Err(KarmaApiError::InvalidKarmaType(s)) && s@
                == value@),
    {
        if str_eq(value, "work") {
            Ok(KarmaType::Work)
        } else {
            Err(KarmaApiError::InvalidKarmaType(value.to_owned()))
        }
    }
}

/// The wired service graph the commands run against.
#[derive(Debug)]
pub struct ApiController {
    pub karma_service: KarmaService<DbManager>,
}

impl ApiController {
    /// Wire the controller: open (or create) the backing store and build
    /// the karma service over it.
    pub fn new(disk: Option<BackingStore>) -> (r: Result<ApiController, ApiControllerError>)
        requires
            disk matches Some(existing) ==> existing.wf(),
        ensures
            r is Ok,
            r matches Ok(c) ==> c.karma_service.karma_repository.wf(),
            disk matches Some(existing) ==> (r matches Ok(c) && c.karma_service.karma_repository.db
                == existing && !c.karma_service.karma_repository.created_schema),
            disk is None ==> (r matches Ok(c) && c.karma_service.karma_repository.db.is_fresh()
                && c.karma_service.karma_repository.created_schema && (forall|n: Seq<char>|
                c.karma_service.karma_repository.karma_at(n) is None)),
    {
        let karma_repo = DbManager::new(disk);
        proof {
            if karma_repo.db.is_fresh() {
                assert forall|n: Seq<char>| karma_repo.karma_at(n) is None by {
                    assert(karma_lookup(karma_repo.db.karma@, n) is None);
                }
            }
        }
        let karma_service = KarmaService::new(karma_repo);

        Ok(ApiController { karma_service })
    }
}

/// The process-wide controller slot: the lazily published controller, the
/// initialisation guard's "done" flag, and how many times store creation
/// has run through this slot.
#[derive(Debug)]
pub struct ControllerCell {
    pub controller: Option<ApiController>,
    pub initialized: bool,
    pub schema_creations: u32,
}

impl ControllerCell {
    /// The slot's invariant: the flag is set exactly when a controller is
    /// published, a published controller fronts a well-formed store, and
    /// the schema has been created exactly once when — and only when — one
    /// is published.
    pub open spec fn wf(&self) -> bool {
        &&& self.initialized <==> self.controller is Some
        &&& (self.controller matches Some(c) ==> c.karma_service.karma_repository.wf())
        &&& self.schema_creations as int == (if self.controller is Some {
            1int
        } else {
            0int
        })
    }

    /// What the slot's store holds under a name; an uninitialised slot
    /// holds nothing yet.
    pub open spec fn karma_at(&self, name: Seq<char>) -> Option<(i32, KarmaType)> {
        match self.controller {
            None => None,
            Some(c) => c.karma_service.karma_repository.karma_at(name),
        }
    }

    /// How many points the slot's store holds.
    pub open spec fn karma_count(&self) -> nat {
        match self.controller {
            None => 0,
            Some(c) => c.karma_service.karma_repository.karma_count(),
        }
    }

    /// An empty slot: nothing published, nothing created yet.
    pub fn new() -> (r: ControllerCell)
        ensures
            r.wf(),
            r.controller is None,
    {
        ControllerCell { controller: None, initialized: false, schema_creations: 0 }
    }

    /// The double-checked initialisation protocol, one access at a time: a
    /// slot already holding a controller is left exactly as it is — the
    /// schema is not created again and the caller observes the published
    /// controller; an empty slot constructs the controller (creating the
    /// store once) and publishes it. Either way, afterwards exactly one
    /// store creation has ever run through this slot.
    pub fn get_controller(&mut self) -> (r: Result<(), ApiControllerError>)
        requires
            old(self).wf(),
        ensures
            final(self).wf(),
            r is Ok,
            final(self).controller is Some,
            final(self).schema_creations == 1,
            old(self).controller is Some ==> *final(self) == *old(self),
            old(self).controller is None ==> (final(self).controller matches Some(c)
                && c.karma_service.karma_repository.db.is_fresh()),
    {
        if self.initialized {
            return Ok(());
        }

        let controller = match ApiController::new(None) {
            Ok(c) => c,
            Err(e) => {
                return Err(e);
            },
        };
        self.controller = Some(controller);
        self.initialized = true;
        self.schema_creations = self.schema_creations + 1;
        Ok(())
    }
}

/// Law: once a controller is published, every further access through the
/// protocol leaves the slot — controller and store alike — untouched, and
/// the store behind it was created exactly once.
pub proof fn lemma_singleton_stable(cell: ControllerCell)
    requires
        cell.wf(),
        cell.controller is Some,
    ensures
        cell.schema_creations == 1,
{
}

/// The `create_karma` command: read the purpose label, build the point,
/// initialise the controller if this is its first use, and create the
/// point through the service. An unsupported label is rejected before the
/// store is touched; a duplicate name surfaces as the wrapped storage
/// error; a new name is recorded under the `work` purpose.
pub fn create_karma(cell: &mut ControllerCell, name: String, purpose: &str) -> (r: Result<
    (),
    KarmaApiError,
>)
    requires
        old(cell).wf(),
    ensures
        final(cell).wf(),
        final(cell).karma_count() <= old(cell).karma_count() + 1,
        purpose@ != "work"@ ==> (r matches Err(KarmaApiError::InvalidKarmaType(s)) && s@ == purpose@
            && *final(cell) == *old(cell)),
        purpose@ == "work"@ ==> ({
            &&& final(cell).controller is Some
            &&& final(cell).schema_creations == 1
            &&& old(cell).karma_at(name@) is Some ==> (r == Err::<(), KarmaApiError>(
                KarmaApiError::KarmaCreationFailed(
                    KarmaServiceError::Storage(
                        DbManagerError::OpenConnection(StorageFault::UniqueViolation),
                    ),
                ),
            ) && *final(cell) == *old(cell))
            &&& old(cell).karma_at(name@) is None && old(cell).karma_count() >= 0x7fff_ffff ==> (r
                == Err::<(), KarmaApiError>(
                KarmaApiError::KarmaCreationFailed(
                    KarmaServiceError::Storage(
                        DbManagerError::OpenConnection(StorageFault::Full),
                    ),
                ),
            ) && *final(cell) == *old(cell))
            &&& old(cell).karma_at(name@) is None && old(cell).karma_count() < 0x7fff_ffff ==> (r
                == Ok::<(), KarmaApiError>(()) && (final(cell).karma_at(name@) matches Some(ip)
                && ip.1 == KarmaType::Work))
            &&& forall|n: Seq<char>| n != name@ ==> final(cell).karma_at(n) == old(cell).karma_at(n)
        }),
{
    let karma_type = match KarmaType::from_label(purpose) {
        Ok(t) => t,
        Err(e) => {
            return Err(e);
        },
    };
    let karma_point = KarmaPoint::new(karma_type, name);

    match cell.get_controller() {
        Ok(()) => {},
        Err(e) => {
            return Err(KarmaApiError::ApiControllerFailure(e));
        },
    }

    let mut controller = cell.controller.take().unwrap();
    let result = controller.karma_service.create_karma(karma_point);
    cell.controller = Some(controller);

    match result {
        Ok(_inserted) => Ok(()),
        Err(e) => Err(KarmaApiError::KarmaCreationFailed(e)),
    }
}

} // verus!
