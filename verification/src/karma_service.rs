//! The karma service: orchestrates repository calls for karma points and
//! translates every storage error into the single service-level `Storage`
//! kind — finer distinctions belong to the repository layer and are not
//! duplicated here.

use vstd::prelude::*;

use crate::db::{DbManagerError, StorageFault};
use crate::karma::KarmaPoint;
use crate::karma_repository::KarmaRepository;

verus! {

/// Service-level failure: whatever the storage layer reported, wrapped
/// once.
#[derive(Debug, PartialEq)]
pub enum KarmaServiceError {
    Storage(DbManagerError),
}

/// The karma service over any repository backend.
#[derive(Debug)]
pub struct KarmaService<R: KarmaRepository> {
    pub karma_repository: R,
}

impl<R: KarmaRepository> KarmaService<R> {
    pub fn new(karma_repository: R) -> (r: KarmaService<R>)
        ensures
            r.karma_repository == karma_repository,
    {
        KarmaService { karma_repository }
    }

    /// Create a karma point: delegate to the repository, wrapping a
    /// duplicate name — or any other storage fault — into the `Storage`
    /// kind, and hand a created point back carrying its assigned id.
    pub fn create_karma(&mut self, karma: KarmaPoint) -> (r: Result<KarmaPoint, KarmaServiceError>)
        requires
            old(self).karma_repository.wf(),
        ensures
            final(self).karma_repository.wf(),
            old(self).karma_repository.karma_at(karma.name@) is Some ==> (r == Err::<
                KarmaPoint,
                KarmaServiceError,
            >(
                KarmaServiceError::Storage(
                    DbManagerError::OpenConnection(StorageFault::UniqueViolation),
                ),
            ) && final(self).karma_repository == old(self).karma_repository),
            old(self).karma_repository.karma_at(karma.name@) is None && old(
                self,
            ).karma_repository.karma_count() >= 0x7fff_ffff ==> (r == Err::<
                KarmaPoint,
                KarmaServiceError,
            >(KarmaServiceError::Storage(DbManagerError::OpenConnection(StorageFault::Full)))
                && final(self).karma_repository == old(self).karma_repository),
            old(self).karma_repository.karma_at(karma.name@) is None && old(
                self,
            ).karma_repository.karma_count() < 0x7fff_ffff ==> ({
                &&& (r matches Ok(p) && p.purpose == karma.purpose && p.name == karma.name && (
                final(self).karma_repository.karma_at(karma.name@) matches Some(ip) && ip.1
                    == karma.purpose && p.id == Some(ip.0)))
                &&& forall|n: Seq<char>|
                    n != karma.name@ ==> final(self).karma_repository.karma_at(n) == old(
                        self,
                    ).karma_repository.karma_at(n)
                &&& final(self).karma_repository.statuses() == old(
                    self,
                ).karma_repository.statuses()
                &&& final(self).karma_repository.karma_count() == old(
                    self,
                ).karma_repository.karma_count() + 1
            }),
    {
        match self.karma_repository.insert_karma(karma) {
            Ok(p) => Ok(p),
            Err(e) => Err(KarmaServiceError::Storage(e)),
        }
    }
}

} // verus!
