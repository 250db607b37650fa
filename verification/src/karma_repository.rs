//! The karma repository: a capability interface for typed queries over the
//! `karma` and `karma_status` tables, and its implementation on the
//! relational backing store. Services depend only on the interface, so a
//! different backend can stand in for the store.

use vstd::prelude::*;

use crate::db::{DbManager, DbManagerError, KarmaRow, StatusRow, StorageFault};
use crate::karma::{
    case_stable, lemma_purpose_code_round_trip, plain_state_of_text, type_of_code, KarmaPoint,
    KarmaStatus, KarmaType,
};
use crate::text::{ascii_not_upper, str_eq};

verus! {

/// The first `karma` row carrying the name, scanning from the front — what
/// a single-row fetch by the unique name column resolves to.
pub open spec fn karma_lookup(rows: Seq<KarmaRow>, name: Seq<char>) -> Option<KarmaRow>
    decreases rows.len(),
{
    if rows.len() == 0 {
        None
    } else if rows[0].name@ == name {
        Some(rows[0])
    } else {
        karma_lookup(rows.drop_first(), name)
    }
}

/// The domain reading of a raw status row: the 0 sentinel means no closing
/// purpose, and the stored state text decodes by its exact encoding.
pub open spec fn status_view(row: StatusRow) -> KarmaStatus {
    KarmaStatus {
        karma_id: row.karma_id,
        closed_with: if row.closed_with == 0 {
            None
        } else {
            Some(type_of_code(row.closed_with as int))
        },
        state: plain_state_of_text(row.current_state@),
        timestamp: row.timestamp,
    }
}

/// The whole `karma_status` table read as domain values, in insertion
/// order.
pub open spec fn statuses_of(rows: Seq<StatusRow>) -> Seq<KarmaStatus> {
    rows.map_values(|row: StatusRow| status_view(row))
}

/// The first status recorded for the karma id, scanning from the front —
/// what a single-row fetch by karma id resolves to.
pub open spec fn first_status_for(ss: Seq<KarmaStatus>, karma_id: i32) -> Option<KarmaStatus>
    decreases ss.len(),
{
    if ss.len() == 0 {
        None
    } else if ss[0].karma_id == karma_id {
        Some(ss[0])
    } else {
        first_status_for(ss.drop_first(), karma_id)
    }
}

proof fn lemma_karma_lookup_at(rows: Seq<KarmaRow>, name: Seq<char>, i: int)
    requires
        0 <= i < rows.len(),
        rows[i].name@ == name,
        forall|j: int| 0 <= j < i ==> (#[trigger] rows[j]).name@ != name,
    ensures
        karma_lookup(rows, name) == Some(rows[i]),
    decreases i,
{
    if i > 0 {
        assert(rows[0].name@ != name);
        let rest = rows.drop_first();
        assert forall|j: int| 0 <= j < i - 1 implies (#[trigger] rest[j]).name@ != name by {
            assert(rest[j] == rows[j + 1]);
        }
        assert(rest[i - 1] == rows[i]);
        lemma_karma_lookup_at(rest, name, i - 1);
    }
}

proof fn lemma_karma_lookup_none(rows: Seq<KarmaRow>, name: Seq<char>)
    requires
        forall|j: int| 0 <= j < rows.len() ==> (#[trigger] rows[j]).name@ != name,
    ensures
        karma_lookup(rows, name) is None,
    decreases rows.len(),
{
    if rows.len() > 0 {
        let rest = rows.drop_first();
        assert forall|j: int| 0 <= j < rest.len() implies (#[trigger] rest[j]).name@ != name by {
            assert(rest[j] == rows[j + 1]);
        }
        lemma_karma_lookup_none(rest, name);
    }
}

proof fn lemma_karma_lookup_push(rows: Seq<KarmaRow>, row: KarmaRow, name: Seq<char>)
    ensures
        karma_lookup(rows.push(row), name) == (if karma_lookup(rows, name) is Some {
            karma_lookup(rows, name)
        } else if row.name@ == name {
            Some(row)
        } else {
            None
        }),
    decreases rows.len(),
{
    let ext = rows.push(row);
    if rows.len() == 0 {
        assert(ext[0] == row);
        assert(ext.drop_first() =~= Seq::<KarmaRow>::empty());
        assert(karma_lookup(Seq::<KarmaRow>::empty(), name) is None);
        assert(karma_lookup(rows, name) is None);
    } else {
        assert(ext[0] == rows[0]);
        assert(ext.drop_first() =~= rows.drop_first().push(row));
        lemma_karma_lookup_push(rows.drop_first(), row, name);
    }
}

proof fn lemma_first_status_at(ss: Seq<KarmaStatus>, karma_id: i32, i: int)
    requires
        0 <= i < ss.len(),
        ss[i].karma_id == karma_id,
        forall|j: int| 0 <= j < i ==> (#[trigger] ss[j]).karma_id != karma_id,
    ensures
        first_status_for(ss, karma_id) == Some(ss[i]),
    decreases i,
{
    if i > 0 {
        assert(ss[0].karma_id != karma_id);
        let rest = ss.drop_first();
        assert forall|j: int| 0 <= j < i - 1 implies (#[trigger] rest[j]).karma_id != karma_id by {
            assert(rest[j] == ss[j + 1]);
        }
        assert(rest[i - 1] == ss[i]);
        lemma_first_status_at(rest, karma_id, i - 1);
    }
}

proof fn lemma_first_status_none(ss: Seq<KarmaStatus>, karma_id: i32)
    requires
        forall|j: int| 0 <= j < ss.len() ==> (#[trigger] ss[j]).karma_id != karma_id,
    ensures
        first_status_for(ss, karma_id) is None,
    decreases ss.len(),
{
    if ss.len() > 0 {
        let rest = ss.drop_first();
        assert forall|j: int| 0 <= j < rest.len() implies (#[trigger] rest[j]).karma_id
            != karma_id by {
            assert(rest[j] == ss[j + 1]);
        }
        lemma_first_status_none(rest, karma_id);
    }
}

/// The two state encodings are ASCII without uppercase letters, so case
/// folding leaves them alone.
proof fn lemma_state_texts_case_stable()
    ensures
        case_stable("active"@),
        case_stable("closed"@),
        "active"@ != "closed"@,
{
    reveal_strlit("active");
    reveal_strlit("closed");
    assert forall|i: int| 0 <= i < "active"@.len() implies ascii_not_upper(
        #[trigger] "active"@[i],
    ) by {
        if i == 0 {
            assert("active"@[0] == 'a');
        } else if i == 1 {
            assert("active"@[1] == 'c');
        } else if i == 2 {
            assert("active"@[2] == 't');
        } else if i == 3 {
            assert("active"@[3] == 'i');
        } else if i == 4 {
            assert("active"@[4] == 'v');
        } else {
            assert("active"@[5] == 'e');
        }
    }
    assert forall|i: int| 0 <= i < "closed"@.len() implies ascii_not_upper(
        #[trigger] "closed"@[i],
    ) by {
        if i == 0 {
            assert("closed"@[0] == 'c');
        } else if i == 1 {
            assert("closed"@[1] == 'l');
        } else if i == 2 {
            assert("closed"@[2] == 'o');
        } else if i == 3 {
            assert("closed"@[3] == 's');
        } else if i == 4 {
            assert("closed"@[4] == 'e');
        } else {
            assert("closed"@[5] == 'd');
        }
    }
    assert("active"@[0] == 'a');
    assert("closed"@[0] == 'c');
}

/// Typed queries for karma points and their lifecycle records, one
/// capability per entity family, over an abstract view of the store: which
/// id and purpose each name holds, and the recorded statuses in order.
pub trait KarmaRepository: Sized {
    /// The backend's own well-formedness; every operation preserves it.
    spec fn wf(&self) -> bool;

    /// The id and purpose stored under the name, if any.
    spec fn karma_at(&self, name: Seq<char>) -> Option<(i32, KarmaType)>;

    /// All lifecycle records, in insertion order.
    spec fn statuses(&self) -> Seq<KarmaStatus>;

    /// How many points the store holds.
    spec fn karma_count(&self) -> nat;

    /// How many lifecycle records the store holds.
    spec fn status_count(&self) -> nat;

    /// Write a new point under its unique name. A name already present is
    /// a unique-constraint violation and leaves the store untouched; an
    /// exhausted id space is a storage fault and also leaves it untouched;
    /// otherwise the name is recorded with the point's purpose under a
    /// fresh id, everything else unchanged, and the point comes back
    /// carrying that id.
    fn insert_karma(&mut self, karma: KarmaPoint) -> (r: Result<KarmaPoint, DbManagerError>)
        requires
            old(self).wf(),
        ensures
            final(self).wf(),
            old(self).karma_at(karma.name@) is Some ==> r == Err::<KarmaPoint, DbManagerError>(
                DbManagerError::OpenConnection(StorageFault::UniqueViolation),
            ) && *final(self) == *old(self),
            old(self).karma_at(karma.name@) is None && old(self).karma_count() >= 0x7fff_ffff
                ==> r == Err::<KarmaPoint, DbManagerError>(
                DbManagerError::OpenConnection(StorageFault::Full),
            ) && *final(self) == *old(self),
            old(self).karma_at(karma.name@) is None && old(self).karma_count() < 0x7fff_ffff
                ==> ({
                &&& (r matches Ok(p) && p.purpose == karma.purpose && p.name == karma.name && (
                final(self).karma_at(karma.name@) matches Some(ip) && ip.1 == karma.purpose
                    && p.id == Some(ip.0)))
                &&& forall|n: Seq<char>|
                    n != karma.name@ ==> final(self).karma_at(n) == old(self).karma_at(n)
                &&& final(self).statuses() == old(self).statuses()
                &&& final(self).karma_count() == old(self).karma_count() + 1
                &&& final(self).status_count() == old(self).status_count()
            }),
    ;

    /// Fetch the one point stored under the name: its id, purpose and name
    /// come back as stored; a name nobody holds is a not-found fault.
    fn get_karma_by_name(&self, name: String) -> (r: Result<KarmaPoint, DbManagerError>)
        requires
            self.wf(),
        ensures
            self.karma_at(name@) is None ==> r == Err::<KarmaPoint, DbManagerError>(
                DbManagerError::OpenConnection(StorageFault::RowNotFound),
            ),
            self.karma_at(name@) matches Some(ip) ==> (r matches Ok(p) && p.id == Some(ip.0)
                && p.purpose == ip.1 && p.name@ == name@),
    ;

    /// Append a lifecycle record. The referenced karma id is not checked at
    /// this layer — that is the foreign key's business in the store. An
    /// exhausted id space is a storage fault that leaves the store
    /// untouched.
    fn insert_karma_status(&mut self, status: KarmaStatus) -> (r: Result<
        KarmaStatus,
        DbManagerError,
    >)
        requires
            old(self).wf(),
        ensures
            final(self).wf(),
            old(self).status_count() >= 0x7fff_ffff ==> r == Err::<KarmaStatus, DbManagerError>(
                DbManagerError::OpenConnection(StorageFault::Full),
            ) && *final(self) == *old(self),
            old(self).status_count() < 0x7fff_ffff ==> ({
                &&& r == Ok::<KarmaStatus, DbManagerError>(status)
                &&& final(self).statuses() == old(self).statuses().push(status)
                &&& final(self).status_count() == old(self).status_count() + 1
            }),
            forall|n: Seq<char>| final(self).karma_at(n) == old(self).karma_at(n),
            final(self).karma_count() == old(self).karma_count(),
    ;

    /// Re-resolve the point by name to its canonical id, then fetch the
    /// first status recorded for that id; either step finding nothing is a
    /// not-found fault.
    fn get_karma_status(&self, karma_point: KarmaPoint) -> (r: Result<KarmaStatus, DbManagerError>)
        requires
            self.wf(),
        ensures
            self.karma_at(karma_point.name@) is None ==> r == Err::<KarmaStatus, DbManagerError>(
                DbManagerError::OpenConnection(StorageFault::RowNotFound),
            ),
            self.karma_at(karma_point.name@) matches Some(ip) ==> (match first_status_for(
                self.statuses(),
                ip.0,
            ) {
                None => r == Err::<KarmaStatus, DbManagerError>(
                    DbManagerError::OpenConnection(StorageFault::RowNotFound),
                ),
                Some(s) => r == Ok::<KarmaStatus, DbManagerError>(s),
            }),
    ;
}

impl DbManager {
    /// Index of the first karma row carrying the name, if any.
    fn find_karma(&self, name: &str) -> (r: Option<usize>)
        ensures
            r matches Some(i) ==> (i < self.db.karma@.len() && self.db.karma@[i as int].name@
                == name@ && (forall|j: int|
                0 <= j < i ==> (#[trigger] self.db.karma@[j]).name@ != name@)),
            r is None ==> (forall|j: int|
                0 <= j < self.db.karma@.len() ==> (#[trigger] self.db.karma@[j]).name@ != name@),
    {
        let mut idx: usize = 0;
        while idx < self.db.karma.len()
            invariant
                idx <= self.db.karma@.len(),
                forall|j: int| 0 <= j < idx ==> (#[trigger] self.db.karma@[j]).name@ != name@,
            decreases self.db.karma@.len() - idx,
        {
            if str_eq(self.db.karma[idx].name.as_str(), name) {
                return Some(idx);
            }
            idx = idx + 1;
        }
        None
    }

    /// Index of the first status row referencing the karma id, if any.
    fn find_status(&self, karma_id: i32) -> (r: Option<usize>)
        ensures
            r matches Some(i) ==> (i < self.db.karma_status@.len() && self.db.karma_status@[
                i as int
            ].karma_id == karma_id && (forall|j: int|
                0 <= j < i ==> (#[trigger] self.db.karma_status@[j]).karma_id != karma_id)),
            r is None ==> (forall|j: int|
                0 <= j < self.db.karma_status@.len() ==> (#[trigger] self.db.karma_status@[
                    j
                ]).karma_id != karma_id),
    {
        let mut idx: usize = 0;
        while idx < self.db.karma_status.len()
            invariant
                idx <= self.db.karma_status@.len(),
                forall|j: int|
                    0 <= j < idx ==> (#[trigger] self.db.karma_status@[j]).karma_id != karma_id,
            decreases self.db.karma_status@.len() - idx,
        {
            if self.db.karma_status[idx].karma_id == karma_id {
                return Some(idx);
            }
            idx = idx + 1;
        }
        None
    }
}

impl KarmaRepository for DbManager {
    open spec fn wf(&self) -> bool {
        self.db.wf()
    }

    open spec fn karma_at(&self, name: Seq<char>) -> Option<(i32, KarmaType)> {
        match karma_lookup(self.db.karma@, name) {
            None => None,
            Some(row) => Some((row.id, type_of_code(row.purpose as int))),
        }
    }

    open spec fn statuses(&self) -> Seq<KarmaStatus> {
        statuses_of(self.db.karma_status@)
    }

    open spec fn karma_count(&self) -> nat {
        self.db.karma@.len()
    }

    open spec fn status_count(&self) -> nat {
        self.db.karma_status@.len()
    }

    fn insert_karma(&mut self, karma: KarmaPoint) -> (r: Result<KarmaPoint, DbManagerError>) {
        match self.find_karma(karma.name.as_str()) {
            Some(found) => {
                proof {
                    lemma_karma_lookup_at(self.db.karma@, karma.name@, found as int);
                }
                Err(DbManagerError::OpenConnection(StorageFault::UniqueViolation))
            },
            None => {
                proof {
                    lemma_karma_lookup_none(self.db.karma@, karma.name@);
                }
                if self.db.karma.len() >= 0x7fff_ffff {
                    return Err(DbManagerError::OpenConnection(StorageFault::Full));
                }
                let ghost old_rows = self.db.karma@;
                let next_id = self.db.karma.len() as i32 + 1;
                let row = KarmaRow {
                    id: next_id,
                    purpose: karma.purpose.code(),
                    name: karma.get_name(),
                };
                self.db.karma.push(row);
                proof {
                    lemma_purpose_code_round_trip(karma.purpose);
                    lemma_karma_lookup_push(old_rows, row, karma.name@);
                    assert forall|n: Seq<char>| n != karma.name@ implies self.karma_at(n) == old(
                        self,
                    ).karma_at(n) by {
                        lemma_karma_lookup_push(old_rows, row, n);
                    }
                }
                Ok(KarmaPoint::with_id(next_id, karma.purpose, karma.name))
            },
        }
    }

    fn get_karma_by_name(&self, name: String) -> (r: Result<KarmaPoint, DbManagerError>) {
        match self.find_karma(name.as_str()) {
            None => {
                proof {
                    lemma_karma_lookup_none(self.db.karma@, name@);
                }
                Err(DbManagerError::OpenConnection(StorageFault::RowNotFound))
            },
            Some(found) => {
                proof {
                    lemma_karma_lookup_at(self.db.karma@, name@, found as int);
                }
                let row = &self.db.karma[found];
                match KarmaPoint::from_columns(row.id, row.purpose, row.name.clone()) {
                    Ok(point) => Ok(point),
                    Err(e) => Err(DbManagerError::OpenConnection(StorageFault::KarmaDecode(e))),
                }
            },
        }
    }

    fn insert_karma_status(&mut self, status: KarmaStatus) -> (r: Result<
        KarmaStatus,
        DbManagerError,
    >) {
        if self.db.karma_status.len() >= 0x7fff_ffff {
            return Err(DbManagerError::OpenConnection(StorageFault::Full));
        }
        let ghost old_rows = self.db.karma_status@;
        let next_id = self.db.karma_status.len() as i32 + 1;
        let closed_with = match &status.closed_with {
            Some(t) => t.code(),
            None => 0,
        };
        let row = StatusRow {
            id: next_id,
            karma_id: status.karma_id,
            closed_with,
            current_state: status.state.to_string(),
            timestamp: status.timestamp,
        };
        self.db.karma_status.push(row);
        proof {
            if status.closed_with is Some {
                lemma_purpose_code_round_trip(status.closed_with->0);
            }
            lemma_state_texts_case_stable();
            assert(status_view(row) == status);
            assert(statuses_of(old_rows.push(row)) =~= statuses_of(old_rows).push(status));
        }
        Ok(status)
    }

    fn get_karma_status(&self, karma_point: KarmaPoint) -> (r: Result<KarmaStatus, DbManagerError>) {
        let resolved = match self.get_karma_by_name(karma_point.get_name()) {
            Ok(p) => p,
            Err(e) => {
                return Err(e);
            },
        };
        let karma_id = match resolved.get_id() {
            Some(id) => id,
            None => {
                // get_karma_by_name always hands back a stored id
                return Err(DbManagerError::OpenConnection(StorageFault::RowNotFound));
            },
        };
        match self.find_status(karma_id) {
            None => {
                proof {
                    assert forall|j: int| 0 <= j < self.statuses().len() implies (
                    #[trigger] self.statuses()[j]).karma_id != karma_id by {
                        assert(self.statuses()[j] == status_view(self.db.karma_status@[j]));
                    }
                    lemma_first_status_none(self.statuses(), karma_id);
                }
                Err(DbManagerError::OpenConnection(StorageFault::RowNotFound))
            },
            Some(found) => {
                proof {
                    assert forall|j: int| 0 <= j < found as int implies (
                    #[trigger] self.statuses()[j]).karma_id != karma_id by {
                        assert(self.statuses()[j] == status_view(self.db.karma_status@[j]));
                    }
                    assert(self.statuses()[found as int] == status_view(
                        self.db.karma_status@[found as int],
                    ));
                    lemma_first_status_at(self.statuses(), karma_id, found as int);
                }
                let row = &self.db.karma_status[found];
                match KarmaStatus::from_columns(
                    row.karma_id,
                    row.current_state.clone(),
                    row.timestamp,
                    row.closed_with,
                ) {
                    Ok(status) => {
                        proof {
                            lemma_state_texts_case_stable();
                            assert(status == status_view(self.db.karma_status@[found as int]));
                        }
                        Ok(status)
                    },
                    Err(e) => Err(DbManagerError::OpenConnection(StorageFault::KarmaDecode(e))),
                }
            },
        }
    }
}

} // verus!
