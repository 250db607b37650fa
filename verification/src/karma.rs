//! Domain model of karma points: the purpose taxonomy (`KarmaType`) with its
//! numeric wire encoding, the lifecycle `State` with its textual encoding,
//! the `KarmaPoint` entity, and the `KarmaStatus` lifecycle record together
//! with the decoders used when rows come back from storage.

use vstd::prelude::*;

use crate::text::{ascii_not_upper, lower_of, lowercase, str_eq};

verus! {

/// Domain-level decoding failures of the karma model.
#[derive(Debug, PartialEq)]
pub enum KarmaError {
    /// The integer is not one of the purpose codes 1 through 5.
    InvalidNumericKarmaType(i32),
    /// The text is not a recognised lifecycle state.
    UnsupportedStatus(String),
}

/// The purpose a karma point is tracked under.
#[derive(Debug, Clone, Copy, PartialEq, Eq, Structural)]
pub enum KarmaType {
    Work,
    Social,
    Sport,
    Learning,
    Sleeping,
}

/// The numeric wire and storage encoding of a purpose: 1 through 5, with 0
/// reserved as the "absent" sentinel of an optional purpose column.
pub open spec fn code_of(t: KarmaType) -> int {
    match t {
        KarmaType::Work => 1,
        KarmaType::Social => 2,
        KarmaType::Sport => 3,
        KarmaType::Learning => 4,
        KarmaType::Sleeping => 5,
    }
}

/// The purpose a code from 1 through 5 decodes to; meaningless outside that
/// range (decoding rejects such codes before this is consulted).
pub open spec fn type_of_code(v: int) -> KarmaType {
    if v == 1 {
        KarmaType::Work
    } else if v == 2 {
        KarmaType::Social
    } else if v == 3 {
        KarmaType::Sport
    } else if v == 4 {
        KarmaType::Learning
    } else {
        KarmaType::Sleeping
    }
}

/// Law: every purpose encodes to a code in 1 through 5, and decoding that
/// code yields the purpose again.
pub proof fn lemma_purpose_code_round_trip(t: KarmaType)
    ensures
        1 <= code_of(t) <= 5,
        type_of_code(code_of(t)) == t,
{
}

/// Law: every code in 1 through 5 decodes to a purpose that re-encodes to
/// the same code.
pub proof fn lemma_code_purpose_round_trip(v: int)
    requires
        1 <= v <= 5,
    ensures
        code_of(type_of_code(v)) == v,
{
}

impl KarmaType {
    /// Decode a numeric purpose code; anything outside 1 through 5 is
    /// rejected with the offending value.
    pub fn from_code(value: i32) -> (r: Result<KarmaType, KarmaError>)
        ensures
            1 <= value <= 5 ==> r == Ok::<KarmaType, KarmaError>(type_of_code(value as int)),
            !(1 <= value <= 5) ==> r == Err::<KarmaType, KarmaError>(
                KarmaError::InvalidNumericKarmaType(value),
            ),
    {
        match value {
            1 => Ok(KarmaType::Work),
            2 => Ok(KarmaType::Social),
            3 => Ok(KarmaType::Sport),
            4 => Ok(KarmaType::Learning),
            5 => Ok(KarmaType::Sleeping),
            other_value => Err(KarmaError::InvalidNumericKarmaType(other_value)),
        }
    }

    /// Encode the purpose as its numeric code.
    pub fn code(&self) -> (r: i32)
        ensures
            r as int == code_of(*self),
    {
        match self {
            KarmaType::Work => 1,
            KarmaType::Social => 2,
            KarmaType::Sport => 3,
            KarmaType::Learning => 4,
            KarmaType::Sleeping => 5,
        }
    }
}

/// The lifecycle state of a karma point.
#[derive(Debug, Clone, Copy, PartialEq, Eq, Structural)]
pub enum State {
    Active,
    Closed,
}

/// The textual encoding of a state: the lowercase variant name.
pub open spec fn state_text(s: State) -> Seq<char> {
    match s {
        State::Active => "active"@,
        State::Closed => "closed"@,
    }
}

/// The lenient reading of free text as a state: case-insensitively `active`
/// means `Active`, and everything else falls back to `Closed`.
pub open spec fn state_of_text(t: Seq<char>) -> State {
    if lower_of(t) == "active"@ {
        State::Active
    } else {
        State::Closed
    }
}

/// What the lenient reading comes to on text that case folding leaves
/// alone — in particular on the two state encodings themselves.
pub open spec fn plain_state_of_text(t: Seq<char>) -> State {
    if t == "active"@ {
        State::Active
    } else {
        State::Closed
    }
}

/// Text that `str::to_lowercase` leaves unchanged, as far as the facts
/// trusted of it go: ASCII with no uppercase letter.
pub open spec fn case_stable(t: Seq<char>) -> bool {
    forall|i: int| 0 <= i < t.len() ==> ascii_not_upper(#[trigger] t[i])
}

/// Law: each state's textual encoding decodes back to the state itself —
/// what keeps a stored lifecycle record faithful through the store.
pub proof fn lemma_state_text_round_trip(s: State)
    ensures
        plain_state_of_text(state_text(s)) == s,
{
    reveal_strlit("active");
    reveal_strlit("closed");
    assert("active"@[0] == 'a');
    assert("closed"@[0] == 'c');
}

impl State {
    /// The textual encoding of the state.
    pub fn to_string(&self) -> (r: String)
        ensures
            r@ == state_text(*self),
    {
        match self {
            State::Active => "active".to_owned(),
            State::Closed => "closed".to_owned(),
        }
    }

    /// The lenient reading of free text: case-insensitively `active` means
    /// `Active`; everything else normalises to `Closed`.
    pub fn from_text(value: &str) -> (r: State)
        ensures
            r == state_of_text(value@),
            case_stable(value@) ==> r == plain_state_of_text(value@),
    {
        let lowered = lowercase(value);
        if str_eq(lowered.as_str(), "active") {
            State::Active
        } else {
            State::Closed
        }
    }

    /// The strict reading of text: exactly `active` or `closed`, anything
    /// else rejected with the original text.
    pub fn parse(value: &str) -> (r: Result<State, KarmaError>)
        ensures
            value@ == "active"@ ==> r == Ok::<State, KarmaError>(State::Active),
            value@ == "closed"@ ==> r == Ok::<State, KarmaError>(State::Closed),
            value@ != "active"@ && value@ != "closed"@ ==> (r matches Err(
                KarmaError::UnsupportedStatus(s),
            ) && s@ == value@),
    {
        proof {
            reveal_strlit("active");
            reveal_strlit("closed");
            assert("active"@[0] == 'a');
            assert("closed"@[0] == 'c');
            assert("active"@ != "closed"@);
        }
        if str_eq(value, "active") {
            Ok(State::Active)
        } else if str_eq(value, "closed") {
            Ok(State::Closed)
        } else {
            Err(KarmaError::UnsupportedStatus(value.to_owned()))
        }
    }
}

/// A named unit of tracked effort. `id` is `None` until storage assigns one
/// on first insert; `name` is unique across all stored points.
#[derive(Debug, Clone, PartialEq)]
pub struct KarmaPoint {
    pub id: Option<i32>,
    pub purpose: KarmaType,
    pub name: String,
}

impl KarmaPoint {
    /// A fresh, not yet persisted point: no id.
    pub fn new(purpose: KarmaType, name: String) -> (r: KarmaPoint)
        ensures
            r.id is None,
            r.purpose == purpose,
            r.name == name,
    {
        KarmaPoint { id: None, purpose, name }
    }

    /// A point rehydrated from storage, with the id the store assigned.
    pub fn with_id(id: i32, purpose: KarmaType, name: String) -> (r: KarmaPoint)
        ensures
            r.id == Some(id),
            r.purpose == purpose,
            r.name == name,
    {
        KarmaPoint { id: Some(id), purpose, name }
    }

    /// Decode a `karma` row from its raw columns; the purpose code must be
    /// in range.
    pub fn from_columns(id: i32, purpose: i32, name: String) -> (r: Result<KarmaPoint, KarmaError>)
        ensures
            1 <= purpose <= 5 ==> (r matches Ok(p) && p.id == Some(id) && p.purpose
                == type_of_code(purpose as int) && p.name == name),
            !(1 <= purpose <= 5) ==> r == Err::<KarmaPoint, KarmaError>(
                KarmaError::InvalidNumericKarmaType(purpose),
            ),
    {
        let purpose = match KarmaType::from_code(purpose) {
            Ok(t) => t,
            Err(e) => {
                return Err(e);
            },
        };
        Ok(KarmaPoint::with_id(id, purpose, name))
    }

    pub fn get_purpose(&self) -> (r: KarmaType)
        ensures
            r == self.purpose,
    {
        self.purpose
    }

    pub fn get_name(&self) -> (r: String)
        ensures
            r == self.name,
    {
        self.name.clone()
    }

    pub fn get_id(&self) -> (r: Option<i32>)
        ensures
            r == self.id,
    {
        self.id
    }
}

/// A timestamped lifecycle record of a karma point: which point it belongs
/// to, its state, and, once closed, the purpose it was actually closed with.
#[derive(Debug, Clone, PartialEq)]
pub struct KarmaStatus {
    pub karma_id: i32,
    pub closed_with: Option<KarmaType>,
    pub state: State,
    pub timestamp: i64,
}

impl KarmaStatus {
    /// A status with no closing purpose recorded.
    pub fn new(karma_id: i32, state: State, timestamp: i64) -> (r: KarmaStatus)
        ensures
            r == (KarmaStatus { karma_id, closed_with: None, state, timestamp }),
    {
        KarmaStatus { karma_id, closed_with: None, state, timestamp }
    }

    /// A status carrying the purpose the point was closed with.
    pub fn with_closed_reason(
        karma_id: i32,
        state: State,
        timestamp: i64,
        closed_with: KarmaType,
    ) -> (r: KarmaStatus)
        ensures
            r == (KarmaStatus { karma_id, closed_with: Some(closed_with), state, timestamp }),
    {
        KarmaStatus { karma_id, closed_with: Some(closed_with), state, timestamp }
    }

    /// Decode a `karma_status` row from its raw columns. A `closed_with`
    /// of 0 is the sentinel for "no closing purpose"; 1 through 5 decode to
    /// a purpose; anything else is rejected with the offending value.
    pub fn from_columns(
        karma_id: i32,
        current_state: String,
        timestamp: i64,
        closed_with: i32,
    ) -> (r: Result<KarmaStatus, KarmaError>)
        ensures
            closed_with == 0 ==> (r matches Ok(s) && s == (KarmaStatus {
                karma_id,
                closed_with: None,
                state: state_of_text(current_state@),
                timestamp,
            })),
            1 <= closed_with <= 5 ==> (r matches Ok(s) && s == (KarmaStatus {
                karma_id,
                closed_with: Some(type_of_code(closed_with as int)),
                state: state_of_text(current_state@),
                timestamp,
            })),
            0 <= closed_with <= 5 && case_stable(current_state@) ==> (r matches Ok(s) && s.state
                == plain_state_of_text(current_state@)),
            !(0 <= closed_with <= 5) ==> r == Err::<KarmaStatus, KarmaError>(
                KarmaError::InvalidNumericKarmaType(closed_with),
            ),
    {
        let state = State::from_text(current_state.as_str());
        if closed_with == 0 {
            return Ok(KarmaStatus::new(karma_id, state, timestamp));
        }

        let closed_with = match KarmaType::from_code(closed_with) {
            Ok(t) => t,
            Err(e) => {
                return Err(e);
            },
        };
        Ok(KarmaStatus::with_closed_reason(karma_id, state, timestamp, closed_with))
    }
}

} // verus!
