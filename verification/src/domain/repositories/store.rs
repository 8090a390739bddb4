//! What every store has in common.

use crate::domain::board::BoardState;
use crate::domain::value_objects::mission_error::MissionError;
use vstd::prelude::*;

verus! {

/// A store of missions, crews and chats.
///
/// Both methods are for proofs only. A store outside this crate, whose
/// contents no proof sees, leaves them as they are.
pub trait MissionStore {
    /// The contents of the store.
    open spec fn board(&self) -> BoardState {
        arbitrary()
    }

    /// How many further changes the store promises to carry out. A store
    /// that promises none may answer `MissionError::Unavailable` to
    /// whatever it is asked, and then changes nothing. A change that is
    /// carried out uses up at most one of those promised; nothing else
    /// lessens the promise.
    open spec fn spare(&self) -> nat {
        0
    }
}

/// What is guaranteed of a request that changes the store, given the store
/// before and after, the answer `r`, the answer `due` by the rules, the
/// board `then` that the request leaves behind where it is granted, and the
/// number of `changes` that it makes at most.
///
/// The answer is the one that is due, unless the store is unavailable, which
/// it is not while it has changes to spare. A request that is granted leaves
/// `then` behind, and has used up no more than `changes` of what the store
/// promised. A request that is refused leaves everything as it was.
pub open spec fn carried_out<S: MissionStore + ?Sized, R>(
    before: &S,
    after: &S,
    r: Result<R, MissionError>,
    due: Result<R, MissionError>,
    then: BoardState,
    changes: nat,
) -> bool {
    &&& r == due || r == Err::<R, MissionError>(MissionError::Unavailable)
    &&& before.spare() > 0 ==> r == due
    &&& r is Ok ==> after.board() == then && after.spare() + changes >= before.spare()
    &&& r is Err ==> after.board() == before.board() && after.spare() == before.spare()
}

} // verus!
