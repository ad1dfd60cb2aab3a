use crate::errors::DomainError;
use crate::model::User;
use vstd::prelude::*;

verus! {

/// No two users of `users` share an id.
pub open spec fn distinct_ids(users: Seq<User>) -> bool {
    forall|i: int, j: int|
        0 <= i < users.len() && 0 <= j < users.len() && i != j ==> (#[trigger] users[i]).id@
            != (#[trigger] users[j]).id@
}

/// What a read of `id` from `records` gives: the user held there, or
/// `NotFound`.
pub open spec fn lookup(records: Map<Seq<char>, User>, id: Seq<char>) -> Result<User, DomainError> {
    if records.contains_key(id) {
        Ok(records[id])
    } else {
        Err(DomainError::NotFound)
    }
}

/// The records after saving each user of `users` in turn, starting from
/// `records`.
pub open spec fn saves(records: Map<Seq<char>, User>, users: Seq<User>) -> Map<Seq<char>, User>
    decreases users.len(),
{
    if users.len() == 0 {
        records
    } else {
        saves(records, users.drop_last()).insert(users.last().id@, users.last())
    }
}

/// The storage capability that the application layer is written against.
///
/// A backend is seen through `records`, the mapping from each id to the user
/// last saved under it. A backend may fail on its own account, and then only
/// with `DomainError::Other`, leaving its records as they were; one that is
/// `infallible` never does.
pub trait UserRepository {
    /// The backend's own consistency, kept by every operation.
    spec fn wf(&self) -> bool;

    /// Whether the backend never fails on its own account.
    spec fn infallible(&self) -> bool;

    /// What the backend holds: id to user.
    spec fn records(&self) -> Map<Seq<char>, User>;

    /// Inserts `user` under its id, replacing any earlier record there.
    fn save(&mut self, user: User) -> (r: Result<(), DomainError>)
        requires
            old(self).wf(),
        ensures
            final(self).wf(),
            final(self).infallible() == old(self).infallible(),
            old(self).infallible() ==> r is Ok,
            r is Ok ==> final(self).records() == old(self).records().insert(user.id@, user),
            r matches Err(e) ==> e is Other && final(self).records() == old(self).records(),
    ;

    /// The record held under `id`; `NotFound` when there is none.
    fn get(&self, id: &String) -> (r: Result<User, DomainError>)
        requires
            self.wf(),
        ensures
            r == lookup(self.records(), id@) || r matches Err(DomainError::Other(_)),
            self.infallible() ==> r == lookup(self.records(), id@),
    ;
}

} // verus!
