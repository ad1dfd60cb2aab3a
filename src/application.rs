use crate::errors::DomainError;
use crate::model::{empty_name_message, is_blank, User};
use crate::ports::{lookup, UserRepository};
use vstd::prelude::*;

verus! {

/// The use cases offered to the transport layer: create a user, read one.
///
/// A service is seen through `records`, the users it holds by id. One that
/// is `infallible` fails only where the domain rules say so.
pub trait UserService {
    /// The service's own consistency, kept by every operation.
    spec fn wf(&self) -> bool;

    /// Whether the service never fails on its storage's account.
    spec fn infallible(&self) -> bool;

    /// The users held, by id.
    spec fn records(&self) -> Map<Seq<char>, User>;

    /// Validates `name` and stores `User { id, name }`. A blank name fails
    /// with `Validation` and stores nothing; storage may fail with `Other`,
    /// which also leaves the records as they were.
    fn create_user(&mut self, id: String, name: String) -> (r: Result<(), DomainError>)
        requires
            old(self).wf(),
        ensures
            final(self).wf(),
            final(self).infallible() == old(self).infallible(),
            old(self).infallible() && !is_blank(name@) ==> r is Ok,
            r is Ok ==> !is_blank(name@) && final(self).records() == old(self).records().insert(
                id@,
                (User { id: id, name: name }),
            ),
            is_blank(name@) ==> (r matches Err(DomainError::Validation(m)) && m@
                == empty_name_message()),
            r is Err ==> final(self).records() == old(self).records(),
            !is_blank(name@) ==> (r is Ok || r matches Err(DomainError::Other(_))),
    ;

    /// The user held under `id`; `NotFound` when there is none, or `Other`
    /// when storage fails.
    fn get_user(&self, id: String) -> (r: Result<User, DomainError>)
        requires
            self.wf(),
        ensures
            r == lookup(self.records(), id@) || r matches Err(DomainError::Other(_)),
            self.infallible() ==> r == lookup(self.records(), id@),
    ;
}

/// The service over any storage backend `R`.
pub struct UserServiceImpl<R: UserRepository> {
    repo: R,
}

impl<R: UserRepository> UserServiceImpl<R> {
    /// The backend behind this service.
    pub closed spec fn repository(&self) -> R {
        self.repo
    }

    /// A service over `repo`.
    pub fn new(repo: R) -> (r: Self)
        ensures
            r.repository() == repo,
    {
        UserServiceImpl { repo }
    }
}

impl<R: UserRepository> UserService for UserServiceImpl<R> {
    open spec fn wf(&self) -> bool {
        self.repository().wf()
    }

    open spec fn infallible(&self) -> bool {
        self.repository().infallible()
    }

    open spec fn records(&self) -> Map<Seq<char>, User> {
        self.repository().records()
    }

    fn create_user(&mut self, id: String, name: String) -> (r: Result<(), DomainError>) {
        let user = match User::new(id, name) {
            Ok(u) => u,
            Err(e) => return Err(e),
        };
        self.repo.save(user)
    }

    fn get_user(&self, id: String) -> (r: Result<User, DomainError>) {
        self.repo.get(&id)
    }
}

} // verus!
