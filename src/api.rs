use crate::application::UserService;
use crate::errors::DomainError;
use crate::model::{empty_name_message, is_blank, User};
use crate::ports::lookup;
use std::sync::Arc;
use vstd::prelude::*;

verus! {

/// HTTP status of a request that broke a rule of the domain.
pub const STATUS_BAD_REQUEST: u16 = 400;

/// HTTP status of a request for a record that is not held.
pub const STATUS_NOT_FOUND: u16 = 404;

/// HTTP status of a failure on the server's side.
pub const STATUS_INTERNAL_SERVER_ERROR: u16 = 500;

/// The services that the routes are served from.
#[derive(Debug)]
pub struct Services<U> {
    pub user: Arc<U>,
}

/// The state shared by every request handler.
#[derive(Debug)]
pub struct AppState<S> {
    pub svc: Arc<S>,
}

/// The body of a request to create a user.
#[derive(Debug)]
pub struct CreateUserReq {
    pub id: String,
    pub name: String,
}

/// The body of a failed request.
#[derive(Debug)]
pub struct ErrorRes {
    pub error: String,
}

/// A handle on the user service, taken from the shared state.
pub struct UserSvc<U>(pub Arc<U>);

impl<U> Clone for Services<U> {
    fn clone(&self) -> (r: Self)
        ensures
            r.user == self.user,
    {
        Services { user: Arc::clone(&self.user) }
    }
}

impl<S> Clone for AppState<S> {
    fn clone(&self) -> (r: Self)
        ensures
            r.svc == self.svc,
    {
        AppState { svc: Arc::clone(&self.svc) }
    }
}

impl<U> core::ops::Deref for UserSvc<U> {
    type Target = U;

    fn deref(&self) -> (r: &U)
        ensures
            *r == *self.0,
    {
        &*self.0
    }
}

impl<U> UserSvc<U> {
    /// The user service of the shared state.
    pub fn from_ref(s: &AppState<Services<U>>) -> (r: UserSvc<U>)
        ensures
            r.0 == s.svc.user,
    {
        UserSvc(Arc::clone(&s.svc.user))
    }
}

/// The status with which a failure of kind `e` is answered.
pub open spec fn status_for(e: DomainError) -> u16 {
    match e {
        DomainError::NotFound => STATUS_NOT_FOUND,
        DomainError::Validation(_) => STATUS_BAD_REQUEST,
        DomainError::Other(_) => STATUS_INTERNAL_SERVER_ERROR,
    }
}

/// The message with which a failure `e` is answered; the cause of an
/// `Other` failure is never shown.
pub open spec fn message_for(e: DomainError) -> Seq<char> {
    match e {
        DomainError::NotFound => "not found"@,
        DomainError::Validation(m) => m@,
        DomainError::Other(_) => "internal error"@,
    }
}

/// `out` is the answer to the failure `e`.
pub open spec fn answers(e: DomainError, out: (u16, ErrorRes)) -> bool {
    out.0 == status_for(e) && out.1.error@ == message_for(e)
}

/// `out` is the answer to a failure on the server's side.
pub open spec fn is_internal(out: (u16, ErrorRes)) -> bool {
    out.0 == STATUS_INTERNAL_SERVER_ERROR && out.1.error@ == "internal error"@
}

/// The body of the health check.
pub fn health() -> (r: &'static str)
    ensures
        r@ == "ok"@,
{
    "ok"
}

/// Turns a domain failure into the status and body that a client sees.
pub fn to_http_err(e: DomainError) -> (r: (u16, ErrorRes))
    ensures
        answers(e, r),
{
    let (code, msg) = match e {
        DomainError::NotFound => (STATUS_NOT_FOUND, "not found".to_string()),
        DomainError::Validation(m) => (STATUS_BAD_REQUEST, m),
        DomainError::Other(_) => (STATUS_INTERNAL_SERVER_ERROR, "internal error".to_string()),
    };
    (code, ErrorRes { error: msg })
}

/// Creates the user that `req` describes, answering a failure with its
/// status and body.
pub fn create_user<U: UserService>(user_svc: &mut U, req: CreateUserReq) -> (r: Result<
    (),
    (u16, ErrorRes),
>)
    requires
        old(user_svc).wf(),
    ensures
        final(user_svc).wf(),
        final(user_svc).infallible() == old(user_svc).infallible(),
        old(user_svc).infallible() && !is_blank(req.name@) ==> r is Ok,
        r is Ok ==> !is_blank(req.name@) && final(user_svc).records() == old(
            user_svc,
        ).records().insert(req.id@, (User { id: req.id, name: req.name })),
        is_blank(req.name@) ==> (r matches Err(out) && out.0 == STATUS_BAD_REQUEST && out.1.error@
            == empty_name_message()),
        !is_blank(req.name@) ==> (r is Ok || (r matches Err(out) && is_internal(out))),
        r is Err ==> final(user_svc).records() == old(user_svc).records(),
{
    match user_svc.create_user(req.id, req.name) {
        Ok(()) => Ok(()),
        Err(e) => Err(to_http_err(e)),
    }
}

/// The user held under `id`, or the status and body of the failure.
pub fn get_user<U: UserService>(user_svc: &U, id: String) -> (r: Result<User, (u16, ErrorRes)>)
    requires
        user_svc.wf(),
    ensures
        r matches Ok(u) ==> lookup(user_svc.records(), id@) == Ok::<User, DomainError>(u),
        r matches Err(out) ==> is_internal(out) || (lookup(user_svc.records(), id@) matches Err(e)
            && answers(e, out)),
        lookup(user_svc.records(), id@) is Ok ==> (r is Ok || (r matches Err(out) && is_internal(
            out,
        ))),
        user_svc.infallible() && lookup(user_svc.records(), id@) is Ok ==> r is Ok,
        user_svc.infallible() ==> (r matches Err(out) ==> (lookup(user_svc.records(), id@) matches Err(
            e,
        ) && answers(e, out))),
{
    match user_svc.get_user(id) {
        Ok(u) => Ok(u),
        Err(e) => Err(to_http_err(e)),
    }
}

} // verus!
