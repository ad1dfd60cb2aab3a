use hexagonal_rs::api::{
    create_user, get_user, health, to_http_err, AppState, CreateUserReq, Services, UserSvc,
};
use hexagonal_rs::application::UserServiceImpl;
use hexagonal_rs::errors::DomainError;
use hexagonal_rs::in_memory_repo::InMemoryUserRepository;
use std::sync::Arc;

fn service() -> UserServiceImpl<InMemoryUserRepository> {
    UserServiceImpl::new(InMemoryUserRepository::new())
}

fn req(id: &str, name: &str) -> CreateUserReq {
    CreateUserReq {
        id: id.to_string(),
        name: name.to_string(),
    }
}

#[test]
fn health_says_ok() {
    assert_eq!(health(), "ok");
}

#[test]
fn post_then_get_user() {
    let mut svc = service();
    assert!(create_user(&mut svc, req("u1", "Ann")).is_ok());
    let u = get_user(&svc, "u1".to_string()).unwrap();
    assert_eq!(u.id, "u1");
    assert_eq!(u.name, "Ann");
}

#[test]
fn get_missing_user_is_404() {
    let svc = service();
    let (code, body) = get_user(&svc, "missing".to_string()).unwrap_err();
    assert_eq!(code, 404);
    assert_eq!(body.error, "not found");
}

#[test]
fn post_blank_name_is_400_and_writes_nothing() {
    let mut svc = service();
    let (code, body) = create_user(&mut svc, req("u2", "   ")).unwrap_err();
    assert_eq!(code, 400);
    assert_eq!(body.error, "name is empty");
    let (code, body) = get_user(&svc, "u2".to_string()).unwrap_err();
    assert_eq!(code, 404);
    assert_eq!(body.error, "not found");
}

#[test]
fn errors_map_to_statuses() {
    let (code, body) = to_http_err(DomainError::NotFound);
    assert_eq!((code, body.error.as_str()), (404, "not found"));
    let (code, body) = to_http_err(DomainError::Validation("bad".to_string()));
    assert_eq!((code, body.error.as_str()), (400, "bad"));
    let (code, body) = to_http_err(DomainError::Other("disk on fire".to_string()));
    assert_eq!((code, body.error.as_str()), (500, "internal error"));
}

#[test]
fn shared_state_hands_out_the_same_service() {
    let services = Services {
        user: Arc::new(service()),
    };
    let state = AppState {
        svc: Arc::new(services.clone()),
    };
    let copy = state.clone();
    let handle = UserSvc::from_ref(&copy);
    assert!(Arc::ptr_eq(&handle.0, &services.user));
}

#[test]
fn handle_derefs_to_the_service() {
    let services = Services {
        user: Arc::new(service()),
    };
    let state = AppState {
        svc: Arc::new(services),
    };
    let handle = UserSvc::from_ref(&state);
    let (code, _) = get_user(&*handle, "nobody".to_string()).unwrap_err();
    assert_eq!(code, 404);
}
