use hexagonal_rs::application::{UserService, UserServiceImpl};
use hexagonal_rs::errors::DomainError;
use hexagonal_rs::in_memory_repo::InMemoryUserRepository;
use hexagonal_rs::model::User;
use hexagonal_rs::ports::UserRepository;
use std::sync::Arc;

fn user(id: &str, name: &str) -> User {
    User::new(id.to_string(), name.to_string()).unwrap()
}

#[test]
fn get_before_save_is_not_found() {
    let mut repo = InMemoryUserRepository::new();
    assert_eq!(repo.get(&"u1".to_string()).unwrap_err(), DomainError::NotFound);
    repo.save(user("u2", "Bo")).unwrap();
    assert_eq!(repo.get(&"u1".to_string()).unwrap_err(), DomainError::NotFound);
}

#[test]
fn later_save_wins() {
    let mut repo = InMemoryUserRepository::new();
    repo.save(user("u1", "Ann")).unwrap();
    repo.save(user("u1", "Bea")).unwrap();
    let got = repo.get(&"u1".to_string()).unwrap();
    assert_eq!(got.id, "u1");
    assert_eq!(got.name, "Bea");
}

#[test]
fn repeated_identical_saves() {
    let mut repo = InMemoryUserRepository::new();
    repo.save(user("u1", "Ann")).unwrap();
    repo.save(user("u1", "Ann")).unwrap();
    assert_eq!(repo.get(&"u1".to_string()).unwrap().name, "Ann");
}

#[test]
fn create_then_get_round_trip() {
    let mut svc = UserServiceImpl::new(InMemoryUserRepository::new());
    svc.create_user("u1".to_string(), "  Ann  ".to_string()).unwrap();
    let got = svc.get_user("u1".to_string()).unwrap();
    assert_eq!(got.id, "u1");
    assert_eq!(got.name, "  Ann  ");
}

#[test]
fn blank_create_stores_nothing() {
    let mut svc = UserServiceImpl::new(InMemoryUserRepository::new());
    let err = svc.create_user("u2".to_string(), "   ".to_string()).unwrap_err();
    assert_eq!(err, DomainError::Validation("name is empty".to_string()));
    assert_eq!(svc.get_user("u2".to_string()).unwrap_err(), DomainError::NotFound);
}

#[test]
fn distinct_saves_are_all_kept() {
    let mut repo = InMemoryUserRepository::new();
    for i in 0..50 {
        repo.save(user(&format!("id{i}"), &format!("name{i}"))).unwrap();
    }
    for i in 0..50 {
        let got = repo.get(&format!("id{i}")).unwrap();
        assert_eq!(got.name, format!("name{i}"));
    }
}

#[test]
fn concurrent_distinct_saves_are_all_kept() {
    let rt = tokio::runtime::Runtime::new().unwrap();
    rt.block_on(async {
        let svc = Arc::new(tokio::sync::RwLock::new(UserServiceImpl::new(
            InMemoryUserRepository::new(),
        )));
        let mut writers = Vec::new();
        for i in 0..32 {
            let svc = svc.clone();
            writers.push(tokio::spawn(async move {
                svc.write()
                    .await
                    .create_user(format!("id{i}"), format!("name{i}"))
            }));
        }
        for w in writers {
            w.await.unwrap().unwrap();
        }
        let mut readers = Vec::new();
        for i in 0..32 {
            let svc = svc.clone();
            readers.push(tokio::spawn(async move {
                svc.read().await.get_user(format!("id{i}"))
            }));
        }
        for (i, r) in readers.into_iter().enumerate() {
            let got = r.await.unwrap().unwrap();
            assert_eq!(got.id, format!("id{i}"));
            assert_eq!(got.name, format!("name{i}"));
        }
    });
}
