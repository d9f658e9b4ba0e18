use collab_gateway::auth::{authorize, authorize_path};
use collab_gateway::{Credentials, GatewayError, User, UserBackend};
use std::collections::HashSet;

fn login(user_id: i64, password: &str) -> Credentials {
    Credentials { user_id, password: password.to_string() }
}

#[test]
fn new_user_keeps_id_and_documents() {
    let user = User::new(7, &[3, 1, 2]);
    assert_eq!(user.id, 7);
    assert_eq!(user.doc_ids, vec![3, 1, 2]);
    assert_eq!(user.id(), 7);
}

#[test]
fn new_user_has_the_default_secret() {
    let user = User::new(1, &[]);
    assert_eq!(user.pw_hash, b"password".to_vec());
    assert_eq!(user.session_auth_hash(), "password".as_bytes());
    assert_eq!(user.pw_hash, vec![112u8, 97, 115, 115, 119, 111, 114, 100]);
}

#[test]
fn cloned_user_is_the_same() {
    let user = User::new(5, &[8, 9]);
    let copy = user.clone();
    assert_eq!(copy.id, 5);
    assert_eq!(copy.doc_ids, vec![8, 9]);
    assert_eq!(copy.pw_hash, user.pw_hash);
}

#[test]
fn backend_knows_the_four_users() {
    let backend = UserBackend::new();
    let expected: [(i64, Vec<i64>); 4] = [(1, vec![1]), (2, vec![2]), (3, vec![1, 2]), (4, vec![])];
    for (id, docs) in expected {
        let user = backend.get_user(&id).unwrap();
        assert_eq!(user.id, id);
        assert_eq!(user.doc_ids, docs);
        assert_eq!(user.pw_hash, b"password".to_vec());
    }
    assert!(backend.get_user(&0).is_none());
    assert!(backend.get_user(&5).is_none());
    assert!(backend.get_user(&-1).is_none());
}

#[test]
fn empty_backend_knows_nobody() {
    let backend = UserBackend::default();
    assert!(backend.get_user(&1).is_none());
    assert!(backend.authenticate(login(1, "password")).is_none());
}

#[test]
fn authenticate_accepts_the_right_password() {
    let backend = UserBackend::new();
    let user = backend.authenticate(login(3, "password")).unwrap();
    assert_eq!(user.id, 3);
    assert_eq!(user.doc_ids, vec![1, 2]);
}

#[test]
fn authenticate_refuses_a_wrong_password() {
    let backend = UserBackend::new();
    assert!(backend.authenticate(login(3, "Password")).is_none());
    assert!(backend.authenticate(login(3, "")).is_none());
    assert!(backend.authenticate(login(3, "password ")).is_none());
    assert!(backend.authenticate(login(3, "passwor")).is_none());
}

#[test]
fn authenticate_refuses_an_unknown_user() {
    let backend = UserBackend::new();
    assert!(backend.authenticate(login(99, "password")).is_none());
}

#[test]
fn permissions_are_the_users_documents() {
    let backend = UserBackend::new();
    let user = backend.get_user(&3).unwrap();
    let expected: HashSet<i64> = [1, 2].into_iter().collect();
    assert_eq!(backend.get_user_permissions(&user), expected);
    let nobody = backend.get_user(&4).unwrap();
    assert!(backend.get_user_permissions(&nobody).is_empty());
}

#[test]
fn permissions_forget_repetitions() {
    let backend = UserBackend::new();
    let user = User::new(9, &[4, 4, 5, 4]);
    let expected: HashSet<i64> = [4, 5].into_iter().collect();
    assert_eq!(backend.get_user_permissions(&user), expected);
}

#[test]
fn authorize_lets_own_documents_through() {
    let user = User::new(3, &[1, 2]);
    assert_eq!(authorize(&user, 1), Ok(()));
    assert_eq!(authorize(&user, 2), Ok(()));
}

#[test]
fn authorize_forbids_other_documents() {
    let user = User::new(1, &[1]);
    assert_eq!(authorize(&user, 2), Err(GatewayError::Forbidden));
    assert_eq!(authorize(&user, 99), Err(GatewayError::Forbidden));
    let nobody = User::new(4, &[]);
    assert_eq!(authorize(&nobody, 1), Err(GatewayError::Forbidden));
}

#[test]
fn path_without_principal_is_unauthenticated() {
    assert_eq!(authorize_path(None, "1"), Err(GatewayError::Unauthenticated));
    assert_eq!(authorize_path(None, "no such"), Err(GatewayError::Unauthenticated));
}

#[test]
fn path_names_a_document_of_the_principal() {
    let user = User::new(3, &[1, 2, -15, 300]);
    assert_eq!(authorize_path(Some(&user), "1"), Ok(1));
    assert_eq!(authorize_path(Some(&user), "2"), Ok(2));
    assert_eq!(authorize_path(Some(&user), "-15"), Ok(-15));
    assert_eq!(authorize_path(Some(&user), "300"), Ok(300));
}

#[test]
fn path_of_another_document_is_forbidden() {
    let user = User::new(1, &[1]);
    assert_eq!(authorize_path(Some(&user), "2"), Err(GatewayError::Forbidden));
    assert_eq!(authorize_path(Some(&user), "99"), Err(GatewayError::Forbidden));
    assert_eq!(authorize_path(Some(&user), "-1"), Err(GatewayError::Forbidden));
}

#[test]
fn path_must_be_the_exact_name() {
    let user = User::new(1, &[1, 0]);
    for item in ["01", "+1", " 1", "1 ", "1.0", "one", "", "-0", "00", "0x1", "١"] {
        assert_eq!(authorize_path(Some(&user), item), Err(GatewayError::Forbidden), "{:?}", item);
    }
    assert_eq!(authorize_path(Some(&user), "0"), Ok(0));
}
