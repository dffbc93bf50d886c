use user_backend::NewUser;
use user_backend::RepoError;
use user_backend::UserStore;

fn new_user(pseudo: &str, email: &str, password: &str, role: &str) -> NewUser {
    NewUser {
        pseudo: Some(pseudo.to_string()),
        email: Some(email.to_string()),
        password_hash: Some(password.to_string()),
        role: Some(role.to_string()),
    }
}

#[test]
fn create_get_delete_roundtrip() {
    let mut store = UserStore::new();
    let input = new_user("alice", "a@x.com", "secret123", "user");
    let created = store.create_user(&input).unwrap();
    assert_eq!(created.pseudo.as_deref(), Some("alice"));
    assert_eq!(created.email.as_deref(), Some("a@x.com"));
    assert_eq!(created.role.as_deref(), Some("user"));
    let stored_hash = created.password_hash.clone().unwrap();
    assert_ne!(stored_hash, "secret123");

    let fetched = store.get_user_by_id(created.id).unwrap();
    assert_eq!(fetched.id, created.id);
    assert_eq!(fetched.pseudo.as_deref(), Some("alice"));
    assert_eq!(fetched.email.as_deref(), Some("a@x.com"));
    assert_eq!(fetched.password_hash.as_deref(), Some(stored_hash.as_str()));
    assert_eq!(fetched.role.as_deref(), Some("user"));

    assert_eq!(store.delete_user(created.id), Ok(1));
    assert!(matches!(store.get_user_by_id(created.id), Err(RepoError::NotFound)));
}

#[test]
fn generated_ids_are_sequential_and_unique() {
    let mut store = UserStore::new();
    let first = store.create_user(&new_user("a", "a@x.com", "pw", "user")).unwrap();
    let second = store.create_user(&new_user("b", "b@x.com", "pw", "user")).unwrap();
    assert_eq!(first.id, 1);
    assert_eq!(second.id, 2);
    assert_ne!(first.id, second.id);
}

#[test]
fn stored_hash_verifies_against_password() {
    let mut store = UserStore::new();
    let created = store.create_user(&new_user("alice", "a@x.com", "secret123", "user")).unwrap();
    let hash = created.password_hash.unwrap();
    assert!(bcrypt::verify("secret123", &hash).unwrap());
    assert!(!bcrypt::verify("secret124", &hash).unwrap());
    assert!(!bcrypt::verify("", &hash).unwrap());
    assert_eq!(hash.len(), 60);
    assert!(hash.starts_with("$2b$"));
}

#[test]
fn delete_missing_id_returns_zero_not_error() {
    let mut store = UserStore::new();
    assert_eq!(store.delete_user(42), Ok(0));
    let created = store.create_user(&new_user("a", "a@x.com", "pw", "user")).unwrap();
    assert_eq!(store.delete_user(created.id + 1), Ok(0));
    assert_eq!(store.delete_user(created.id), Ok(1));
    assert_eq!(store.delete_user(created.id), Ok(0));
}

#[test]
fn get_all_returns_every_row_in_order() {
    let mut store = UserStore::new();
    let empty = store.get_all_users().unwrap();
    assert!(empty.is_empty());
    store.create_user(&new_user("a", "a@x.com", "pw", "user")).unwrap();
    store.create_user(&new_user("b", "b@x.com", "pw", "admin")).unwrap();
    let all = store.get_all_users().unwrap();
    assert_eq!(all.len(), 2);
    assert_eq!(all[0].pseudo.as_deref(), Some("a"));
    assert_eq!(all[1].pseudo.as_deref(), Some("b"));
}

#[test]
fn update_overwrites_columns_and_rehashes() {
    let mut store = UserStore::new();
    let created = store.create_user(&new_user("a", "a@x.com", "pw", "user")).unwrap();
    let mut changed = created;
    changed.pseudo = Some("b".to_string());
    changed.password_hash = Some("newpw".to_string());
    let updated = store.update_user(&changed).unwrap();
    assert_eq!(updated.id, changed.id);
    assert_eq!(updated.pseudo.as_deref(), Some("b"));
    let hash = updated.password_hash.unwrap();
    assert!(bcrypt::verify("newpw", &hash).unwrap());
    let fetched = store.get_user_by_id(changed.id).unwrap();
    assert_eq!(fetched.pseudo.as_deref(), Some("b"));
}

#[test]
fn update_missing_id_reports_not_found() {
    let mut store = UserStore::new();
    let ghost_row = user_backend::User {
        id: 9,
        pseudo: None,
        email: None,
        password_hash: Some("pw".to_string()),
        role: None,
    };
    assert!(matches!(store.update_user(&ghost_row), Err(RepoError::NotFound)));
    assert!(store.get_all_users().unwrap().is_empty());
}

#[test]
fn create_with_empty_password_still_stores_a_hash() {
    let mut store = UserStore::new();
    let created = store.create_user(&new_user("a", "a@x.com", "", "user")).unwrap();
    let hash = created.password_hash.unwrap();
    assert_eq!(hash.len(), 60);
    assert!(bcrypt::verify("", &hash).unwrap());
}
