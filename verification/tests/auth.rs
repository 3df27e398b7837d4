//! Sign-up and sign-in against a user store that lives in memory.

use chat_server::handlers::auth::CREATED;
use jwt_simple::prelude::Ed25519KeyPair;
use chat_server::{
    signin_handler, signup_handler, verify_password, AppError, Claim, CreateUser, DecodingKey,
    EncodingKey, NewUser, SignUser, StoreError, User,
};

/// A user store with the uniqueness rules of the real one.
struct Store {
    users: Vec<User>,
}

impl Store {
    fn new() -> Store {
        Store { users: Vec::new() }
    }

    fn insert(&mut self, row: NewUser) -> Result<User, StoreError> {
        if self.users.iter().any(|u| u.email == row.email || u.username == row.username) {
            return Err(StoreError::UniqueViolation);
        }
        let user = User {
            id: self.users.len() as i64 + 1,
            username: row.username,
            nickname: String::new(),
            password: row.password,
            email: row.email,
            created_at: 1_700_000_000,
        };
        self.users.push(user.clone());
        Ok(user)
    }

    fn find_by_email(&self, email: &str) -> Result<User, StoreError> {
        self.users.iter().find(|u| u.email == email).cloned().ok_or(StoreError::NotFound)
    }

    fn delete(&mut self, username: &str) -> usize {
        let before = self.users.len();
        self.users.retain(|u| u.username != username);
        before - self.users.len()
    }
}

fn signup(
    store: &mut Store,
    ek: &EncodingKey,
    username: &str,
    email: &str,
    password: &str,
) -> Result<(u16, String), AppError> {
    let input = CreateUser {
        username: username.to_string(),
        email: email.to_string(),
        password: password.to_string(),
    };
    let row = User::create(&input)?;
    signup_handler(ek, store.insert(row))
}

fn signin(
    store: &Store,
    ek: &EncodingKey,
    email: &str,
    password: &str,
) -> Result<(u16, String), AppError> {
    let input = SignUser { email: email.to_string(), password: password.to_string() };
    signin_handler(ek, &input, store.find_by_email(email))
}

/// The two keys of a key pair made on the spot.
fn keys() -> (EncodingKey, DecodingKey) {
    let pair = Ed25519KeyPair::generate();
    let ek = EncodingKey::load(&pair.to_pem()).unwrap();
    let dk = DecodingKey::load(&pair.public_key().to_pem()).unwrap();
    (ek, dk)
}

#[test]
fn create_user_and_verify_test() {
    let mut store = Store::new();
    let row = User::create(&CreateUser {
        username: "johnsonsmile".to_string(),
        email: "johnsonsmile@163.com".to_string(),
        password: "123456".to_string(),
    })
    .unwrap();
    let u = User::created(store.insert(row)).unwrap();
    assert_eq!(u.username, "johnsonsmile");
    let info = SignUser { email: "johnsonsmile@163.com".to_string(), password: "123456".to_string() };
    let user = User::verify(&info, store.find_by_email(&info.email)).unwrap();
    assert_eq!(user.email, u.email);
    assert_eq!(store.delete(&u.username), 1);
}

#[test]
fn test_signup() {
    let (ek, dk) = keys();
    let mut store = Store::new();
    let (status, token) = signup(&mut store, &ek, "alice", "alice@x.com", "secret123").unwrap();
    assert_eq!(status, 201);
    assert_eq!(status, CREATED);
    let claim = dk.verify(&token).unwrap();
    assert_eq!(claim, Claim { id: 1, nickname: String::new(), email: "alice@x.com".to_string() });
}

#[test]
fn created_row_holds_a_digest_and_not_the_password() {
    let input = CreateUser {
        username: "alice".to_string(),
        email: "alice@x.com".to_string(),
        password: "secret123".to_string(),
    };
    let row = User::create(&input).unwrap();
    assert_eq!(row.username, "alice");
    assert_eq!(row.email, "alice@x.com");
    assert_ne!(row.password, "secret123");
    assert!(row.password.starts_with("$argon2id$"));
    assert_eq!(verify_password("secret123", &row.password), Ok(true));
}

#[test]
fn duplicate_signup_gets_no_token() {
    let (ek, _) = keys();
    let mut store = Store::new();
    signup(&mut store, &ek, "alice", "alice@x.com", "secret123").unwrap();
    assert_eq!(
        signup(&mut store, &ek, "alice2", "alice@x.com", "other"),
        Err(AppError::DuplicateAccount)
    );
    assert_eq!(
        signup(&mut store, &ek, "alice", "alice2@x.com", "other"),
        Err(AppError::DuplicateAccount)
    );
    assert_eq!(store.users.len(), 1);
}

#[test]
fn failing_store_is_a_persistence_error() {
    let (ek, _) = keys();
    assert_eq!(signup_handler(&ek, Err(StoreError::Other)), Err(AppError::PersistenceError));
    assert_eq!(signup_handler(&ek, Err(StoreError::NotFound)), Err(AppError::PersistenceError));
    assert_eq!(
        signup_handler(&ek, Err(StoreError::UniqueViolation)),
        Err(AppError::DuplicateAccount)
    );
    let input = SignUser { email: "a@x.com".to_string(), password: "p".to_string() };
    assert_eq!(
        signin_handler(&ek, &input, Err(StoreError::Other)),
        Err(AppError::PersistenceError)
    );
    assert_eq!(
        signin_handler(&ek, &input, Err(StoreError::UniqueViolation)),
        Err(AppError::PersistenceError)
    );
    assert_eq!(User::created(Err(StoreError::UniqueViolation)), Err(AppError::DuplicateAccount));
}

#[test]
fn wrong_password_and_unknown_email_fail_alike() {
    let (ek, _) = keys();
    let mut store = Store::new();
    signup(&mut store, &ek, "alice", "alice@x.com", "secret123").unwrap();
    let wrong_password = signin(&store, &ek, "alice@x.com", "wrongpass");
    let unknown_email = signin(&store, &ek, "bob@x.com", "secret123");
    assert_eq!(wrong_password, Err(AppError::InvalidCredentials));
    assert_eq!(unknown_email, Err(AppError::InvalidCredentials));
    assert_eq!(wrong_password, unknown_email);
    let a = wrong_password.unwrap_err();
    let b = unknown_email.unwrap_err();
    assert_eq!(a.status_code(), b.status_code());
    assert_eq!(a.message(), b.message());
}

#[test]
fn corrupt_stored_digest_fails_the_signin() {
    let (ek, _) = keys();
    let user = User {
        id: 7,
        username: "carol".to_string(),
        nickname: "c".to_string(),
        password: "not-a-digest".to_string(),
        email: "carol@x.com".to_string(),
        created_at: 0,
    };
    let input = SignUser { email: "carol@x.com".to_string(), password: "secret".to_string() };
    assert_eq!(User::verify(&input, Ok(user.clone())), Err(AppError::MalformedDigest));
    assert_eq!(signin_handler(&ek, &input, Ok(user)), Err(AppError::MalformedDigest));
}

#[test]
fn signup_then_signin() {
    let (ek, dk) = keys();
    let mut store = Store::new();

    let (status, t1) = signup(&mut store, &ek, "alice", "alice@x.com", "secret123").unwrap();
    assert_eq!(status, 201);
    let c1 = dk.verify(&t1).unwrap();
    assert_eq!(c1.email, "alice@x.com");

    assert_eq!(
        signin(&store, &ek, "alice@x.com", "wrongpass"),
        Err(AppError::InvalidCredentials)
    );

    let (status, t2) = signin(&store, &ek, "alice@x.com", "secret123").unwrap();
    assert_eq!(status, 201);
    assert_ne!(t1, t2);
    let c2 = dk.verify(&t2).unwrap();
    assert_eq!(c1, c2);
    assert_eq!(c2.id, 1);
}
