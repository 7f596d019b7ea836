use gatekeep::{
    filter_user, normalize_email, AuthError, AuthService, Guard, LoginUser, RegisterUser,
    StoreError, TokenCodec, User, UserType,
};

const NOW: u64 = 1_700_000_000;
const SECRET: &str = "unit-test-signing-key";

fn service() -> AuthService {
    AuthService::new(TokenCodec::new(SECRET, 3600))
}

fn guard() -> Guard {
    Guard::new(TokenCodec::new(SECRET, 3600))
}

/// A store held in memory, answering the queries the callers make.
struct MemStore {
    users: Vec<User>,
}

impl MemStore {
    fn find_by_email(&self, email: &str) -> Option<User> {
        self.users.iter().find(|u| u.email == email).cloned()
    }

    fn find_by_id(&self, id: u128) -> Option<User> {
        self.users.iter().find(|u| u.id == id).cloned()
    }

    fn register(&mut self, svc: &AuthService, body: &RegisterUser) -> Result<(String, User), AuthError> {
        let key = normalize_email(&body.email);
        let exists = self.find_by_email(&key).is_some();
        let new = AuthService::prepare_registration(Ok(exists), body)?;
        let user = User {
            id: 0x67e5504410b1426f9247bb680e5fe0c8 + self.users.len() as u128,
            email: new.email,
            password: new.password_hash,
            user_type: new.user_type,
            user_group: new.user_group,
            user_profile: None,
        };
        self.users.push(user.clone());
        svc.complete_registration(Ok(user), NOW)
    }

    fn login(&self, svc: &AuthService, body: &LoginUser) -> Result<(String, User), AuthError> {
        let key = normalize_email(&body.email);
        svc.login(Ok(self.find_by_email(&key)), &body.password, NOW)
    }
}

fn alice() -> RegisterUser {
    RegisterUser {
        email: "alice@example.com".to_string(),
        password: "pw123".to_string(),
        user_group: "team-a".to_string(),
    }
}

#[test]
fn register_then_repeat_is_already_exists() {
    let svc = service();
    let mut store = MemStore { users: vec![] };
    let (token, user) = store.register(&svc, &alice()).unwrap();
    assert!(!token.is_empty());
    assert_eq!(user.email, "alice@example.com");
    assert_eq!(user.user_group, "team-a");
    assert_eq!(user.user_type, UserType::STANDARD);
    assert_eq!(store.register(&svc, &alice()).unwrap_err(), AuthError::AlreadyExists);
    assert_eq!(store.users.len(), 1);
}

#[test]
fn registration_lowercases_email() {
    let svc = service();
    let mut store = MemStore { users: vec![] };
    let body = RegisterUser { email: "Bob@Example.COM".to_string(), ..alice() };
    let (_, user) = store.register(&svc, &body).unwrap();
    assert_eq!(user.email, "bob@example.com");
    let again = RegisterUser { email: "bob@example.com".to_string(), ..alice() };
    assert_eq!(store.register(&svc, &again).unwrap_err(), AuthError::AlreadyExists);
}

#[test]
fn login_scenarios() {
    let svc = service();
    let mut store = MemStore { users: vec![] };
    store.register(&svc, &alice()).unwrap();
    let ok = LoginUser { email: "Alice@Example.com".to_string(), password: "pw123".to_string() };
    let (token, user) = store.login(&svc, &ok).unwrap();
    assert_eq!(user.email, "alice@example.com");
    let id = guard().authenticate(Some(&token), None, NOW).unwrap();
    assert_eq!(id, user.id);
    let wrong = LoginUser { email: "alice@example.com".to_string(), password: "pw124".to_string() };
    assert_eq!(store.login(&svc, &wrong).unwrap_err(), AuthError::InvalidCredentials);
    let unknown = LoginUser { email: "nobody@example.com".to_string(), password: "pw123".to_string() };
    assert_eq!(store.login(&svc, &unknown).unwrap_err(), AuthError::InvalidCredentials);
}

#[test]
fn store_failures_are_store_unavailable() {
    let svc = service();
    assert_eq!(svc.login(Err(StoreError), "pw", NOW).unwrap_err(), AuthError::StoreUnavailable);
    assert_eq!(
        AuthService::prepare_registration(Err(StoreError), &alice()).unwrap_err(),
        AuthError::StoreUnavailable
    );
    assert_eq!(svc.complete_registration(Err(StoreError), NOW).unwrap_err(), AuthError::StoreUnavailable);
    assert_eq!(Guard::resolve(Err(StoreError)).unwrap_err(), AuthError::StoreUnavailable);
}

#[test]
fn stored_hash_that_does_not_parse_refuses_login() {
    let svc = service();
    let user = User {
        id: 7,
        email: "c@example.com".to_string(),
        password: "plain".to_string(),
        user_type: UserType::ADMIN,
        user_group: "g".to_string(),
        user_profile: None,
    };
    assert_eq!(svc.login(Ok(Some(user)), "plain", NOW).unwrap_err(), AuthError::InvalidCredentials);
}

#[test]
fn guard_scenarios() {
    let svc = service();
    let g = guard();
    let mut store = MemStore { users: vec![] };
    let (token, user) = store.register(&svc, &alice()).unwrap();

    let missing = g.authenticate(None, None, NOW);
    assert_eq!(missing, Err(AuthError::MissingToken));
    assert_eq!(AuthError::MissingToken.status_code(), 401);

    let expired = g.authenticate(Some(&token), None, NOW + 3600 + 1);
    assert_eq!(expired, Err(AuthError::InvalidToken));
    assert_eq!(AuthError::InvalidToken.status_code(), 401);

    let header = format!("Bearer {}", token);
    let id = g.authenticate(None, Some(&header), NOW).unwrap();
    let admitted = Guard::resolve(Ok(store.find_by_id(id))).unwrap();
    assert_eq!(admitted.id, user.id);
    assert_eq!(admitted.email, "alice@example.com");

    store.users.clear();
    let id = g.authenticate(Some(&token), None, NOW).unwrap();
    assert_eq!(Guard::resolve(Ok(store.find_by_id(id))).unwrap_err(), AuthError::InvalidToken);
}

#[test]
fn guard_refuses_garbage_and_non_uuid_subjects() {
    let g = guard();
    assert_eq!(g.authenticate(Some("garbage"), None, NOW), Err(AuthError::InvalidToken));
    let odd = TokenCodec::new(SECRET, 3600).issue("not-a-uuid", NOW);
    assert_eq!(g.authenticate(Some(&odd), None, NOW), Err(AuthError::InvalidToken));
    let foreign = TokenCodec::new("other", 3600)
        .issue("67e55044-10b1-426f-9247-bb680e5fe0c8", NOW);
    assert_eq!(g.authenticate(Some(&foreign), None, NOW), Err(AuthError::InvalidToken));
}

#[test]
fn filter_user_drops_the_hash() {
    let user = User {
        id: 0x67e5504410b1426f9247bb680e5fe0c8,
        email: "alice@example.com".to_string(),
        password: "$argon2id$...".to_string(),
        user_type: UserType::STANDARD,
        user_group: "team-a".to_string(),
        user_profile: Some(5),
    };
    let f = filter_user(&user);
    assert_eq!(f.id, "67e55044-10b1-426f-9247-bb680e5fe0c8");
    assert_eq!(f.email, "alice@example.com");
    assert_eq!(f.user_type, "standard");
    assert_eq!(f.user_group, "team-a");
    assert_eq!(f.user_profile, Some(5));
}
