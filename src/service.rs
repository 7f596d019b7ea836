use vstd::prelude::*;

use crate::error::{AuthError, StoreError};
use crate::hasher::{argon2_accepts, hashable, Hasher};
use crate::token::{signed_token, TokenCodec};
use crate::user::{uuid_text, uuid_to_string, RegisterUser, User, UserType};

verus! {

/// ASCII capitals to lower case; every other char unchanged.
pub open spec fn ascii_lower(c: char) -> char {
    if 'A' <= c && c <= 'Z' {
        ((c as u32) + 32) as char
    } else {
        c
    }
}

/// An email address in the form the store keys it by.
pub open spec fn normalized(email: Seq<char>) -> Seq<char> {
    email.map_values(|c: char| ascii_lower(c))
}

/// Relies on `str::to_ascii_lowercase`: each ASCII capital becomes its lower
/// case letter, every other char is kept.
#[verifier::external_body]
fn ascii_lowercase(s: &str) -> (r: String)
    ensures
        r@ == normalized(s@),
{
    s.to_ascii_lowercase()
}

/// The store key of an email address: the address with ASCII capitals lowered.
pub fn normalize_email(email: &str) -> (r: String)
    ensures
        r@ == normalized(email@),
{
    ascii_lowercase(email)
}

/// What registration hands to the store for insertion.
#[derive(Debug, Clone)]
pub struct NewIdentity {
    pub email: String,
    pub password_hash: String,
    pub user_type: UserType,
    pub user_group: String,
}

/// Login and registration decisions over what the user store answered.
pub struct AuthService {
    codec: TokenCodec,
}

impl AuthService {
    pub closed spec fn codec_spec(&self) -> TokenCodec {
        self.codec
    }

    pub fn new(codec: TokenCodec) -> (r: AuthService)
        ensures
            r.codec_spec() == codec,
    {
        AuthService { codec }
    }

    /// The token a session for `user` started at `now` carries.
    pub open spec fn session_token(&self, user: User, now: u64) -> Seq<char> {
        signed_token(
            uuid_text(user.id),
            now as int,
            now + self.codec_spec().ttl_spec(),
            self.codec_spec().secret_view(),
        )
    }

    /// Starts a session for `user`: a token for its id, and the record itself.
    pub fn issue_session(&self, user: User, now: u64) -> (r: (String, User))
        requires
            now + self.codec_spec().ttl_spec() <= u64::MAX,
        ensures
            r.1 == user,
            r.0@ == self.session_token(user, now),
    {
        let subject = uuid_to_string(user.id);
        let token = self.codec.issue(subject.as_str(), now);
        (token, user)
    }

    /// Finishes a login once the store answered the lookup by normalized email.
    /// An unknown email and a wrong password give the same error.
    pub fn login(&self, found: Result<Option<User>, StoreError>, password: &str, now: u64) -> (r:
        Result<(String, User), AuthError>)
        requires
            now + self.codec_spec().ttl_spec() <= u64::MAX,
        ensures
            found is Err ==> r == Err::<(String, User), AuthError>(AuthError::StoreUnavailable),
            found == Ok::<Option<User>, StoreError>(None) ==> r == Err::<(String, User), AuthError>(
                AuthError::InvalidCredentials,
            ),
            found is Ok && found->Ok_0 is Some && !argon2_accepts(
                password@,
                found->Ok_0->Some_0.password@,
            ) ==> r == Err::<(String, User), AuthError>(AuthError::InvalidCredentials),
            found is Ok && found->Ok_0 is Some && argon2_accepts(
                password@,
                found->Ok_0->Some_0.password@,
            ) ==> r is Ok && r->Ok_0.1 == found->Ok_0->Some_0 && r->Ok_0.0@ == self.session_token(
                found->Ok_0->Some_0,
                now,
            ),
    {
        match found {
            Err(_) => Err(AuthError::StoreUnavailable),
            Ok(None) => Err(AuthError::InvalidCredentials),
            Ok(Some(user)) => {
                if Hasher::verify(password, user.password.as_str()) {
                    Ok(self.issue_session(user, now))
                } else {
                    Err(AuthError::InvalidCredentials)
                }
            },
        }
    }

    /// Decides a registration once the store answered whether the normalized
    /// email is taken: the record to insert, with the password hashed and the
    /// standard role. Only a password too long for argon2 fails to hash.
    pub fn prepare_registration(exists: Result<bool, StoreError>, body: &RegisterUser) -> (r:
        Result<NewIdentity, AuthError>)
        ensures
            exists is Err ==> r == Err::<NewIdentity, AuthError>(AuthError::StoreUnavailable),
            exists == Ok::<bool, StoreError>(true) ==> r == Err::<NewIdentity, AuthError>(
                AuthError::AlreadyExists,
            ),
            exists == Ok::<bool, StoreError>(false) && hashable(body.password@) ==> r is Ok,
            exists == Ok::<bool, StoreError>(false) && !hashable(body.password@) ==> r == Err::<
                NewIdentity,
                AuthError,
            >(AuthError::Internal),
            r is Ok ==> exists == Ok::<bool, StoreError>(false) && r->Ok_0.email@ == normalized(
                body.email@,
            ) && argon2_accepts(body.password@, r->Ok_0.password_hash@) && r->Ok_0.user_type
                == UserType::STANDARD && r->Ok_0.user_group@ == body.user_group@,
    {
        match exists {
            Err(_) => Err(AuthError::StoreUnavailable),
            Ok(true) => Err(AuthError::AlreadyExists),
            Ok(false) => match Hasher::hash(body.password.as_str()) {
                None => Err(AuthError::Internal),
                Some(hash) => Ok(
                    NewIdentity {
                        email: normalize_email(body.email.as_str()),
                        password_hash: hash,
                        user_type: UserType::STANDARD,
                        user_group: body.user_group.clone(),
                    },
                ),
            },
        }
    }

    /// Finishes a registration once the store answered the insertion.
    pub fn complete_registration(&self, inserted: Result<User, StoreError>, now: u64) -> (r:
        Result<(String, User), AuthError>)
        requires
            now + self.codec_spec().ttl_spec() <= u64::MAX,
        ensures
            inserted is Err ==> r == Err::<(String, User), AuthError>(AuthError::StoreUnavailable),
            inserted is Ok ==> r is Ok && r->Ok_0.1 == inserted->Ok_0 && r->Ok_0.0@
                == self.session_token(inserted->Ok_0, now),
    {
        match inserted {
            Err(_) => Err(AuthError::StoreUnavailable),
            Ok(user) => Ok(self.issue_session(user, now)),
        }
    }
}

} // verus!
