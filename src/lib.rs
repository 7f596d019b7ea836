//! Authentication core: credential hashing, signed session tokens, the
//! login and registration decisions, and the guard in front of protected routes.
//!
//! Store access, HTTP and cookies live with the caller: the functions here take
//! what the store answered as plain values and decide what follows.

pub mod config;
pub mod error;
pub mod guard;
pub mod hasher;
pub mod service;
pub mod token;
pub mod user;

pub use config::{Config, SESSION_TTL_SECS};
pub use error::{AuthError, StoreError, TokenError};
pub use guard::{extract_token, Guard};
pub use hasher::Hasher;
pub use service::{normalize_email, AuthService, NewIdentity};
pub use token::{check_claims, TokenClaims, TokenCodec};
pub use user::{
    filter_user, FilteredUser, LoginUser, RegisterUser, User, UserData, UserResponse, UserType,
};
