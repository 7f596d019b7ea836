use vstd::arithmetic::power::pow;
use vstd::prelude::*;

verus! {

/// Role tag of an identity; a closed set checked where records enter from the store.
#[derive(Debug, Clone, Copy, PartialEq, Eq, Structural)]
#[allow(non_camel_case_types)]
pub enum UserType {
    STANDARD,
    ADMIN,
}

pub open spec fn user_type_tag(t: UserType) -> Seq<char> {
    match t {
        UserType::STANDARD => seq!['s', 't', 'a', 'n', 'd', 'a', 'r', 'd'],
        UserType::ADMIN => seq!['a', 'd', 'm', 'i', 'n'],
    }
}

impl UserType {
    /// The tag under which the store keeps this role.
    pub fn as_str(&self) -> (r: &'static str)
        ensures
            r@ == user_type_tag(*self),
    {
        match self {
            UserType::STANDARD => {
                let s = "standard";
                proof {
                    reveal_strlit("standard");
                }
                s
            },
            UserType::ADMIN => {
                let s = "admin";
                proof {
                    reveal_strlit("admin");
                }
                s
            },
        }
    }

    /// Reads a stored role tag; any tag outside the closed set is refused.
    pub fn from_tag(tag: &str) -> (r: Option<UserType>)
        ensures
            forall|t: UserType| (r == Some(t)) <==> tag@ == user_type_tag(t),
    {
        let n = tag.unicode_len();
        if n == 8 && tag.get_char(0) == 's' && tag.get_char(1) == 't' && tag.get_char(2) == 'a'
            && tag.get_char(3) == 'n' && tag.get_char(4) == 'd' && tag.get_char(5) == 'a'
            && tag.get_char(6) == 'r' && tag.get_char(7) == 'd' {
            assert(tag@ =~= user_type_tag(UserType::STANDARD));
            Some(UserType::STANDARD)
        } else if n == 5 && tag.get_char(0) == 'a' && tag.get_char(1) == 'd' && tag.get_char(2)
            == 'm' && tag.get_char(3) == 'i' && tag.get_char(4) == 'n' {
            assert(tag@ =~= user_type_tag(UserType::ADMIN));
            Some(UserType::ADMIN)
        } else {
            proof {
                if tag@ == user_type_tag(UserType::STANDARD) {
                    assert(tag@[0] == 's');
                }
                if tag@ == user_type_tag(UserType::ADMIN) {
                    assert(tag@[0] == 'a');
                }
            }
            None
        }
    }
}

/// A registered account as the store holds it. Ids are UUIDs held as their
/// 128-bit value.
#[derive(Debug, Clone)]
pub struct User {
    pub id: u128,
    pub email: String,
    pub password: String,
    pub user_type: UserType,
    pub user_group: String,
    pub user_profile: Option<u128>,
}

/// The public view of an account: everything but the stored hash.
#[derive(Debug, Clone)]
pub struct FilteredUser {
    pub id: String,
    pub email: String,
    pub user_type: String,
    pub user_group: String,
    pub user_profile: Option<u128>,
}

#[derive(Debug, Clone)]
pub struct UserData {
    pub user: FilteredUser,
}

#[derive(Debug, Clone)]
pub struct UserResponse {
    pub status: String,
    pub data: UserData,
}

/// Body of a login request.
#[derive(Debug, Clone)]
pub struct LoginUser {
    pub email: String,
    pub password: String,
}

/// Body of a registration request.
#[derive(Debug, Clone)]
pub struct RegisterUser {
    pub email: String,
    pub password: String,
    pub user_group: String,
}

/// The lower-case hexadecimal digit for `n` in `0..16`.
pub open spec fn hex_digit(n: int) -> char {
    if n < 10 {
        (48 + n) as char
    } else {
        (87 + n) as char
    }
}

/// The `j`-th of the 32 hex digits of `id`, most significant first.
pub open spec fn nibble(id: u128, j: int) -> int {
    (id as int / pow(16, (31 - j) as nat)) % 16
}

/// The hyphenated lower-case text of a UUID value: 8-4-4-4-12 hex digits.
pub open spec fn uuid_text(id: u128) -> Seq<char> {
    Seq::new(
        36,
        |k: int|
            if k == 8 || k == 13 || k == 18 || k == 23 {
                '-'
            } else {
                hex_digit(
                    nibble(
                        id,
                        if k < 8 {
                            k
                        } else if k < 13 {
                            k - 1
                        } else if k < 18 {
                            k - 2
                        } else if k < 23 {
                            k - 3
                        } else {
                            k - 4
                        },
                    ),
                )
            },
    )
}

/// Relies on uuid's `Uuid::from_u128` (big-endian) and its `Display`, which
/// writes the hyphenated lower-case form.
#[verifier::external_body]
pub(crate) fn uuid_to_string(id: u128) -> (r: String)
    ensures
        r@ == uuid_text(id),
{
    uuid::Uuid::from_u128(id).to_string()
}

/// The UUID value that `Uuid::parse_str` reads from `s`, if any.
pub uninterp spec fn uuid_parsed(s: Seq<char>) -> Option<u128>;

/// Relies on uuid's `Uuid::parse_str`: the answer depends on the text alone,
/// and it reads back the hyphenated form that `Display` writes.
#[verifier::external_body]
pub(crate) fn parse_uuid(s: &str) -> (r: Option<u128>)
    ensures
        r == uuid_parsed(s@),
        forall|id: u128| #[trigger] uuid_text(id) == s@ ==> r == Some(id),
{
    uuid::Uuid::parse_str(s).ok().map(|u| u.as_u128())
}

/// Projects an account onto its public view.
pub fn filter_user(user: &User) -> (r: FilteredUser)
    ensures
        r.id@ == uuid_text(user.id),
        r.email@ == user.email@,
        r.user_type@ == user_type_tag(user.user_type),
        r.user_group@ == user.user_group@,
        r.user_profile == user.user_profile,
{
    FilteredUser {
        id: uuid_to_string(user.id),
        email: user.email.clone(),
        user_type: user.user_type.as_str().to_string(),
        user_group: user.user_group.clone(),
        user_profile: user.user_profile,
    }
}

} // verus!
