//! Users, their session tokens, and the closed integer-coded type tags of
//! both, together with the username policy and the token-secret generator.

use vstd::prelude::*;
use crate::sys;

verus! {

/// Type of user.
#[derive(Clone, Copy, PartialEq, Eq, Structural, Debug)]
pub enum UserTy {
    /// User that should confirm registration.
    Unregistered,
    /// User that should be confirmed by moderators.
    Unverified,
    /// Normal user.
    Normal,
}

impl UserTy {
    /// Stable integer encoding of this tag.
    pub open spec fn spec_value(self) -> i64 {
        match self {
            UserTy::Unregistered => 0,
            UserTy::Unverified => 1,
            UserTy::Normal => 2,
        }
    }

    pub fn value(self) -> (r: i64)
        ensures
            r == self.spec_value(),
    {
        match self {
            UserTy::Unregistered => 0,
            UserTy::Unverified => 1,
            UserTy::Normal => 2,
        }
    }

    pub open spec fn spec_from_bits(v: i64) -> Option<UserTy> {
        if v == 0 {
            Some(UserTy::Unregistered)
        } else if v == 1 {
            Some(UserTy::Unverified)
        } else if v == 2 {
            Some(UserTy::Normal)
        } else {
            None
        }
    }

    /// Obtain the tag from its integer encoding. A stored value outside the
    /// catalog is a fatal invariant violation, so the precondition excludes
    /// it; [`UserTy::try_from_bits`] is the total decode for the storage
    /// boundary.
    pub fn from_bits(v: i64) -> (r: Self)
        requires
            UserTy::spec_from_bits(v) is Some,
        ensures
            Some(r) == UserTy::spec_from_bits(v),
    {
        if v == 0 {
            UserTy::Unregistered
        } else if v == 1 {
            UserTy::Unverified
        } else {
            UserTy::Normal
        }
    }

    pub fn try_from_bits(v: i64) -> (r: Option<Self>)
        ensures
            r == UserTy::spec_from_bits(v),
    {
        if v == 0 {
            Some(UserTy::Unregistered)
        } else if v == 1 {
            Some(UserTy::Unverified)
        } else if v == 2 {
            Some(UserTy::Normal)
        } else {
            None
        }
    }

    pub open spec fn spec_as_str(self) -> Seq<char> {
        match self {
            UserTy::Unregistered => "Unregistered"@,
            UserTy::Unverified => "Unverified"@,
            UserTy::Normal => "Normal"@,
        }
    }

    /// Convert the tag to its name.
    pub fn as_str(self) -> (r: &'static str)
        ensures
            r@ == self.spec_as_str(),
    {
        match self {
            UserTy::Unregistered => "Unregistered",
            UserTy::Unverified => "Unverified",
            UserTy::Normal => "Normal",
        }
    }

    /// All tags of this catalog, in encoding order.
    pub fn all_values() -> (r: Vec<Self>)
        ensures
            r@ =~= seq![UserTy::Unregistered, UserTy::Unverified, UserTy::Normal],
    {
        let mut v: Vec<UserTy> = Vec::new();
        v.push(UserTy::Unregistered);
        v.push(UserTy::Unverified);
        v.push(UserTy::Normal);
        v
    }
}

/// Type of user token.
#[derive(Clone, Copy, PartialEq, Eq, Structural, Debug)]
pub enum UserTokenTy {
    /// Long-lived general session.
    UserLimited,
    /// Short-lived session issued through the messaging-platform bridge.
    TelegramAuthorization,
}

impl UserTokenTy {
    pub open spec fn spec_value(self) -> i64 {
        match self {
            UserTokenTy::UserLimited => 0,
            UserTokenTy::TelegramAuthorization => 1,
        }
    }

    pub fn value(self) -> (r: i64)
        ensures
            r == self.spec_value(),
    {
        match self {
            UserTokenTy::UserLimited => 0,
            UserTokenTy::TelegramAuthorization => 1,
        }
    }

    pub open spec fn spec_from_bits(v: i64) -> Option<UserTokenTy> {
        if v == 0 {
            Some(UserTokenTy::UserLimited)
        } else if v == 1 {
            Some(UserTokenTy::TelegramAuthorization)
        } else {
            None
        }
    }

    /// Obtain the tag from its integer encoding; the precondition excludes
    /// values outside the catalog (a corrupt store or stale code).
    pub fn from_bits(v: i64) -> (r: Self)
        requires
            UserTokenTy::spec_from_bits(v) is Some,
        ensures
            Some(r) == UserTokenTy::spec_from_bits(v),
    {
        if v == 0 {
            UserTokenTy::UserLimited
        } else {
            UserTokenTy::TelegramAuthorization
        }
    }

    pub fn try_from_bits(v: i64) -> (r: Option<Self>)
        ensures
            r == UserTokenTy::spec_from_bits(v),
    {
        if v == 0 {
            Some(UserTokenTy::UserLimited)
        } else if v == 1 {
            Some(UserTokenTy::TelegramAuthorization)
        } else {
            None
        }
    }

    pub open spec fn spec_as_str(self) -> Seq<char> {
        match self {
            UserTokenTy::UserLimited => "UserLimited"@,
            UserTokenTy::TelegramAuthorization => "TelegramAuthorization"@,
        }
    }

    pub fn as_str(self) -> (r: &'static str)
        ensures
            r@ == self.spec_as_str(),
    {
        match self {
            UserTokenTy::UserLimited => "UserLimited",
            UserTokenTy::TelegramAuthorization => "TelegramAuthorization",
        }
    }

    pub open spec fn spec_lifetime(self) -> i64 {
        match self {
            UserTokenTy::UserLimited => 999999999,
            UserTokenTy::TelegramAuthorization => 1200000,
        }
    }

    /// Returns how long a token of this type lives, in milliseconds.
    pub fn lifetime(self) -> (r: i64)
        ensures
            r == self.spec_lifetime(),
    {
        match self {
            UserTokenTy::UserLimited => 999999999,
            UserTokenTy::TelegramAuthorization => 20 * 60 * 1000,
        }
    }
}

/// Scopes of a user token: a bit-set in which every bit is a valid flag.
#[derive(Clone, Copy, PartialEq, Eq, Structural, Debug)]
pub struct UserTokenScope(pub i64);

impl UserTokenScope {
    pub fn from_bits_retain(v: i64) -> (r: Self)
        ensures
            r == (UserTokenScope(v)),
    {
        UserTokenScope(v)
    }

    pub fn bits(self) -> (r: i64)
        ensures
            r == self.0,
    {
        self.0
    }
}

/// User token: a bearer credential owned by one user.
pub struct UserToken {
    pub id: i64,
    pub ty: UserTokenTy,
    pub user_id: i64,
    pub scope: UserTokenScope,
    pub issued_at: i64,
    pub token: String,
}

impl Clone for UserToken {
    fn clone(&self) -> (r: Self)
        ensures
            r == *self,
    {
        UserToken {
            id: self.id,
            ty: self.ty,
            user_id: self.user_id,
            scope: self.scope,
            issued_at: self.issued_at,
            token: self.token.clone(),
        }
    }
}

/// User identity record.
pub struct User {
    pub id: i64,
    pub ty: UserTy,
    pub username: String,
    pub telegram_id: i64,
}

impl Clone for User {
    fn clone(&self) -> (r: Self)
        ensures
            r == *self,
    {
        User {
            id: self.id,
            ty: self.ty,
            username: self.username.clone(),
            telegram_id: self.telegram_id,
        }
    }
}

pub open spec fn is_username_char(c: char) -> bool {
    ('A' <= c && c <= 'Z') || ('a' <= c && c <= 'z') || ('0' <= c && c <= '9') || c == '.'
}

/// The username policy: the name is non-empty and made only of the
/// permissive alphanumeric-plus-dot class.
pub open spec fn spec_username_ok(s: Seq<char>) -> bool {
    s.len() > 0 && forall|i: int| 0 <= i < s.len() ==> is_username_char(#[trigger] s[i])
}

/// Checks if a user name is correct.
pub fn check_username(v: &str) -> (r: bool)
    ensures
        r == spec_username_ok(v@),
{
    let n = v.unicode_len();
    if n == 0 {
        return false;
    }
    let mut i: usize = 0;
    while i < n
        invariant
            0 < n == v@.len(),
            0 <= i <= n,
            forall|j: int| 0 <= j < i ==> is_username_char(#[trigger] v@[j]),
        decreases n - i,
    {
        let c = v.get_char(i);
        if !(('A' <= c && c <= 'Z') || ('a' <= c && c <= 'z') || ('0' <= c && c <= '9') || c
            == '.') {
            return false;
        }
        i = i + 1;
    }
    true
}

/// The characters a generated token secret is drawn from: the ASCII
/// alphanumerics.
pub open spec fn is_token_char(c: char) -> bool {
    ('A' <= c && c <= 'Z') || ('a' <= c && c <= 'z') || ('0' <= c && c <= '9')
}

/// The alphabet of token secrets, indexed as upper case, then lower case,
/// then digits.
pub open spec fn spec_token_char(d: int) -> char {
    if d < 26 {
        ((65 + d) as u8) as char
    } else if d < 52 {
        ((97 + (d - 26)) as u8) as char
    } else {
        ((48 + (d - 52)) as u8) as char
    }
}

fn token_char(d: usize) -> (r: char)
    requires
        d < 62,
    ensures
        r == spec_token_char(d as int),
        is_token_char(r),
{
    let b: u8 = if d < 26 {
        65 + (d as u8)
    } else if d < 52 {
        97 + ((d as u8) - 26)
    } else {
        48 + ((d as u8) - 52)
    };
    b as char
}

/// Number of characters in a generated token secret.
pub const TOKEN_LENGTH: usize = 48;

/// Generate a fresh token secret: uniformly chosen alphanumeric characters.
pub fn generate_token() -> (r: String)
    ensures
        r@.len() == TOKEN_LENGTH,
        forall|i: int| 0 <= i < r@.len() ==> is_token_char(#[trigger] r@[i]),
{
    let mut s = String::new();
    let mut i: usize = 0;
    while i < TOKEN_LENGTH
        invariant
            0 <= i <= TOKEN_LENGTH,
            s@.len() == i,
            forall|j: int| 0 <= j < s@.len() ==> is_token_char(#[trigger] s@[j]),
        decreases TOKEN_LENGTH - i,
    {
        let idx = sys::random_index(62);
        let c = token_char(idx);
        sys::push_char(&mut s, c);
        i = i + 1;
    }
    s
}

} // verus!
