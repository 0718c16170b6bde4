//! Access-token claims and the roles and permissions they carry.

use vstd::prelude::*;

use crate::utils::clock::now_unix_seconds;
use crate::utils::consts::errors;
use crate::utils::text::{same_text, string_of};

verus! {

/// The issuer written into every token.
pub const ISSUER: &'static str = "app";

/// A token without an explicit expiry lasts this long.
pub const DEFAULT_TOKEN_HOURS: i64 = 8;

pub const SECONDS_PER_HOUR: i64 = 3600;

pub const SECONDS_PER_MINUTE: i64 = 60;

/// The largest number of hours a token's lifetime may be given in: the
/// limit of `chrono::TimeDelta::hours`, `i64::MAX` milliseconds.
pub const MAX_EXP_HOURS: i64 = 2_562_047_788_015;

/// The largest number of minutes, by the same limit.
pub const MAX_EXP_MINUTES: i64 = 153_722_867_280_912;

/// A user's role. The order of the variants is fixed: it ranks the roles
/// from the most to the least privileged.
#[derive(Clone, Copy, Debug, PartialEq, Eq, Structural, PartialOrd, Ord, Hash)]
pub enum AppRole {
    Admin,
    Reseller,
    User,
    Guest,
}

impl Default for AppRole {
    fn default() -> (role: Self)
        ensures
            role == AppRole::Guest,
    {
        AppRole::Guest
    }
}

pub open spec fn spec_role_key(role: AppRole) -> Seq<char> {
    match role {
        AppRole::Admin => "admin"@,
        AppRole::Reseller => "reseller"@,
        AppRole::User => "user"@,
        AppRole::Guest => "guest"@,
    }
}

/// The role a key names, if any.
pub open spec fn spec_role_from_key(key: Seq<char>) -> Option<AppRole> {
    if key == "admin"@ {
        Some(AppRole::Admin)
    } else if key == "reseller"@ {
        Some(AppRole::Reseller)
    } else if key == "user"@ {
        Some(AppRole::User)
    } else if key == "guest"@ {
        Some(AppRole::Guest)
    } else {
        None
    }
}

impl AppRole {
    /// The role's key, in snake case: `admin`, `reseller`, `user`, `guest`.
    pub fn key(self) -> (key: &'static str)
        ensures
            key@ == spec_role_key(self),
    {
        match self {
            AppRole::Admin => "admin",
            AppRole::Reseller => "reseller",
            AppRole::User => "user",
            AppRole::Guest => "guest",
        }
    }

    /// The role whose key is `key` (matched exactly), if there is one.
    pub fn from_key(key: &str) -> (role: Option<AppRole>)
        ensures
            role == spec_role_from_key(key@),
    {
        if same_text(key, "admin") {
            Some(AppRole::Admin)
        } else if same_text(key, "reseller") {
            Some(AppRole::Reseller)
        } else if same_text(key, "user") {
            Some(AppRole::User)
        } else if same_text(key, "guest") {
            Some(AppRole::Guest)
        } else {
            None
        }
    }
}

/// A role's key names that role, and no other.
pub proof fn lemma_role_keys_round_trip(role: AppRole)
    ensures
        spec_role_from_key(spec_role_key(role)) == Some(role),
{
    reveal_strlit("admin");
    reveal_strlit("reseller");
    reveal_strlit("user");
    reveal_strlit("guest");
    assert("admin"@.len() == 5 && "reseller"@.len() == 8 && "user"@.len() == 4 && "guest"@.len() == 5);
    assert("reseller"@ != "admin"@);
    assert("user"@ != "admin"@ && "user"@ != "reseller"@);
    assert("guest"@[0] != "admin"@[0]);
    assert("guest"@ != "admin"@ && "guest"@ != "reseller"@ && "guest"@ != "user"@);
}

/// A permission domain.
#[derive(Clone, Copy, Debug, PartialEq, Eq, Structural, PartialOrd, Ord, Hash)]
pub enum AppPerm {
    User,
    Role,
}

impl AppPerm {
    /// The domain's key: `user` or `role`.
    pub fn key(self) -> (key: &'static str)
        ensures
            key@ == (match self {
                AppPerm::User => "user"@,
                AppPerm::Role => "role"@,
            }),
    {
        match self {
            AppPerm::User => "user",
            AppPerm::Role => "role",
        }
    }
}

/// An operation a permission allows.
#[derive(Clone, Copy, Debug, PartialEq, Eq, Structural, PartialOrd, Ord, Hash)]
pub enum PermOperation {
    Admin,
    Create,
    Read,
    Update,
    Delete,
}

impl PermOperation {
    /// The operation's key: `admin`, `create`, `read`, `update`, `delete`.
    pub fn key(self) -> (key: &'static str)
        ensures
            key@ == (match self {
                PermOperation::Admin => "admin"@,
                PermOperation::Create => "create"@,
                PermOperation::Read => "read"@,
                PermOperation::Update => "update"@,
                PermOperation::Delete => "delete"@,
            }),
    {
        match self {
            PermOperation::Admin => "admin",
            PermOperation::Create => "create",
            PermOperation::Read => "read",
            PermOperation::Update => "update",
            PermOperation::Delete => "delete",
        }
    }
}

/// What an access token says: issuer, expiry and issue time (unix
/// seconds), the user, its roles and its permissions.
#[derive(Debug)]
pub struct Claims {
    pub iss: String,
    pub exp: u64,
    pub iat: u64,
    pub sub: u64,
    pub roles: Vec<AppRole>,
    pub perms: Vec<String>,
}

/// `now + seconds` as a token time: the unix timestamp cast to `u64` as
/// `as` does (a time before 1970 wraps around).
pub open spec fn token_time(now: i64, seconds: int) -> u64 {
    (now + seconds) as u64
}

impl Claims {
    /// Claims issued at `now` (unix seconds) by `ISSUER`, for no user, with
    /// no roles or permissions, expiring `DEFAULT_TOKEN_HOURS` later.
    pub fn issued_at(now: i64) -> (claims: Self)
        requires
            now + DEFAULT_TOKEN_HOURS * SECONDS_PER_HOUR <= i64::MAX,
        ensures
            claims.iss@ == ISSUER@,
            claims.iat == now as u64,
            claims.exp == token_time(now, DEFAULT_TOKEN_HOURS * SECONDS_PER_HOUR),
            claims.sub == 0,
            claims.roles@.len() == 0,
            claims.perms@.len() == 0,
    {
        Claims {
            iss: string_of(ISSUER),
            exp: (now + DEFAULT_TOKEN_HOURS * SECONDS_PER_HOUR) as u64,
            iat: now as u64,
            sub: 0,
            roles: Vec::new(),
            perms: Vec::new(),
        }
    }

    /// Claims issued now; see `issued_at`.
    pub fn new() -> (claims: Self)
        ensures
            claims.iss@ == ISSUER@,
            claims.sub == 0,
            claims.roles@.len() == 0,
            claims.perms@.len() == 0,
            exists|reading: Option<u128>|
                claims.iat == crate::utils::clock::spec_unix_seconds_from(reading) as u64 && claims.exp == #[trigger] token_time(
                    crate::utils::clock::spec_unix_seconds_from(reading),
                    DEFAULT_TOKEN_HOURS * SECONDS_PER_HOUR,
                ),
    {
        let now = now_unix_seconds();
        Claims::issued_at(now)
    }

    /// The same claims expiring `seconds` after `now`.
    pub fn with_exp_at(self, now: i64, seconds: i64) -> (claims: Self)
        requires
            i64::MIN <= now + seconds <= i64::MAX,
        ensures
            claims.exp == token_time(now, seconds as int),
            claims.iss == self.iss,
            claims.iat == self.iat,
            claims.sub == self.sub,
            claims.roles == self.roles,
            claims.perms == self.perms,
    {
        let mut claims = self;
        claims.exp = (now + seconds) as u64;
        claims
    }

    /// The same claims expiring `exp_hours` hours from now.
    pub fn with_exp_hours(self, exp_hours: i64) -> (claims: Self)
        requires
            -MAX_EXP_HOURS <= exp_hours <= MAX_EXP_HOURS,
        ensures
            exists|reading: Option<u128>|
                claims.exp == #[trigger] token_time(crate::utils::clock::spec_unix_seconds_from(reading), exp_hours * SECONDS_PER_HOUR),
            claims.iss == self.iss,
            claims.iat == self.iat,
            claims.sub == self.sub,
            claims.roles == self.roles,
            claims.perms == self.perms,
    {
        let now = now_unix_seconds();
        self.with_exp_at(now, exp_hours * SECONDS_PER_HOUR)
    }

    /// The same claims expiring `exp_minutes` minutes from now.
    pub fn with_exp_minutes(self, exp_minutes: i64) -> (claims: Self)
        requires
            -MAX_EXP_MINUTES <= exp_minutes <= MAX_EXP_MINUTES,
        ensures
            exists|reading: Option<u128>|
                claims.exp == #[trigger] token_time(crate::utils::clock::spec_unix_seconds_from(reading), exp_minutes * SECONDS_PER_MINUTE),
            claims.iss == self.iss,
            claims.iat == self.iat,
            claims.sub == self.sub,
            claims.roles == self.roles,
            claims.perms == self.perms,
    {
        let now = now_unix_seconds();
        self.with_exp_at(now, exp_minutes * SECONDS_PER_MINUTE)
    }

    /// The same claims for user `sub`.
    pub fn with_sub(self, sub: u64) -> (claims: Self)
        ensures
            claims.sub == sub,
            claims.iss == self.iss,
            claims.exp == self.exp,
            claims.iat == self.iat,
            claims.roles == self.roles,
            claims.perms == self.perms,
    {
        let mut claims = self;
        claims.sub = sub;
        claims
    }

    /// The same claims with permissions `perms`.
    pub fn with_perms(self, perms: Vec<String>) -> (claims: Self)
        ensures
            claims.perms == perms,
            claims.iss == self.iss,
            claims.exp == self.exp,
            claims.iat == self.iat,
            claims.sub == self.sub,
            claims.roles == self.roles,
    {
        let mut claims = self;
        claims.perms = perms;
        claims
    }

    /// The same claims with roles `roles`.
    pub fn with_roles(self, roles: Vec<AppRole>) -> (claims: Self)
        ensures
            claims.roles == roles,
            claims.iss == self.iss,
            claims.exp == self.exp,
            claims.iat == self.iat,
            claims.sub == self.sub,
            claims.perms == self.perms,
    {
        let mut claims = self;
        claims.roles = roles;
        claims
    }
}

impl Default for Claims {
    /// Claims issued now, expiring `DEFAULT_TOKEN_HOURS` later.
    fn default() -> (claims: Self)
        ensures
            claims.iss@ == ISSUER@,
            claims.sub == 0,
            claims.roles@.len() == 0,
            claims.perms@.len() == 0,
            exists|reading: Option<u128>|
                claims.iat == crate::utils::clock::spec_unix_seconds_from(reading) as u64 && claims.exp == #[trigger] token_time(
                    crate::utils::clock::spec_unix_seconds_from(reading),
                    DEFAULT_TOKEN_HOURS * SECONDS_PER_HOUR,
                ),
    {
        Claims::new()
    }
}

/// Why a request's token was not accepted.
#[derive(Clone, Copy, Debug, PartialEq, Eq, Structural)]
pub enum AuthError {
    MissingToken,
    InvalidToken,
}

impl AuthError {
    /// The error key reported for it.
    pub fn key(self) -> (key: &'static str)
        ensures
            key@ == (match self {
                AuthError::MissingToken => errors::MISSING_TOKENS@,
                AuthError::InvalidToken => errors::INVALID_TOKEN@,
            }),
    {
        match self {
            AuthError::MissingToken => errors::MISSING_TOKENS,
            AuthError::InvalidToken => errors::INVALID_TOKEN,
        }
    }
}

/// The claims of a bearer token, given what decoding it gave (`None` when
/// the signature, the expiry or the format was refused).
pub fn claims_from_jwt(decoded: Option<Claims>) -> (result: Result<Claims, AuthError>)
    ensures
        match decoded {
            Some(claims) => result == Ok::<Claims, AuthError>(claims),
            None => result == Err::<Claims, AuthError>(AuthError::InvalidToken),
        },
{
    match decoded {
        Some(claims) => Ok(claims),
        None => Err(AuthError::InvalidToken),
    }
}

} // verus!
