//! Authentication: bearer tokens, the claims an access token carries, and who a request
//! acts for.

use chrono::{TimeDelta, Utc};
use uuid::Uuid;
use vstd::arithmetic::power::pow;
use vstd::prelude::*;

use crate::error::AppError;
use crate::models::{hex_digit_spec, User, UserRole};
use crate::response::HeaderText;
use crate::text::{str_eq, strip_prefix};

verus! {

/// What a token says: its subject (the user id as text), tenant, user, role, expiry (a Unix
/// time in seconds) and kind (`access` or `refresh`).
#[derive(Debug, Clone)]
pub struct JwtClaims {
    pub sub: String,
    pub tenant_id: u128,
    pub user_id: u128,
    pub role: String,
    pub exp: i64,
    pub token_type: String,
}

/// Who a request acts for.
#[derive(Debug, Clone)]
pub struct AuthContext {
    pub tenant_id: u128,
    pub user_id: u128,
    pub role: String,
}

/// Hexadecimal digit `k` (from the most significant, `0 <= k < 32`) of the 128-bit value `id`.
pub open spec fn uuid_nibble(id: u128, k: int) -> int {
    (id as int / pow(16, (31 - k) as nat)) % 16
}

/// The 32 hexadecimal digits of `id`, most significant first.
pub open spec fn uuid_digits(id: u128) -> Seq<char> {
    Seq::new(32, |k: int| hex_digit_spec(uuid_nibble(id, k)))
}

/// The hyphenated text of UUID `id`: its digits in groups of 8, 4, 4, 4 and 12.
pub open spec fn uuid_text_spec(id: u128) -> Seq<char> {
    let d = uuid_digits(id);
    d.subrange(0, 8) + seq!['-'] + d.subrange(8, 12) + seq!['-'] + d.subrange(12, 16) + seq!['-']
        + d.subrange(16, 20) + seq!['-'] + d.subrange(20, 32)
}

/// `Uuid::from_u128(id).to_string()` from `uuid`: the hyphenated lower-case text of the UUID
/// whose big-endian value is `id`.
#[verifier::external_body]
fn uuid_text(id: u128) -> (s: String)
    ensures
        s@ == uuid_text_spec(id),
{
    Uuid::from_u128(id).to_string()
}

/// The Unix time, in seconds, `expires_in_secs` seconds from now, by `chrono`: `None` when
/// `TimeDelta::try_seconds` refuses the amount (beyond `i64::MAX / 1000` seconds either way)
/// or the time lies outside what `DateTime<Utc>` represents. The contract states the first
/// refusal only; the time itself depends on the clock.
#[verifier::external_body]
fn expiry_after(expires_in_secs: i64) -> (r: Option<i64>)
    ensures
        expires_in_secs > i64::MAX / 1000 || expires_in_secs < -(i64::MAX / 1000) ==> r is None,
{
    match TimeDelta::try_seconds(expires_in_secs) {
        Some(d) => match Utc::now().checked_add_signed(d) {
            Some(t) => Some(t.timestamp()),
            None => None,
        },
        None => None,
    }
}

/// Whether `c` carries what a token issued to `user_id` of `tenant_id` with `role` and
/// `token_type`, expiring at `exp`, carries.
pub open spec fn claims_are(c: JwtClaims, tenant_id: u128, user_id: u128, role: Seq<char>, token_type: Seq<char>, exp: i64) -> bool {
    &&& c.sub@ == uuid_text_spec(user_id)
    &&& c.tenant_id == tenant_id
    &&& c.user_id == user_id
    &&& c.role@ == role
    &&& c.exp == exp
    &&& c.token_type@ == token_type
}

impl JwtClaims {
    /// The claims of a token issued to `user_id` of `tenant_id` with `role`, of kind
    /// `token_type`, expiring at the Unix time `exp` (in seconds).
    pub fn with_expiry(tenant_id: u128, user_id: u128, role: &str, token_type: &str, exp: i64) -> (c: JwtClaims)
        ensures
            claims_are(c, tenant_id, user_id, role@, token_type@, exp),
    {
        JwtClaims {
            sub: uuid_text(user_id),
            tenant_id,
            user_id,
            role: String::from_str(role),
            exp,
            token_type: String::from_str(token_type),
        }
    }

    /// The claims of a token issued now to `user_id` of `tenant_id` with `role`, of kind
    /// `token_type`, valid for `expires_in_secs` seconds; `None` when that expiry cannot be
    /// represented. Whether the expiry fits, within the range of seconds `chrono` accepts,
    /// depends on the clock; what is issued for a given expiry is `with_expiry`.
    pub fn issue(tenant_id: u128, user_id: u128, role: &str, token_type: &str, expires_in_secs: i64) -> (r: Option<
        JwtClaims,
    >)
        ensures
            expires_in_secs > i64::MAX / 1000 || expires_in_secs < -(i64::MAX / 1000) ==> r is None,
            r matches Some(c) ==> claims_are(c, tenant_id, user_id, role@, token_type@, c.exp),
    {
        match expiry_after(expires_in_secs) {
            None => None,
            Some(exp) => Some(Self::with_expiry(tenant_id, user_id, role, token_type, exp)),
        }
    }
}

/// The token carried by the `Authorization` header `header`, which must read
/// `Bearer <token>`.
pub fn extract_bearer_token(header: &HeaderText) -> (r: Result<String, AppError>)
    ensures
        match header {
            HeaderText::Missing => r matches Err(e) && e.status == 401 && e.code == 4010 && e.message@
                == "缺少 Authorization"@ && e.request_id is None,
            HeaderText::NotVisibleAscii => r matches Err(e) && e.status == 401 && e.code == 4010 && e.message@
                == "Authorization 非法"@ && e.request_id is None,
            HeaderText::Text(v) => if v@.len() >= 7 && v@.subrange(0, 7) == "Bearer "@ {
                r matches Ok(t) && t@ == v@.subrange(7, v@.len() as int)
            } else {
                r matches Err(e) && e.status == 401 && e.code == 4010 && e.message@ == "Authorization 格式错误"@
                    && e.request_id is None
            },
        },
{
    proof {
        reveal_strlit("Bearer ");
    }
    match header {
        HeaderText::Missing => Err(AppError::unauthorized(String::from_str("缺少 Authorization"))),
        HeaderText::NotVisibleAscii => Err(AppError::unauthorized(String::from_str("Authorization 非法"))),
        HeaderText::Text(v) => match strip_prefix(v.as_str(), "Bearer ") {
            Some(t) => Ok(t),
            None => Err(AppError::unauthorized(String::from_str("Authorization 格式错误"))),
        },
    }
}

/// Accepts the claims `claims` of request `request_id` only from an access token.
pub fn check_access_token(claims: &JwtClaims, request_id: &String) -> (r: Result<(), AppError>)
    ensures
        claims.token_type@ == "access"@ ==> r is Ok,
        claims.token_type@ != "access"@ ==> (r matches Err(e) && e.status == 401 && e.code == 4010 && e.message@
            == "token_type 非 access"@ && e.request_id == Some(*request_id)),
{
    if str_eq(claims.token_type.as_str(), "access") {
        Ok(())
    } else {
        Err(AppError::unauthorized(String::from_str("token_type 非 access")).with_request_id(request_id.clone()))
    }
}

/// Position of the first of `users` that is user `user_id` of tenant `tenant_id`.
pub fn find_user(users: &Vec<User>, tenant_id: u128, user_id: u128) -> (r: Option<usize>)
    ensures
        match r {
            Some(i) => i < users@.len() && users@[i as int].id == user_id && users@[i as int].tenant_id == tenant_id
                && forall|j: int| 0 <= j < i ==> !(#[trigger] users@[j].id == user_id && users@[j].tenant_id == tenant_id),
            None => forall|j: int| 0 <= j < users@.len() ==> !(#[trigger] users@[j].id == user_id && users@[j].tenant_id
                == tenant_id),
        },
{
    let mut i: usize = 0;
    while i < users.len()
        invariant
            i <= users@.len(),
            forall|j: int| 0 <= j < i ==> !(#[trigger] users@[j].id == user_id && users@[j].tenant_id == tenant_id),
        decreases users@.len() - i,
    {
        if users[i].id == user_id && users[i].tenant_id == tenant_id {
            return Some(i);
        }
        i = i + 1;
    }
    None
}

/// Who request `request_id` acts for, given the user its token names as found (`None` when
/// there is no such user).
pub fn auth_context(user: Option<&User>, request_id: &String) -> (r: Result<AuthContext, AppError>)
    ensures
        match user {
            Some(u) => r matches Ok(c) && c.tenant_id == u.tenant_id && c.user_id == u.id && c.role@
                == u.role.name_spec(),
            None => r matches Err(e) && e.status == 401 && e.code == 4010 && e.message@ == "用户不存在或无效"@
                && e.request_id == Some(*request_id),
        },
{
    match user {
        Some(u) => Ok(AuthContext { tenant_id: u.tenant_id, user_id: u.id, role: String::from_str(u.role.as_str()) }),
        None => Err(AppError::unauthorized(String::from_str("用户不存在或无效")).with_request_id(request_id.clone())),
    }
}

} // verus!
