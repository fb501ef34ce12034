use vstd::prelude::*;
use crate::features::user::model::{
    ChangePasswordRequest, Claims, EditUserRequest, RegisterRequest, UserLoginDto,
};
use crate::util::ids::{is_uuid_text, new_uuid_text};
use crate::util::number::{int_decimal, lemma_parse_i64_of_decimal, parse_i64, parse_i64_spec};
use crate::util::password::{
    argon2_accepts, byte_len, hash_new_password, hash_string_parses, is_password_long_enough,
    password_long_enough, password_matches, phc_parses, utf8_bytes,
};
use crate::util::reply::{Reply, ReplyKey, empty, message, plain, error};
use crate::util::text::{
    has_prefix, lowercase, strip_prefixes, to_lowercase, trim, trim_spec, trim_start_matches,
    chars_of, starts_with,
};

verus! {

/// The claims of a request that passed authentication.
pub struct AuthClaims(pub Claims);

/// What a lookup of one account row came back with.
pub enum UserLookup {
    Found(UserLoginDto),
    /// No such row.
    Missing,
    /// The query failed.
    Failed,
}

/// The answer `status` with `{"message": text}`.
pub open spec fn is_message(r: Reply, status: u16, text: Seq<char>) -> bool {
    r.status == status && r.key == ReplyKey::Message && r.text@ == text
}

/// The username an account is stored and looked up under: trimmed and lowercased.
pub open spec fn normal_username(s: Seq<char>) -> Seq<char> {
    lowercase(trim_spec(s))
}

pub fn normalize_username(s: &str) -> (out: String)
    ensures
        out@ == normal_username(s@),
        out@.len() == 0 <==> trim_spec(s@).len() == 0,
{
    let t = trim(s);
    to_lowercase(t.as_str())
}

/// A new account, ready to be stored.
pub struct NewUser {
    pub id: String,
    pub username: String,
    pub password_hash: String,
    pub name: String,
    pub role_id: i32,
    pub is_active: bool,
    pub created_by: String,
}

/// Registration needs a name and a username that are not blank and a password of at
/// least 8 bytes.
pub open spec fn registration_valid(req: RegisterRequest) -> bool {
    &&& trim_spec(req.name@).len() > 0
    &&& trim_spec(req.username@).len() > 0
    &&& password_long_enough(req.password@)
}

/// The account that a valid registration prepares.
pub open spec fn registered_from(u: NewUser, req: RegisterRequest, created_by: Seq<char>) -> bool {
    &&& u.username@ == normal_username(req.username@)
    &&& u.name@ == trim_spec(req.name@)
    &&& phc_parses(u.password_hash@)
    &&& argon2_accepts(utf8_bytes(req.password@), u.password_hash@)
    &&& is_uuid_text(u.id@)
    &&& u.role_id == req.role_id
    &&& u.is_active == req.is_active
    &&& u.created_by@ == created_by
}

/// Checks a registration and prepares the account: trimmed name, normalised username,
/// a salted hash of the password and a fresh id. `created_by` is the id of the user
/// who registers it. Hashing refuses only a password longer than `0xFFFF_FFFF` bytes.
pub fn prepare_registration(req: &RegisterRequest, created_by: &str) -> (r: Result<NewUser, Reply>)
    ensures
        !registration_valid(*req) ==> (r matches Err(rep) && is_message(
            rep,
            400,
            "invalid name or invalid username or password too short."@,
        )),
        registration_valid(*req) ==> match r {
            Ok(u) => registered_from(u, *req, created_by@),
            Err(rep) => rep.status == 500 && rep.key == ReplyKey::Empty && byte_len(req.password@)
                > 0xFFFF_FFFF,
        },
{
    let username = normalize_username(req.username.as_str());
    let name = trim(req.name.as_str());
    if name.as_str().is_empty() || username.as_str().is_empty() || !is_password_long_enough(
        req.password.as_str(),
    ) {
        return Err(message(400, "invalid name or invalid username or password too short."));
    }
    let password_hash = match hash_new_password(req.password.as_str()) {
        Some(h) => h,
        None => return Err(empty(500)),
    };
    let id = new_uuid_text();
    Ok(
        NewUser {
            id,
            username,
            password_hash,
            name,
            role_id: req.role_id,
            is_active: req.is_active,
            created_by: created_by.to_owned(),
        },
    )
}

/// The answer to a registration once the account was written, or the write failed
/// with `Err(error text)`.
pub fn registration_reply(stored: Result<(), String>) -> (r: Reply)
    ensures
        stored is Ok ==> is_message(r, 200, "User successfully created."@),
        stored matches Err(e) ==> r.status == 500 && r.key == ReplyKey::Error && r.text@ == e@,
{
    match stored {
        Ok(()) => message(200, "User successfully created."),
        Err(e) => error(500, e.as_str()),
    }
}

/// An edit of an account: `None` leaves a field as it is.
pub struct UserUpdate {
    pub id: String,
    pub username: Option<String>,
    pub name: Option<String>,
    pub role_id: Option<i32>,
    pub password_hash: Option<String>,
    pub is_active: Option<bool>,
    pub updated_by: String,
}

/// Checks an account edit and prepares it: a username is normalised, a name trimmed,
/// and a new password, which must be at least 8 bytes, is hashed.
pub fn prepare_user_update(req: &EditUserRequest, updated_by: &str) -> (r: Result<UserUpdate, Reply>)
    ensures
        match req.password {
            Some(pw) => if !password_long_enough(pw@) {
                r matches Err(rep) && is_message(
                    rep,
                    400,
                    "Password must be at least 8 characters long."@,
                )
            } else {
                match r {
                    Ok(u) => u.password_hash matches Some(h) && phc_parses(h@) && argon2_accepts(
                        utf8_bytes(pw@),
                        h@,
                    ),
                    Err(rep) => is_message(rep, 500, "Failed to hash password"@) && byte_len(pw@)
                        > 0xFFFF_FFFF,
                }
            },
            None => r matches Ok(u) && u.password_hash is None,
        },
        r matches Ok(u) ==> {
            &&& u.id@ == req.id@
            &&& (match req.username {
                Some(n) => u.username matches Some(v) && v@ == normal_username(n@),
                None => u.username is None,
            })
            &&& (match req.name {
                Some(n) => u.name matches Some(v) && v@ == trim_spec(n@),
                None => u.name is None,
            })
            &&& u.role_id == req.role_id
            &&& u.is_active == req.is_active
            &&& u.updated_by@ == updated_by@
        },
{
    let username = match &req.username {
        Some(s) => Some(normalize_username(s.as_str())),
        None => None,
    };
    let name = match &req.name {
        Some(s) => Some(trim(s.as_str())),
        None => None,
    };
    let password_hash: Option<String> = match &req.password {
        Some(pw) => {
            if is_password_long_enough(pw.as_str()) {
                match hash_new_password(pw.as_str()) {
                    Some(h) => Some(h),
                    None => return Err(message(500, "Failed to hash password")),
                }
            } else {
                return Err(message(400, "Password must be at least 8 characters long."));
            }
        },
        None => None,
    };
    Ok(
        UserUpdate {
            id: req.id.clone(),
            username,
            name,
            role_id: req.role_id,
            password_hash,
            is_active: req.is_active,
            updated_by: updated_by.to_owned(),
        },
    )
}

/// The answer to an account edit once the write was made (`true`) or failed.
pub fn user_update_reply(stored: bool) -> (r: Reply)
    ensures
        stored ==> is_message(r, 200, "User successfully updated."@),
        !stored ==> is_message(r, 500, "Could not update user."@),
{
    if stored {
        message(200, "User successfully updated.")
    } else {
        message(500, "Could not update user.")
    }
}

/// Why the credentials of a looked-up account are refused, if they are.
pub open spec fn credentials_refusal(lookup: UserLookup, password: Seq<char>) -> Option<(u16, ReplyKey, Seq<char>)> {
    match lookup {
        UserLookup::Missing => Some((401u16, ReplyKey::Message, "Invalid credentials."@)),
        UserLookup::Failed => Some((500u16, ReplyKey::Message, "Database error during login."@)),
        UserLookup::Found(u) => if !u.is_active {
            Some((403u16, ReplyKey::Message, "Account is not active."@))
        } else if !phc_parses(u.password_hash@) {
            Some((500u16, ReplyKey::Empty, Seq::empty()))
        } else if !argon2_accepts(utf8_bytes(password), u.password_hash@) {
            Some((401u16, ReplyKey::Message, "Invalid credentials."@))
        } else {
            None
        },
    }
}

pub open spec fn reply_is(r: Reply, v: (u16, ReplyKey, Seq<char>)) -> bool {
    r.status == v.0 && r.key == v.1 && r.text@ == v.2
}

/// Checks a password against a looked-up account: the account must exist, be active,
/// hold a readable hash, and the hash must accept the password.
pub fn check_credentials(lookup: UserLookup, password: &str) -> (r: Result<UserLoginDto, Reply>)
    ensures
        match credentials_refusal(lookup, password@) {
            Some(v) => r matches Err(rep) && reply_is(rep, v),
            None => lookup matches UserLookup::Found(u) && r == Ok::<UserLoginDto, Reply>(u),
        },
{
    match lookup {
        UserLookup::Missing => Err(message(401, "Invalid credentials.")),
        UserLookup::Failed => Err(message(500, "Database error during login.")),
        UserLookup::Found(u) => {
            if !u.is_active {
                return Err(message(403, "Account is not active."));
            }
            if !hash_string_parses(u.password_hash.as_str()) {
                return Err(empty(500));
            }
            if !password_matches(password, u.password_hash.as_str()) {
                return Err(message(401, "Invalid credentials."));
            }
            Ok(u)
        },
    }
}

/// The token lifetime in seconds: the configured value when it reads as an `i64`,
/// 3600 otherwise.
pub open spec fn token_lifetime(configured: Option<Seq<char>>) -> i64 {
    match configured {
        Some(s) => match parse_i64_spec(s) {
            Some(v) => v,
            None => 3600,
        },
        None => 3600,
    }
}

pub fn token_lifetime_seconds(configured: Option<&str>) -> (secs: i64)
    ensures
        secs == token_lifetime(
            match configured {
                Some(s) => Some(s@),
                None => None,
            },
        ),
{
    match configured {
        Some(s) => match parse_i64(s) {
            Some(v) => v,
            None => 3600,
        },
        None => 3600,
    }
}

/// The expiry that a session token issued at `now` (seconds since the epoch) with a
/// lifetime of `lifetime` seconds carries: their sum, as the unsigned word that the
/// token's `exp` holds (`(now + lifetime) as usize`, which wraps a negative sum).
pub fn token_expiry(now: i64, lifetime: i64) -> (exp: usize)
    requires
        i64::MIN <= now + lifetime <= i64::MAX,
    ensures
        exp == (now + lifetime) as usize,
        0 <= now + lifetime <= usize::MAX ==> exp == now + lifetime,
{
    let sum: i64 = now + lifetime;
    sum as usize
}

/// The claims of a session token for an account that signed in, valid until `exp`
/// (seconds since the epoch).
pub fn claims_for(user: UserLoginDto, exp: usize) -> (c: Claims)
    ensures
        c.sub == user.id,
        c.name == user.name,
        c.username == user.username,
        c.exp == exp,
        c.role_id == user.role_id,
        c.role == user.role,
        c.can_add_role == user.can_add_role,
        c.can_edit_role == user.can_edit_role,
        c.can_add_user == user.can_add_user,
        c.can_edit_user == user.can_edit_user,
        c.can_add_vendor == user.can_add_vendor,
        c.can_edit_vendor == user.can_edit_vendor,
        c.can_add_project == user.can_add_project,
        c.can_edit_project == user.can_edit_project,
        c.can_add_pm == user.can_add_pm,
        c.can_edit_pm == user.can_edit_pm,
        c.can_verify_pm == user.can_verify_pm,
        c.can_add_unit == user.can_add_unit,
        c.can_edit_unit == user.can_edit_unit,
        c.can_get_vendor == user.can_get_vendor,
        c.can_get_user == user.can_get_user,
        c.can_get_unit == user.can_get_unit,
        c.can_get_role == user.can_get_role,
        c.can_get_project == user.can_get_project,
        c.can_get_pm == user.can_get_pm,
{
    Claims {
        sub: user.id,
        name: user.name,
        username: user.username,
        exp,
        role_id: user.role_id,
        role: user.role,
        can_add_role: user.can_add_role,
        can_edit_role: user.can_edit_role,
        can_add_user: user.can_add_user,
        can_edit_user: user.can_edit_user,
        can_add_vendor: user.can_add_vendor,
        can_edit_vendor: user.can_edit_vendor,
        can_add_project: user.can_add_project,
        can_edit_project: user.can_edit_project,
        can_add_pm: user.can_add_pm,
        can_edit_pm: user.can_edit_pm,
        can_verify_pm: user.can_verify_pm,
        can_add_unit: user.can_add_unit,
        can_edit_unit: user.can_edit_unit,
        can_get_vendor: user.can_get_vendor,
        can_get_user: user.can_get_user,
        can_get_unit: user.can_get_unit,
        can_get_role: user.can_get_role,
        can_get_project: user.can_get_project,
        can_get_pm: user.can_get_pm,
    }
}

/// The answer when the session token could not be made.
pub fn token_failure_reply() -> (r: Reply)
    ensures
        is_message(r, 500, "Could not create token."@),
{
    message(500, "Could not create token.")
}

/// `phc` is a hash that parses and accepts `password`.
pub open spec fn hash_accepts(phc: Seq<char>, password: Seq<char>) -> bool {
    phc_parses(phc) && argon2_accepts(utf8_bytes(password), phc)
}

/// Checks a password change for the signed-in account and hashes the new password: the
/// current password must be right, the new one must differ from it and be at least
/// 8 bytes.
pub fn prepare_password_change(lookup: UserLookup, req: &ChangePasswordRequest) -> (r: Result<
    String,
    Reply,
>)
    ensures
        match credentials_refusal(lookup, req.password@) {
            Some(v) => r matches Err(rep) && reply_is(rep, v),
            None => if req.new_password@ == req.password@ {
                r matches Err(rep) && is_message(
                    rep,
                    400,
                    "New password cannot be the same as old password."@,
                )
            } else if !password_long_enough(req.new_password@) {
                r matches Err(rep) && is_message(
                    rep,
                    400,
                    "Password must be at least 8 characters long."@,
                )
            } else {
                match r {
                    Ok(h) => hash_accepts(h@, req.new_password@),
                    Err(rep) => is_message(rep, 500, "Failed to hash password"@) && byte_len(
                        req.new_password@,
                    ) > 0xFFFF_FFFF,
                }
            },
        },
{
    let _user = match check_credentials(lookup, req.password.as_str()) {
        Ok(u) => u,
        Err(rep) => return Err(rep),
    };
    if req.new_password == req.password {
        return Err(message(400, "New password cannot be the same as old password."));
    }
    if !is_password_long_enough(req.new_password.as_str()) {
        return Err(message(400, "Password must be at least 8 characters long."));
    }
    match hash_new_password(req.new_password.as_str()) {
        Some(h) => Ok(h),
        None => Err(message(500, "Failed to hash password")),
    }
}

/// The answer to a password change once the write was made (`true`) or failed.
pub fn password_change_reply(stored: bool) -> (r: Reply)
    ensures
        stored ==> is_message(r, 200, "Password successfully updated."@),
        !stored ==> is_message(r, 500, "Could not update user."@),
{
    if stored {
        message(200, "Password successfully updated.")
    } else {
        message(500, "Could not update user.")
    }
}

/// The token that an `Authorization` header carries: the header must be there and start
/// with `Bearer `; every leading `Bearer ` is dropped and the rest is trimmed.
pub fn bearer_token(header: Option<&str>) -> (r: Result<String, Reply>)
    ensures
        header is None ==> (r matches Err(rep) && rep.status == 401 && rep.key == ReplyKey::Text
            && rep.text@ == "Missing Authorization header"@),
        match header {
            Some(h) => if has_prefix(h@, "Bearer "@) {
                r matches Ok(t) && t@ == trim_spec(strip_prefixes(h@, "Bearer "@))
            } else {
                r matches Err(rep) && rep.status == 401 && rep.key == ReplyKey::Text && rep.text@
                    == "Invalid Authorization header"@
            },
            None => true,
        },
{
    let h = match header {
        Some(h) => h,
        None => return Err(plain(401, "Missing Authorization header")),
    };
    let prefix = "Bearer ";
    let hv = chars_of(h);
    let pv = chars_of(prefix);
    if !starts_with(hv.as_slice(), pv.as_slice()) {
        return Err(plain(401, "Invalid Authorization header"));
    }
    proof {
        reveal_strlit("Bearer ");
    }
    let stripped = trim_start_matches(h, prefix);
    Ok(trim(stripped.as_str()))
}


/// How a request with a well-formed `Authorization` header can still be refused.
pub enum TokenRefusal {
    /// The server has no secret to check tokens with.
    NoSecret,
    /// The token does not decode or is expired.
    Invalid,
}

/// The answer when a bearer token cannot be accepted.
pub fn token_refusal_reply(why: TokenRefusal) -> (r: Reply)
    ensures
        r.status == 401,
        r.key == ReplyKey::Text,
        why is NoSecret ==> r.text@ == "No JWT secret"@,
        why is Invalid ==> r.text@ == "Invalid token"@,
{
    match why {
        TokenRefusal::NoSecret => plain(401, "No JWT secret"),
        TokenRefusal::Invalid => plain(401, "Invalid token"),
    }
}

/// An account made from a registration lets its owner sign in with the password that
/// was registered, once it is stored as prepared and while it is active.
pub proof fn lemma_registered_password_signs_in(
    req: RegisterRequest,
    created_by: Seq<char>,
    u: NewUser,
    row: UserLoginDto,
)
    requires
        registered_from(u, req, created_by),
        row.password_hash@ == u.password_hash@,
        row.is_active,
    ensures
        credentials_refusal(UserLookup::Found(row), req.password@) is None,
{
}

/// After a password change is stored, signing in with the new password is accepted
/// while the account is active.
pub proof fn lemma_changed_password_signs_in(
    new_hash: Seq<char>,
    req: ChangePasswordRequest,
    row: UserLoginDto,
)
    requires
        hash_accepts(new_hash, req.new_password@),
        row.password_hash@ == new_hash,
        row.is_active,
    ensures
        credentials_refusal(UserLookup::Found(row), req.new_password@) is None,
{
}

/// A header written as `Bearer <token>` gives the token back, for a token with no
/// whitespace at either end that does not itself start with `Bearer `.
pub proof fn lemma_bearer_header_round_trip(token: Seq<char>)
    requires
        trim_spec(token) == token,
        !has_prefix(token, "Bearer "@),
    ensures
        has_prefix("Bearer "@ + token, "Bearer "@),
        trim_spec(strip_prefixes("Bearer "@ + token, "Bearer "@)) == token,
{
    reveal_strlit("Bearer ");
    let p = "Bearer "@;
    let h = p + token;
    assert(h.take(p.len() as int) =~= p);
    assert(h.skip(p.len() as int) =~= token);
    assert(strip_prefixes(h, p) == strip_prefixes(token, p));
}

/// A registration is accepted exactly when its name and its username are not blank
/// once trimmed and its password has at least 8 bytes in UTF-8, however long it is.
pub proof fn lemma_registration_rule(req: RegisterRequest)
    ensures
        registration_valid(req) <==> (trim_spec(req.name@).len() > 0 && trim_spec(
            req.username@,
        ).len() > 0 && utf8_bytes(req.password@).len() >= 8),
{
}

/// The token lifetime is the configured number of seconds whenever the setting reads
/// as an `i64`, whatever that number is; one hour only when nothing is configured or
/// the setting does not read as a number. In particular, configuring the decimal text
/// of any `i64` gives that number back.
pub proof fn lemma_token_lifetime_is_configured(s: Seq<char>, v: i64)
    ensures
        parse_i64_spec(s) == Some(v) ==> token_lifetime(Some(s)) == v,
        parse_i64_spec(s) is None ==> token_lifetime(Some(s)) == 3600,
        token_lifetime(None) == 3600,
        token_lifetime(Some(int_decimal(v as int))) == v,
{
    lemma_parse_i64_of_decimal(v);
}

} // verus!
