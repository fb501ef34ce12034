use pm_service::features::user::model::{
    ChangePasswordRequest, Claims, EditUserRequest, RegisterRequest, UserLoginDto,
};
use pm_service::features::user::services::{
    bearer_token, check_credentials, claims_for, normalize_username, prepare_password_change,
    prepare_registration, prepare_user_update, registration_reply, token_expiry, token_lifetime_seconds,
    token_refusal_reply, user_update_reply, TokenRefusal, UserLookup,
};
use pm_service::util::reply::ReplyKey;
use pm_service::util::require_role::require_role;

fn register(name: &str, username: &str, password: &str) -> RegisterRequest {
    RegisterRequest {
        name: name.to_string(),
        username: username.to_string(),
        password: password.to_string(),
        role_id: 3,
        is_active: true,
    }
}

fn row(hash: &str, active: bool) -> UserLoginDto {
    UserLoginDto {
        id: "a1".to_string(),
        name: "Ann".to_string(),
        username: "ann".to_string(),
        password_hash: hash.to_string(),
        role_id: 3,
        role: "admin".to_string(),
        is_active: active,
        can_add_role: true,
        can_edit_role: false,
        can_add_user: true,
        can_edit_user: false,
        can_add_vendor: true,
        can_edit_vendor: false,
        can_add_project: true,
        can_edit_project: false,
        can_add_pm: true,
        can_edit_pm: false,
        can_verify_pm: true,
        can_add_unit: false,
        can_edit_unit: true,
        can_get_user: false,
        can_get_unit: true,
        can_get_vendor: false,
        can_get_role: true,
        can_get_project: false,
        can_get_pm: true,
    }
}

fn claims(role: &str) -> Claims {
    claims_for(UserLoginDto { role: role.to_string(), ..row("x", true) }, 0)
}

#[test]
fn registration_normalises_and_hashes() {
    let u = prepare_registration(&register("  Ann Lee ", "  AnnLee ", "secret-pass"), "creator")
        .ok()
        .unwrap();
    assert_eq!(u.name, "Ann Lee");
    assert_eq!(u.username, "annlee");
    assert_eq!(u.created_by, "creator");
    assert_eq!(u.role_id, 3);
    assert!(u.is_active);
    assert_eq!(u.id.len(), 36);
    assert_ne!(u.password_hash, "secret-pass");
    assert!(u.password_hash.starts_with("$argon2"));
}

#[test]
fn registered_password_signs_in() {
    let req = register("Ann", "ann", "secret-pass");
    let u = prepare_registration(&req, "creator").ok().unwrap();
    let ok = check_credentials(UserLookup::Found(row(&u.password_hash, true)), "secret-pass");
    assert!(ok.is_ok());
    let bad = check_credentials(UserLookup::Found(row(&u.password_hash, true)), "wrong-pass");
    let rep = bad.err().unwrap();
    assert_eq!(rep.status, 401);
    assert_eq!(rep.text, "Invalid credentials.");
}

#[test]
fn registration_refuses_blank_names_and_short_passwords() {
    for req in [register("  ", "ann", "secret-pass"), register("Ann", " \t", "secret-pass"), register("Ann", "ann", "short")] {
        let rep = prepare_registration(&req, "c").err().unwrap();
        assert_eq!(rep.status, 400);
        assert_eq!(rep.key, ReplyKey::Message);
        assert_eq!(rep.text, "invalid name or invalid username or password too short.");
    }
    // eight bytes are enough, even in fewer characters
    assert!(prepare_registration(&register("Ann", "ann", "ééééé"), "c").is_ok());
}

#[test]
fn registration_write_answers() {
    assert_eq!(registration_reply(Ok(())).text, "User successfully created.");
    let r = registration_reply(Err("duplicate".to_string()));
    assert_eq!((r.status, r.key, r.text.as_str()), (500, ReplyKey::Error, "duplicate"));
}

#[test]
fn sign_in_refusals() {
    let r = check_credentials(UserLookup::Missing, "x").err().unwrap();
    assert_eq!((r.status, r.text.as_str()), (401, "Invalid credentials."));
    let r = check_credentials(UserLookup::Failed, "x").err().unwrap();
    assert_eq!((r.status, r.text.as_str()), (500, "Database error during login."));
    let r = check_credentials(UserLookup::Found(row("whatever", false)), "x").err().unwrap();
    assert_eq!((r.status, r.text.as_str()), (403, "Account is not active."));
    let r = check_credentials(UserLookup::Found(row("not a phc string", true)), "x").err().unwrap();
    assert_eq!((r.status, r.key), (500, ReplyKey::Empty));
}

#[test]
fn user_update_rules() {
    let mut req = EditUserRequest {
        id: "u1".to_string(),
        name: Some("  Bob ".to_string()),
        username: Some(" BOB ".to_string()),
        password: None,
        role_id: Some(2),
        is_active: None,
    };
    let u = prepare_user_update(&req, "editor").ok().unwrap();
    assert_eq!(u.name.as_deref(), Some("Bob"));
    assert_eq!(u.username.as_deref(), Some("bob"));
    assert_eq!(u.password_hash, None);
    assert_eq!(u.role_id, Some(2));
    assert_eq!(u.updated_by, "editor");
    req.password = Some("short".to_string());
    let r = prepare_user_update(&req, "editor").err().unwrap();
    assert_eq!((r.status, r.text.as_str()), (400, "Password must be at least 8 characters long."));
    req.password = Some(String::new());
    assert_eq!(prepare_user_update(&req, "editor").err().unwrap().status, 400);
    req.password = Some("long-enough".to_string());
    let u = prepare_user_update(&req, "editor").ok().unwrap();
    let h = u.password_hash.unwrap();
    assert!(check_credentials(UserLookup::Found(row(&h, true)), "long-enough").is_ok());
    assert_eq!(user_update_reply(true).text, "User successfully updated.");
    assert_eq!(user_update_reply(false).text, "Could not update user.");
}

#[test]
fn password_change_rules() {
    let hash = prepare_registration(&register("Ann", "ann", "old-password"), "c").ok().unwrap().password_hash;
    let same = ChangePasswordRequest { password: "old-password".to_string(), new_password: "old-password".to_string() };
    let r = prepare_password_change(UserLookup::Found(row(&hash, true)), &same).err().unwrap();
    assert_eq!((r.status, r.text.as_str()), (400, "New password cannot be the same as old password."));
    let short = ChangePasswordRequest { password: "old-password".to_string(), new_password: "tiny".to_string() };
    let r = prepare_password_change(UserLookup::Found(row(&hash, true)), &short).err().unwrap();
    assert_eq!((r.status, r.text.as_str()), (400, "Password must be at least 8 characters long."));
    let wrong = ChangePasswordRequest { password: "not-it-at-all".to_string(), new_password: "new-password".to_string() };
    let r = prepare_password_change(UserLookup::Found(row(&hash, true)), &wrong).err().unwrap();
    assert_eq!(r.status, 401);
    let good = ChangePasswordRequest { password: "old-password".to_string(), new_password: "new-password".to_string() };
    let new_hash = prepare_password_change(UserLookup::Found(row(&hash, true)), &good).ok().unwrap();
    assert!(check_credentials(UserLookup::Found(row(&new_hash, true)), "new-password").is_ok());
}

#[test]
fn username_normalisation() {
    assert_eq!(normalize_username("  MiXeD Case "), "mixed case");
    assert_eq!(normalize_username("ÄB"), "äb");
}

#[test]
fn claims_copy_the_account() {
    let c = claims_for(row("h", true), 1700000000);
    assert_eq!(c.sub, "a1");
    assert_eq!(c.exp, 1700000000);
    assert_eq!(c.role, "admin");
    assert!(c.can_verify_pm && !c.can_edit_pm && c.can_get_pm && !c.can_get_user);
}

#[test]
fn token_lifetime_defaults() {
    assert_eq!(token_lifetime_seconds(None), 3600);
    assert_eq!(token_lifetime_seconds(Some("120")), 120);
    assert_eq!(token_lifetime_seconds(Some("2h")), 3600);
    assert_eq!(token_lifetime_seconds(Some("-5")), -5);
}

#[test]
fn bearer_header_parsing() {
    assert_eq!(bearer_token(Some("Bearer abc.def")).ok().unwrap(), "abc.def");
    assert_eq!(bearer_token(Some("Bearer Bearer  tok ")).ok().unwrap(), "tok");
    let r = bearer_token(None).err().unwrap();
    assert_eq!((r.status, r.key, r.text.as_str()), (401, ReplyKey::Text, "Missing Authorization header"));
    let r = bearer_token(Some("Basic abc")).err().unwrap();
    assert_eq!((r.status, r.text.as_str()), (401, "Invalid Authorization header"));
    assert_eq!(bearer_token(Some("bearer abc")).err().unwrap().status, 401);
    let t = "eyJhbGciOi.J9.x";
    assert_eq!(bearer_token(Some(&format!("Bearer {}", t))).ok().unwrap(), t);
    assert_eq!(token_refusal_reply(TokenRefusal::NoSecret).text, "No JWT secret");
    assert_eq!(token_refusal_reply(TokenRefusal::Invalid).text, "Invalid token");
}

#[test]
fn role_guard() {
    assert!(require_role(&claims("admin"), &["user", "admin"]));
    assert!(!require_role(&claims("admin"), &["user"]));
    assert!(!require_role(&claims("admin"), &[]));
    assert!(!require_role(&claims("admin"), &["Admin"]));
}

#[test]
fn token_expiry_is_issue_time_plus_lifetime() {
    assert_eq!(token_expiry(1_700_000_000, 3600), 1_700_003_600);
    assert_eq!(token_expiry(1_700_000_000, -5), 1_699_999_995);
    let c = claims_for(row("x", true), token_expiry(1_700_000_000, 120));
    assert_eq!(c.exp, 1_700_000_120);
}

#[test]
fn registration_refuses_a_username_that_trims_to_nothing() {
    let r = prepare_registration(&register("Ann", " \t ", "secret-pass"), "creator").err().unwrap();
    assert_eq!(r.status, 400);
    assert_eq!(r.text, "invalid name or invalid username or password too short.");
}

#[test]
fn valid_password_change_gives_a_hash_of_the_new_password() {
    let req = register("Ann", "ann", "secret-pass");
    let u = prepare_registration(&req, "creator").ok().unwrap();
    let change = ChangePasswordRequest { password: "secret-pass".to_string(), new_password: "another-pass".to_string() };
    let h = prepare_password_change(UserLookup::Found(row(&u.password_hash, true)), &change).ok().unwrap();
    assert!(check_credentials(UserLookup::Found(row(&h, true)), "another-pass").is_ok());
}
