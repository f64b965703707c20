//! Tokens, passwords and login.

use zvms::ids::Oid;
use zvms::models::groups::{Group, GroupPermission, GroupType};
use zvms::models::users::User;
use zvms::routers::auth::{login, LoginCredentials};
use zvms::utils::jwt::{generate_token, verify_token, AuthenticationError, TokenType};
use zvms::utils::rsa::{decrypt, decrypt_credentials, hex_decode};
use zvms::utils::verify::{hash_password, verify_password};
use rsa::pkcs1::EncodeRsaPrivateKey;

fn oid(n: u64) -> Oid {
    Oid { hi: n, lo: n ^ 0xffff }
}

fn secret() -> String {
    "0123456789abcdef0123456789abcdef".to_string()
}

#[test]
fn token_validation() {
    let sub = oid(77);
    let perms = vec![GroupPermission::Student, GroupPermission::Admin];
    let now: u64 = 1_700_000_000;
    let token = generate_token(sub, TokenType::LongTerm, &perms, now, &secret());
    let result = verify_token(token.as_str(), now + 10, &secret());
    let claims = result.expect("a fresh token must verify");
    assert_eq!(claims.sub, sub);
    assert_eq!(claims.perms, perms);
    assert_eq!(claims.term, TokenType::LongTerm);
    assert_eq!(claims.iat, now);
    assert_eq!(claims.exp - claims.iat, 2_592_000);
}

#[test]
fn short_term_token_expiry_span() {
    let sub = oid(3);
    let perms = vec![GroupPermission::Secretary];
    let now: u64 = 1_700_000_000;
    let token = generate_token(sub, TokenType::ShortTerm, &perms, now, &secret());
    let claims = verify_token(token.as_str(), now, &secret()).expect("verify");
    assert_eq!(claims.exp - claims.iat, 3_600);
    assert_eq!(claims.term, TokenType::ShortTerm);
}

#[test]
fn bearer_prefix_is_stripped() {
    let sub = oid(9);
    let now: u64 = 1_700_000_000;
    let token = generate_token(sub, TokenType::ShortTerm, &vec![], now, &secret());
    let bearered = format!("Bearer {}", token);
    let claims = verify_token(bearered.as_str(), now, &secret()).expect("verify");
    assert_eq!(claims.sub, sub);
}

#[test]
fn expired_token_is_rejected() {
    let sub = oid(5);
    let now: u64 = 1_700_000_000;
    let token = generate_token(sub, TokenType::ShortTerm, &vec![], now, &secret());
    let result = verify_token(token.as_str(), now + 3_601, &secret());
    assert!(matches!(result, Err(AuthenticationError::ExpiredToken)));
}

#[test]
fn wrong_secret_is_rejected() {
    let sub = oid(5);
    let now: u64 = 1_700_000_000;
    let token = generate_token(sub, TokenType::ShortTerm, &vec![], now, &secret());
    let other = "another-secret-another-secret-xx".to_string();
    let result = verify_token(token.as_str(), now, &other);
    assert!(matches!(result, Err(AuthenticationError::InvalidToken)));
}

#[test]
fn garbage_token_is_rejected() {
    let result = verify_token("not.a.token", 0, &secret());
    assert!(matches!(result, Err(AuthenticationError::InvalidToken)));
}

#[test]
fn password_hash_round_trip() {
    let hashed = hash_password("password");
    assert!(!hashed.is_empty());
    assert!(verify_password("password", hashed.as_str()));
    assert!(!verify_password("not the password", hashed.as_str()));
}

#[test]
fn malformed_hash_rejects() {
    assert!(!verify_password("password", "not a bcrypt hash"));
}

#[test]
fn valid_password_checks_stored_hash() {
    let user = User {
        _id: oid(1),
        id: "105".to_string(),
        name: "A".to_string(),
        group: vec![],
        password: hash_password("secret-word"),
    };
    assert!(user.clone().valid_password("secret-word".to_string()));
    assert!(!user.valid_password("other".to_string()));
}

#[test]
fn set_password_replaces_hash() {
    let mut user = User {
        _id: oid(1),
        id: "105".to_string(),
        name: "A".to_string(),
        group: vec![],
        password: String::new(),
    };
    user.set_password("fresh".to_string());
    assert!(user.valid_password("fresh".to_string()));
}

#[test]
fn hex_decode_exact() {
    assert_eq!(hex_decode("00ff10Ab").unwrap(), vec![0x00, 0xff, 0x10, 0xab]);
    assert_eq!(hex_decode("").unwrap(), Vec::<u8>::new());
}

#[test]
fn hex_decode_rejects_odd_length() {
    assert!(hex_decode("abc").is_none());
}

#[test]
fn hex_decode_rejects_non_digits() {
    assert!(hex_decode("zz").is_none());
}

fn test_keypair() -> (String, rsa::RsaPrivateKey, rsa::RsaPublicKey) {
    let mut rng = rand::rngs::OsRng;
    let private_key = rsa::RsaPrivateKey::new(&mut rng, 2048).expect("keygen");
    let public_key = private_key.to_public_key();
    let pem = private_key
        .to_pkcs1_pem(rsa::pkcs1::LineEnding::LF)
        .expect("pem")
        .to_string();
    (pem, private_key, public_key)
}

#[test]
fn rsa_validation_claims() {
    let timestamp: u64 = 1_700_000_000_000;
    let payload = format!("{{\"password\":\"password\",\"timestamp\":{}}}", timestamp);
    let (pem, _private_key, public_key) = test_keypair();
    let mut rng = rand::rngs::OsRng;
    let encrypted = public_key
        .encrypt(&mut rng, rsa::Pkcs1v15Encrypt, payload.as_bytes())
        .expect("encrypt");
    let decrypted = decrypt(pem.as_str(), &encrypted).expect("decrypt");
    assert_eq!(decrypted, payload.as_bytes());
    let hexed = hex::encode(&encrypted);
    let via_hex = decrypt_credentials(pem.as_str(), hexed.as_str()).expect("decrypt via hex");
    assert_eq!(via_hex, payload.as_bytes());
}

#[test]
fn rsa_decrypt_rejects_bad_key() {
    assert!(decrypt("not a pem", &vec![1, 2, 3]).is_none());
}

#[test]
fn login_flow() {
    let class = Group {
        _id: oid(40),
        name: "admins".to_string(),
        description: None,
        permissions: vec![GroupPermission::Admin],
        group_type: GroupType::Permission,
    };
    let groups = vec![class];
    let user = User {
        _id: oid(1),
        id: "105".to_string(),
        name: "A".to_string(),
        group: vec![oid(40)],
        password: hash_password("password"),
    };
    let now: u64 = 1_700_000_000;
    let creds = LoginCredentials { password: "password".to_string(), timestamp: now };
    let token = login(Some(user.clone()), Some(creds), &groups, TokenType::LongTerm, now, &secret())
        .expect("login");
    let claims = verify_token(token.as_str(), now, &secret()).expect("verify");
    assert_eq!(claims.sub, oid(1));
    assert_eq!(claims.perms, vec![GroupPermission::Admin]);

    let wrong = LoginCredentials { password: "nope".to_string(), timestamp: now };
    let e = login(Some(user.clone()), Some(wrong), &groups, TokenType::LongTerm, now, &secret())
        .unwrap_err();
    assert_eq!(e.code, 401);

    let e = login(None, None, &groups, TokenType::LongTerm, now, &secret()).unwrap_err();
    assert_eq!(e.code, 404);

    let e = login(Some(user.clone()), None, &groups, TokenType::LongTerm, now, &secret())
        .unwrap_err();
    assert_eq!(e.code, 400);

    let stranger = User { group: vec![oid(99)], ..user };
    let creds = LoginCredentials { password: "password".to_string(), timestamp: now };
    let e = login(Some(stranger), Some(creds), &groups, TokenType::LongTerm, now, &secret())
        .unwrap_err();
    assert_eq!(e.code, 500);
}

#[test]
fn generate_token_collects_group_permissions() {
    let g1 = Group {
        _id: oid(40),
        name: "class".to_string(),
        description: None,
        permissions: vec![GroupPermission::Student],
        group_type: GroupType::Class,
    };
    let g2 = Group {
        _id: oid(41),
        name: "auditors".to_string(),
        description: None,
        permissions: vec![GroupPermission::Auditor],
        group_type: GroupType::Permission,
    };
    let groups = vec![g1, g2];
    let user = User {
        _id: oid(2),
        id: "106".to_string(),
        name: "B".to_string(),
        group: vec![oid(40), oid(41)],
        password: String::new(),
    };
    let now: u64 = 1_700_000_000;
    let token = user
        .generate_token(&groups, TokenType::ShortTerm, now, &secret())
        .expect("token");
    let claims = verify_token(token.as_str(), now, &secret()).expect("verify");
    assert_eq!(claims.perms, vec![GroupPermission::Student, GroupPermission::Auditor]);

    let missing = User { group: vec![oid(40), oid(77)], ..user };
    let e = missing
        .generate_token(&groups, TokenType::ShortTerm, now, &secret())
        .unwrap_err();
    assert_eq!(e, "Group not found".to_string());
}
