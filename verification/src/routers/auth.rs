//! Login.
//!
//! A login request carries the user's identity, the asked-for token term,
//! and the password — hex-encoded and encrypted against the service's
//! public key, together with a timestamp, as a small JSON object. The
//! caller looks the user up, decrypts the credentials (see
//! `crate::utils::rsa`) and parses them; this module makes the decision:
//! reject an unknown user, undecipherable credentials or a wrong password,
//! and otherwise issue a token under the user's collected permissions.

use vstd::prelude::*;

use crate::models::groups::Group;
use crate::models::response::{create_error, ErrorResponse, ResponseStatus};
use crate::models::users::{spec_all_groups_found, spec_perms_union, User};
use crate::utils::jwt::{jwt_claims_of, spec_codes_of, spec_term_secs, TokenType};
use crate::utils::verify::{bcrypt_accepts, verify_password};

verus! {

/// A login request body. `credentials` is the hex-encoded ciphertext of a
/// `LoginCredentials` object.
#[derive(Debug, Clone, PartialEq)]
pub struct LoginRequest {
    pub credentials: String,
    pub userid: String,
    pub term: TokenType,
}

/// The decrypted login credentials: the password and the submission time.
#[derive(Debug, Clone, PartialEq)]
pub struct LoginCredentials {
    pub password: String,
    pub timestamp: u64,
}

/// Decides a login: `user` is the store's answer for the requested
/// identity, `credentials` the decrypted and parsed credential object or
/// nothing when decryption or parsing failed. An unknown user is
/// not-found; undecipherable credentials are a bad request; a password the
/// stored hash rejects is unauthorized; a user with a group missing from
/// `groups` cannot be issued a token. Otherwise the answer is a signed
/// token issued at `now` for the asked-for term, carrying the permissions
/// collected over the user's groups.
pub fn login(
    user: Option<User>,
    credentials: Option<LoginCredentials>,
    groups: &Vec<Group>,
    term: TokenType,
    now: u64,
    secret: &String,
) -> (r: Result<String, ErrorResponse>)
    requires
        now + spec_term_secs(term) <= u64::MAX,
    ensures
        user is None ==> (r matches Err(e) && e.code == 404 && e.status == ResponseStatus::Error
            && e.message@ == "User not found"@),
        user is Some && credentials is None ==> (r matches Err(e) && e.code == 400 && e.status
            == ResponseStatus::Error && e.message@ == "Invalid credentials"@),
        user matches Some(u) ==> credentials matches Some(c) ==> {
            if !bcrypt_accepts(c.password@, u.password@) {
                r matches Err(e) && e.code == 401 && e.status == ResponseStatus::Error
                    && e.message@ == "Invalid credentials"@
            } else if !spec_all_groups_found(u.group@, groups@) {
                r matches Err(e) && e.code == 500 && e.status == ResponseStatus::Error
                    && e.message@ == "Failed to generate token"@
            } else {
                r matches Ok(tok) && jwt_claims_of(secret@, tok@) == Some(
                    (
                        u._id.hi,
                        u._id.lo,
                        (now + spec_term_secs(term)) as u64,
                        now,
                        term == TokenType::LongTerm,
                        spec_codes_of(spec_perms_union(u.group@, groups@)),
                    ),
                ) && (forall|i: int| 0 <= i < tok@.len() ==> tok@[i] != ' ')
            }
        },
{
    let u = match user {
        Some(u) => u,
        None => {
            return Err(create_error(404, "User not found".to_string()));
        },
    };
    let c = match credentials {
        Some(c) => c,
        None => {
            return Err(create_error(400, "Invalid credentials".to_string()));
        },
    };
    if !verify_password(c.password.as_str(), u.password.as_str()) {
        return Err(create_error(401, "Invalid credentials".to_string()));
    }
    match u.generate_token(groups, term, now, secret) {
        Ok(tok) => Ok(tok),
        Err(_) => Err(create_error(500, "Failed to generate token".to_string())),
    }
}

} // verus!
