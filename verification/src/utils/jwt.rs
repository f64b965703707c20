//! Session tokens.
//!
//! A token carries a subject identity, issue and expiry times, a term class
//! and the permission set snapshotted at issuance. Tokens are signed with a
//! process-wide symmetric secret; the signing itself is done by an outside
//! library and is trusted, while everything around it — expiry arithmetic,
//! the permission encoding, prefix stripping and the accept/reject decision
//! — is verified. The caller supplies the clock reading and the secret.

use vstd::prelude::*;
use vstd::string::StrSliceExecFns;

use crate::ids::Oid;
use crate::models::groups::GroupPermission;

verus! {

/// The validity duration class of a token.
#[derive(Debug, Clone, Copy, PartialEq, Eq, Structural, Hash)]
pub enum TokenType {
    LongTerm,
    ShortTerm,
}

/// The claims a verified token yields.
#[derive(Debug, Clone, PartialEq)]
pub struct Token {
    pub sub: Oid,
    pub exp: u64,
    pub iat: u64,
    pub term: TokenType,
    pub perms: Vec<GroupPermission>,
}

/// The identity and permissions a request acts with, read from its token.
#[derive(Debug, Clone, PartialEq)]
pub struct UserData {
    pub id: Oid,
    pub perms: Vec<GroupPermission>,
    pub term: TokenType,
}

/// Why a token was rejected.
#[derive(Debug, Clone, Copy, PartialEq)]
pub enum AuthenticationError {
    InvalidToken,
    MissingToken,
    ExpiredToken,
}

/// The mathematical content of a token: what `verify_token` yields.
pub struct TokenView {
    pub sub: Oid,
    pub exp: u64,
    pub iat: u64,
    pub term: TokenType,
    pub perms: Seq<GroupPermission>,
}

impl View for Token {
    type V = TokenView;

    open spec fn view(&self) -> TokenView {
        TokenView {
            sub: self.sub,
            exp: self.exp,
            iat: self.iat,
            term: self.term,
            perms: self.perms@,
        }
    }
}

/// How long a token of each term class is valid, in seconds: thirty days
/// long-term, one hour short-term.
pub open spec fn spec_term_secs(term: TokenType) -> u64 {
    if term == TokenType::LongTerm {
        2592000
    } else {
        3600
    }
}

/// How long a token of each term class is valid, in seconds.
pub fn term_secs(term: TokenType) -> (r: u64)
    ensures
        r == spec_term_secs(term),
{
    match term {
        TokenType::LongTerm => 2592000,
        TokenType::ShortTerm => 3600,
    }
}

/// The numeric code each permission travels under inside a token.
pub open spec fn spec_perm_code(p: GroupPermission) -> u64 {
    match p {
        GroupPermission::Student => 0,
        GroupPermission::Secretary => 1,
        GroupPermission::Department => 2,
        GroupPermission::Auditor => 3,
        GroupPermission::Inspector => 4,
        GroupPermission::Admin => 5,
        GroupPermission::System => 6,
    }
}

/// The permission a numeric code stands for, if any.
pub open spec fn spec_perm_from_code(c: u64) -> Option<GroupPermission> {
    if c == 0 {
        Some(GroupPermission::Student)
    } else if c == 1 {
        Some(GroupPermission::Secretary)
    } else if c == 2 {
        Some(GroupPermission::Department)
    } else if c == 3 {
        Some(GroupPermission::Auditor)
    } else if c == 4 {
        Some(GroupPermission::Inspector)
    } else if c == 5 {
        Some(GroupPermission::Admin)
    } else if c == 6 {
        Some(GroupPermission::System)
    } else {
        None
    }
}

/// Decoding inverts encoding, permission by permission.
pub proof fn lemma_perm_code_inverse(p: GroupPermission)
    ensures
        spec_perm_from_code(spec_perm_code(p)) == Some(p),
{
}

/// The code sequence a permission sequence travels under.
pub open spec fn spec_codes_of(ps: Seq<GroupPermission>) -> Seq<u64> {
    ps.map_values(|p: GroupPermission| spec_perm_code(p))
}

/// The permission sequence a code sequence stands for, if every code is
/// valid.
pub open spec fn spec_perms_of(cs: Seq<u64>) -> Option<Seq<GroupPermission>> {
    if forall|i: int| 0 <= i < cs.len() ==> spec_perm_from_code(cs[i]) is Some {
        Some(cs.map_values(|c: u64| spec_perm_from_code(c)->Some_0))
    } else {
        None
    }
}

/// Decoding inverts encoding for whole permission sequences.
pub proof fn lemma_codes_round_trip(ps: Seq<GroupPermission>)
    ensures
        spec_perms_of(spec_codes_of(ps)) == Some(ps),
{
    let cs = spec_codes_of(ps);
    assert forall|i: int| 0 <= i < cs.len() implies spec_perm_from_code(cs[i]) is Some by {
        lemma_perm_code_inverse(ps[i]);
    }
    let back = cs.map_values(|c: u64| spec_perm_from_code(c)->Some_0);
    assert forall|i: int| 0 <= i < ps.len() implies back[i] == ps[i] by {
        lemma_perm_code_inverse(ps[i]);
    }
    assert(back =~= ps);
}

/// The numeric code each permission travels under inside a token.
pub fn perm_code(p: GroupPermission) -> (r: u64)
    ensures
        r == spec_perm_code(p),
{
    match p {
        GroupPermission::Student => 0,
        GroupPermission::Secretary => 1,
        GroupPermission::Department => 2,
        GroupPermission::Auditor => 3,
        GroupPermission::Inspector => 4,
        GroupPermission::Admin => 5,
        GroupPermission::System => 6,
    }
}

/// The permission a numeric code stands for, if any.
pub fn perm_from_code(c: u64) -> (r: Option<GroupPermission>)
    ensures
        r == spec_perm_from_code(c),
{
    if c == 0 {
        Some(GroupPermission::Student)
    } else if c == 1 {
        Some(GroupPermission::Secretary)
    } else if c == 2 {
        Some(GroupPermission::Department)
    } else if c == 3 {
        Some(GroupPermission::Auditor)
    } else if c == 4 {
        Some(GroupPermission::Inspector)
    } else if c == 5 {
        Some(GroupPermission::Admin)
    } else if c == 6 {
        Some(GroupPermission::System)
    } else {
        None
    }
}

fn perms_to_codes(perms: &Vec<GroupPermission>) -> (r: Vec<u64>)
    ensures
        r@ == spec_codes_of(perms@),
{
    let mut out: Vec<u64> = Vec::new();
    let mut i: usize = 0;
    while i < perms.len()
        invariant
            i <= perms@.len(),
            out@ == spec_codes_of(perms@.subrange(0, i as int)),
        decreases perms@.len() - i,
    {
        out.push(perm_code(perms[i]));
        assert(perms@.subrange(0, i + 1 as int) =~= perms@.subrange(0, i as int).push(
            perms@[i as int],
        ));
        i += 1;
    }
    assert(perms@.subrange(0, perms@.len() as int) =~= perms@);
    out
}

fn codes_to_perms(codes: &Vec<u64>) -> (r: Option<Vec<GroupPermission>>)
    ensures
        match r {
            Some(ps) => spec_perms_of(codes@) == Some(ps@),
            None => spec_perms_of(codes@) is None,
        },
{
    let mut out: Vec<GroupPermission> = Vec::new();
    let mut i: usize = 0;
    while i < codes.len()
        invariant
            i <= codes@.len(),
            forall|j: int| 0 <= j < i ==> spec_perm_from_code(codes@[j]) is Some,
            out@.len() == i,
            forall|j: int| 0 <= j < i ==> Some(out@[j]) == spec_perm_from_code(codes@[j]),
        decreases codes@.len() - i,
    {
        match perm_from_code(codes[i]) {
            Some(p) => {
                out.push(p);
            },
            None => {
                return None;
            },
        }
        i += 1;
    }
    proof {
        let mapped = codes@.map_values(|c: u64| spec_perm_from_code(c)->Some_0);
        assert(out@ =~= mapped);
    }
    Some(out)
}

/// The raw numeric claims a signed token carries.
struct RawClaims {
    sub_hi: u64,
    sub_lo: u64,
    exp: u64,
    iat: u64,
    long_term: bool,
    perms: Vec<u64>,
}

/// The claims that decoding a token with a given secret yields, or nothing
/// when the token's signature or shape is rejected. Decoding is a function
/// of the secret and the token alone.
pub uninterp spec fn jwt_claims_of(secret: Seq<char>, token: Seq<char>) -> Option<
    (u64, u64, u64, u64, bool, Seq<u64>),
>;

/// Relies on jsonwebtoken::encode with the default HS256 header: signing
/// never fails for a symmetric secret, and decoding the returned token with
/// the same secret yields exactly the claims that were signed. The output
/// is three base64url segments joined by dots, so it holds no space — in
/// particular no scheme prefix.
#[verifier::external_body]
fn jwt_encode_raw(secret: &String, c: &RawClaims) -> (r: String)
    ensures
        jwt_claims_of(secret@, r@) == Some(
            (c.sub_hi, c.sub_lo, c.exp, c.iat, c.long_term, c.perms@),
        ),
        forall|i: int| 0 <= i < r@.len() ==> r@[i] != ' ',
{
    let mut m = serde_json::Map::new();
    m.insert("s0".to_string(), serde_json::Value::from(c.sub_hi));
    m.insert("s1".to_string(), serde_json::Value::from(c.sub_lo));
    m.insert("exp".to_string(), serde_json::Value::from(c.exp));
    m.insert("iat".to_string(), serde_json::Value::from(c.iat));
    m.insert("lt".to_string(), serde_json::Value::from(c.long_term));
    m.insert("pm".to_string(), serde_json::Value::from(c.perms.clone()));
    let key = jsonwebtoken::EncodingKey::from_secret(secret.as_bytes());
    let header = jsonwebtoken::Header::default();
    jsonwebtoken::encode(&header, &serde_json::Value::Object(m), &key).unwrap_or_default()
}

/// Relies on jsonwebtoken::decode with HS256 and expiry validation turned
/// off: the outcome is a function of the secret and the token alone, and is
/// the inverse of signing.
#[verifier::external_body]
fn jwt_decode_raw(secret: &String, token: &str) -> (r: Option<RawClaims>)
    ensures
        match r {
            Some(c) => jwt_claims_of(secret@, token@) == Some(
                (c.sub_hi, c.sub_lo, c.exp, c.iat, c.long_term, c.perms@),
            ),
            None => jwt_claims_of(secret@, token@) is None,
        },
{
    let mut v = jsonwebtoken::Validation::default();
    v.validate_exp = false;
    let k = jsonwebtoken::DecodingKey::from_secret(secret.as_bytes());
    let d = jsonwebtoken::decode::<serde_json::Value>(token, &k, &v).ok()?.claims;
    let g = |n: &str| d.get(n).and_then(serde_json::Value::as_u64);
    let pm = d.get("pm")?.as_array()?.iter().map(|x| x.as_u64().unwrap_or(u64::MAX)).collect();
    let lt = d.get("lt")?.as_bool()?;
    Some(RawClaims { sub_hi: g("s0")?, sub_lo: g("s1")?, exp: g("exp")?, iat: g("iat")?, long_term: lt, perms: pm })
}

/// Issues a signed token for `sub`: issued at `now`, expiring after the
/// term's validity span, carrying the permission set as it was handed in.
/// The token holds no space, so the optional scheme-prefix strip of
/// verification leaves it unchanged.
pub fn generate_token(
    sub: Oid,
    term: TokenType,
    perms: &Vec<GroupPermission>,
    now: u64,
    secret: &String,
) -> (r: String)
    requires
        now + spec_term_secs(term) <= u64::MAX,
    ensures
        jwt_claims_of(secret@, r@) == Some(
            (
                sub.hi,
                sub.lo,
                (now + spec_term_secs(term)) as u64,
                now,
                term == TokenType::LongTerm,
                spec_codes_of(perms@),
            ),
        ),
        forall|i: int| 0 <= i < r@.len() ==> r@[i] != ' ',
{
    let exp = now + term_secs(term);
    let raw = RawClaims {
        sub_hi: sub.hi,
        sub_lo: sub.lo,
        exp,
        iat: now,
        long_term: matches!(term, TokenType::LongTerm),
        perms: perms_to_codes(perms),
    };
    jwt_encode_raw(secret, &raw)
}

/// A text that holds no space cannot begin with the scheme prefix, so the
/// prefix strip leaves it unchanged. This is what issued tokens satisfy.
pub proof fn lemma_space_free_strip_bearer(s: Seq<char>)
    requires
        forall|i: int| 0 <= i < s.len() ==> s[i] != ' ',
    ensures
        spec_strip_bearer(s) == s,
{
    reveal_strlit("Bearer ");
    if s.len() >= 7 && s.subrange(0, 7) == "Bearer "@ {
        assert(s.subrange(0, 7)[6] == s[6]);
        assert(false);
    }
}

/// A token as handed in, with an optional scheme prefix removed.
pub open spec fn spec_strip_bearer(s: Seq<char>) -> Seq<char> {
    if s.len() >= 7 && s.subrange(0, 7) == "Bearer "@ {
        s.subrange(7, s.len() as int)
    } else {
        s
    }
}

/// Removes a leading `Bearer ` scheme prefix, if present.
pub fn strip_bearer(token: &str) -> (r: &str)
    ensures
        r@ == spec_strip_bearer(token@),
{
    proof {
        reveal_strlit("Bearer ");
    }
    let n = token.unicode_len();
    if n >= 7 {
        let mut i: usize = 0;
        let mut same = true;
        let prefix = "Bearer ";
        while i < 7
            invariant
                n == token@.len(),
                n >= 7,
                i <= 7,
                prefix@ == "Bearer "@,
                same == (forall|j: int| 0 <= j < i ==> token@[j] == prefix@[j]),
            decreases 7 - i,
        {
            proof {
                reveal_strlit("Bearer ");
            }
            let c = token.get_char(i);
            let p = prefix.get_char(i);
            same = same && c == p;
            i += 1;
        }
        if same {
            assert(token@.subrange(0, 7) =~= "Bearer "@);
            return token.substring_char(7, n);
        }
        assert(token@.subrange(0, 7) != "Bearer "@) by {
            let k = choose|j: int| 0 <= j < 7 && token@[j] != "Bearer "@[j];
            assert(token@.subrange(0, 7)[k] != "Bearer "@[k]);
        }
        return token;
    }
    assert(token@.len() < 7);
    token
}

/// What verifying a token at time `now` yields: the claims when the token
/// decodes under the secret and has not expired, and the exact rejection
/// otherwise. A token is expired when `now` is past its expiry.
pub open spec fn spec_verify_token(secret: Seq<char>, token: Seq<char>, now: u64) -> Result<
    TokenView,
    AuthenticationError,
> {
    match jwt_claims_of(secret, spec_strip_bearer(token)) {
        None => Err(AuthenticationError::InvalidToken),
        Some(c) => if now > c.2 {
            Err(AuthenticationError::ExpiredToken)
        } else {
            match spec_perms_of(c.5) {
                None => Err(AuthenticationError::InvalidToken),
                Some(ps) => Ok(
                    TokenView {
                        sub: Oid { hi: c.0, lo: c.1 },
                        exp: c.2,
                        iat: c.3,
                        term: if c.4 {
                            TokenType::LongTerm
                        } else {
                            TokenType::ShortTerm
                        },
                        perms: ps,
                    },
                ),
            }
        },
    }
}

/// Checks a token against the secret and the clock reading `now`, after
/// removing an optional `Bearer ` prefix.
pub fn verify_token(token: &str, now: u64, secret: &String) -> (r: Result<
    Token,
    AuthenticationError,
>)
    ensures
        match r {
            Ok(t) => spec_verify_token(secret@, token@, now) == Ok::<
                TokenView,
                AuthenticationError,
            >(t@),
            Err(e) => spec_verify_token(secret@, token@, now) == Err::<
                TokenView,
                AuthenticationError,
            >(e),
        },
{
    let stripped = strip_bearer(token);
    match jwt_decode_raw(secret, stripped) {
        None => Err(AuthenticationError::InvalidToken),
        Some(c) => {
            if now > c.exp {
                Err(AuthenticationError::ExpiredToken)
            } else {
                match codes_to_perms(&c.perms) {
                    None => Err(AuthenticationError::InvalidToken),
                    Some(ps) => Ok(
                        Token {
                            sub: Oid { hi: c.sub_hi, lo: c.sub_lo },
                            exp: c.exp,
                            iat: c.iat,
                            term: if c.long_term {
                                TokenType::LongTerm
                            } else {
                                TokenType::ShortTerm
                            },
                            perms: ps,
                        },
                    ),
                }
            }
        },
    }
}

/// Checking tokens from a claims value, for callers that hold one.
pub trait TokenTrait {
    /// Checks a token against the secret and the clock reading `now`,
    /// exactly as `verify_token` does.
    fn verify_token(&self, token: &str, now: u64, secret: &String) -> (r: Result<
        Token,
        AuthenticationError,
    >)
        ensures
            match r {
                Ok(t) => spec_verify_token(secret@, token@, now) == Ok::<
                    TokenView,
                    AuthenticationError,
                >(t@),
                Err(e) => spec_verify_token(secret@, token@, now) == Err::<
                    TokenView,
                    AuthenticationError,
                >(e),
            },
    ;
}

impl TokenTrait for Token {
    fn verify_token(&self, token: &str, now: u64, secret: &String) -> (r: Result<
        Token,
        AuthenticationError,
    >) {
        verify_token(token, now, secret)
    }
}

/// Verifying what was issued yields the issued claims: for any token with
/// exactly what `generate_token` ensures of its result — its decoding
/// equals the signed claims (subject, expiry at `iat` plus the term's
/// span, the term flag and the permission codes) and it holds no space —
/// and any clock reading not past the expiry, verification succeeds and
/// returns that subject, term and permission set, with the expiry exactly
/// a term span after issuance.
pub proof fn lemma_token_round_trip(
    secret: Seq<char>,
    token: Seq<char>,
    sub: Oid,
    term: TokenType,
    perms: Seq<GroupPermission>,
    iat: u64,
    now: u64,
)
    requires
        iat + spec_term_secs(term) <= u64::MAX,
        jwt_claims_of(secret, token) == Some(
            (
                sub.hi,
                sub.lo,
                (iat + spec_term_secs(term)) as u64,
                iat,
                term == TokenType::LongTerm,
                spec_codes_of(perms),
            ),
        ),
        forall|i: int| 0 <= i < token.len() ==> token[i] != ' ',
        now <= iat + spec_term_secs(term),
    ensures
        spec_verify_token(secret, token, now) matches Ok(c) && c.sub == sub && c.term == term
            && c.perms == perms && c.iat == iat && c.exp - c.iat == spec_term_secs(term),
{
    lemma_space_free_strip_bearer(token);
    lemma_codes_round_trip(perms);
}

} // verus!
