//! Login-credential decryption.
//!
//! Login requests carry the password hex-encoded and encrypted against the
//! service's public key. Hex decoding is verified here in full; the
//! asymmetric decryption is done by an outside library and trusted, with
//! its outcome named as a function of the private key and the ciphertext.

use vstd::prelude::*;
use vstd::string::StrSliceExecFns;
use vstd::string::StringSliceAdditionalSpecFns;

use rsa::pkcs1::DecodeRsaPrivateKey;

verus! {

/// The value of one hex digit, if the byte is one.
pub open spec fn spec_hex_val(b: u8) -> Option<u8> {
    if 48 <= b && b <= 57 {
        Some((b - 48) as u8)
    } else if 97 <= b && b <= 102 {
        Some((b - 87) as u8)
    } else if 65 <= b && b <= 70 {
        Some((b - 55) as u8)
    } else {
        None
    }
}

/// Whether a byte sequence is well-formed hex: an even number of bytes,
/// every one a hex digit.
pub open spec fn spec_hex_ok(s: Seq<u8>) -> bool {
    &&& s.len() % 2 == 0
    &&& forall|i: int| 0 <= i < s.len() ==> spec_hex_val(s[i]) is Some
}

/// The bytes a well-formed hex sequence encodes, two digits per byte.
pub open spec fn spec_hex_bytes(s: Seq<u8>) -> Seq<u8> {
    Seq::new(
        s.len() / 2,
        |i: int| (spec_hex_val(s[2 * i])->Some_0 * 16 + spec_hex_val(s[2 * i + 1])->Some_0) as u8,
    )
}

/// The value of one hex digit, if the byte is one.
pub fn hex_val(b: u8) -> (r: Option<u8>)
    ensures
        r == spec_hex_val(b),
{
    if 48 <= b && b <= 57 {
        Some(b - 48)
    } else if 97 <= b && b <= 102 {
        Some(b - 87)
    } else if 65 <= b && b <= 70 {
        Some(b - 55)
    } else {
        None
    }
}

/// Decodes a hex string to bytes: two digits per byte, upper or lower
/// case. Fails exactly on a string of odd length or with a non-digit.
pub fn hex_decode(s: &str) -> (r: Option<Vec<u8>>)
    ensures
        match r {
            Some(v) => spec_hex_ok(s.spec_bytes()) && v@ == spec_hex_bytes(s.spec_bytes()),
            None => !spec_hex_ok(s.spec_bytes()),
        },
{
    let bytes = s.as_bytes_vec();
    if bytes.len() % 2 != 0 {
        return None;
    }
    let mut out: Vec<u8> = Vec::new();
    let mut i: usize = 0;
    while i < bytes.len()
        invariant
            bytes@ == s.spec_bytes(),
            bytes@.len() % 2 == 0,
            i % 2 == 0,
            i <= bytes@.len(),
            forall|j: int| 0 <= j < i ==> spec_hex_val(bytes@[j]) is Some,
            out@.len() == i / 2,
            forall|j: int|
                0 <= j < i / 2 ==> out@[j] == (spec_hex_val(bytes@[2 * j])->Some_0 * 16
                    + spec_hex_val(bytes@[2 * j + 1])->Some_0) as u8,
        decreases bytes@.len() - i,
    {
        let hi = hex_val(bytes[i]);
        let lo = hex_val(bytes[i + 1]);
        match (hi, lo) {
            (Some(h), Some(l)) => {
                out.push(h * 16 + l);
            },
            _ => {
                return None;
            },
        }
        i += 2;
    }
    proof {
        assert(out@ =~= spec_hex_bytes(s.spec_bytes()));
    }
    Some(out)
}

/// What decrypting a ciphertext under a PEM-encoded private key yields, or
/// nothing when the key is malformed or the ciphertext does not decrypt.
pub uninterp spec fn rsa_decrypt_of(key_pem: Seq<char>, ciphertext: Seq<u8>) -> Option<Seq<u8>>;

/// Relies on pem::parse, rsa::RsaPrivateKey::from_pkcs1_der and
/// rsa::RsaPrivateKey::decrypt with PKCS#1 v1.5 padding: decryption with a
/// fixed key is deterministic, so the outcome is a function of the key text
/// and the ciphertext alone.
#[verifier::external_body]
pub fn decrypt(key_pem: &str, ciphertext: &Vec<u8>) -> (r: Option<Vec<u8>>)
    ensures
        match r {
            Some(v) => rsa_decrypt_of(key_pem@, ciphertext@) == Some(v@),
            None => rsa_decrypt_of(key_pem@, ciphertext@) is None,
        },
{
    let parsed = match pem::parse(key_pem) {
        Ok(p) => p,
        Err(_) => return None,
    };
    let key = match rsa::RsaPrivateKey::from_pkcs1_der(parsed.contents()) {
        Ok(k) => k,
        Err(_) => return None,
    };
    key.decrypt(rsa::Pkcs1v15Encrypt, ciphertext.as_slice()).ok()
}

/// Decodes and decrypts a login credential: hex text to ciphertext bytes,
/// then decryption under the private key. Fails exactly when the hex is
/// malformed or the decryption fails.
pub fn decrypt_credentials(key_pem: &str, credentials: &str) -> (r: Option<Vec<u8>>)
    ensures
        match r {
            Some(v) => spec_hex_ok(credentials.spec_bytes()) && rsa_decrypt_of(
                key_pem@,
                spec_hex_bytes(credentials.spec_bytes()),
            ) == Some(v@),
            None => !spec_hex_ok(credentials.spec_bytes()) || rsa_decrypt_of(
                key_pem@,
                spec_hex_bytes(credentials.spec_bytes()),
            ) is None,
        },
{
    match hex_decode(credentials) {
        Some(ct) => decrypt(key_pem, &ct),
        None => None,
    }
}

} // verus!
