use sha2::Digest;
use vstd::prelude::*;
use vstd::utf8::encode_utf8;

use crate::text::{join, lower_hex, to_lower_hex};

verus! {

/// The SHA-256 digest of a byte string.
pub uninterp spec fn sha256_of(data: Seq<u8>) -> Seq<u8>;

/// Relies on sha2's `Sha256::digest`: the SHA-256 digest of `data`, which is
/// 32 bytes long.
#[verifier::external_body]
fn sha256(data: &[u8]) -> (r: Vec<u8>)
    ensures
        r@ == sha256_of(data@),
        r@.len() == 32,
{
    sha2::Sha256::digest(data).to_vec()
}

/// The text appended to every password before it is hashed.
pub open spec fn password_salt() -> Seq<char> {
    "bindkey.com"@
}

/// The salted digest of a password, as the server stores it: lower-case
/// hexadecimal of the SHA-256 of the password's UTF-8 bytes followed by the salt.
pub open spec fn salted_password_hash(password: Seq<char>) -> Seq<char> {
    lower_hex(sha256_of(encode_utf8(password + password_salt())))
}

/// Hashes a password with the client's salt, so that the clear password is
/// never sent.
pub fn hash_password_with_salt(password: &str) -> (r: String)
    ensures
        r@ == salted_password_hash(password@),
        r@.len() == 64,
{
    let combined = join(password, "bindkey.com");
    let digest = sha256(combined.as_str().as_bytes());
    to_lower_hex(digest.as_slice())
}

} // verus!
