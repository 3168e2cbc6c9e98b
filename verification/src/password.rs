use vstd::prelude::*;
use vstd::string::*;

verus! {

/// The error that the `pwhash` crate reports.
#[verifier::external_type_specification]
#[verifier::external_body]
pub struct ExPwhashError(pwhash::error::Error);

/// Whether `pwhash::bcrypt::verify` accepts `password` against the stored
/// bcrypt `hash`. It re-hashes the password with the cost and salt that the
/// hash names and compares, so it depends on these two texts alone.
pub uninterp spec fn bcrypt_verifies(password: Seq<char>, hash: Seq<char>) -> bool;

/// Every character of `s` lies in U+0020..=U+007F: no control character
/// below the space, and nothing beyond ASCII.
pub open spec fn plain_ascii(s: Seq<char>) -> bool {
    forall|i: int| 0 <= i < s.len() ==> 0x20 <= (#[trigger] s[i] as u32) < 0x80
}

/// The form of every hash that `pwhash::bcrypt::hash` makes: 60 characters,
/// the first seven `$2b$10$` (bcrypt variant 2b at cost 10).
pub open spec fn bcrypt_form(h: Seq<char>) -> bool {
    h.len() == 60 && h.subrange(0, 7) == "$2b$10$"@
}

/// Calls `pwhash::bcrypt::verify(password, hash)`, which answers whether
/// the password hashes to `hash` under the hash's own salt and cost.
/// Claimed: the answer is `bcrypt_verifies` of the two texts. The hash must
/// be plain ASCII from the space up: the crate decodes each salt character
/// by subtracting 0x20 from its code, which overflows below the space, and
/// then indexes a 96-entry table, which a code of 0x80 or more overruns.
#[verifier::external_body]
fn bcrypt_verify(password: &str, hash: &str) -> (ok: bool)
    requires
        plain_ascii(hash@),
    ensures
        ok == bcrypt_verifies(password@, hash@),
{
    pwhash::bcrypt::verify(password, hash)
}

/// Calls `pwhash::bcrypt::hash(password)`, which hashes the password with a
/// fresh random salt at the default cost 10 and variant 2b, giving `$2b$10$`
/// followed by 53 Base64 characters. Claimed: it returns `Ok`, since the
/// crate's code always wraps the formatted hash in `Ok` (a random source
/// that fails makes it panic, not return an error); and the hash has that
/// form, is plain ASCII, and `verify` accepts the password against it (both
/// sides truncate the password to 72 bytes alike). Which hash comes back is
/// left unsaid: the salt is random.
#[verifier::external_body]
fn bcrypt_hash(password: &str) -> (r: Result<String, pwhash::error::Error>)
    ensures
        r is Ok,
        r matches Ok(h) ==> bcrypt_form(h@) && plain_ascii(h@) && bcrypt_verifies(password@, h@),
{
    pwhash::bcrypt::hash(password)
}

/// Whether every character of `s` lies in U+0020..=U+007F.
pub fn is_plain_ascii(s: &str) -> (r: bool)
    ensures
        r == plain_ascii(s@),
{
    let n = s.unicode_len();
    let mut i: usize = 0;
    while i < n
        invariant
            n == s@.len(),
            i <= n,
            forall|k: int| 0 <= k < i ==> 0x20 <= (#[trigger] s@[k] as u32) < 0x80,
        decreases n - i,
    {
        let c = s.get_char(i);
        if (c as u32) < 0x20 || (c as u32) >= 0x80 {
            return false;
        }
        i = i + 1;
    }
    true
}

/// Whether `password` matches the stored `hash`. A stored hash with a
/// character outside U+0020..=U+007F is never accepted, and is not handed to
/// bcrypt (no hash that bcrypt makes or accepts has one).
pub fn password_matches(password: &str, hash: &str) -> (r: bool)
    ensures
        r == (plain_ascii(hash@) && bcrypt_verifies(password@, hash@)),
{
    if is_plain_ascii(hash) {
        bcrypt_verify(password, hash)
    } else {
        false
    }
}

/// Why a password could not be hashed.
#[derive(Debug, Clone, Copy, PartialEq, Eq)]
pub enum HashError {
    /// The hashing crate reported an error.
    Failed,
}

/// Hashes a password for storage with bcrypt.
pub fn hash_password(password: &str) -> (r: Result<String, HashError>)
    ensures
        r is Ok,
        r matches Ok(h) ==> bcrypt_form(h@) && plain_ascii(h@) && bcrypt_verifies(password@, h@),
{
    match bcrypt_hash(password) {
        Ok(h) => Ok(h),
        Err(_) => Err(HashError::Failed),
    }
}

} // verus!
