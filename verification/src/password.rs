//! Password hashing at registration and the old-password check of a
//! password change, both done by bcrypt.

use bcrypt::BcryptError;
use vstd::prelude::*;

verus! {

/// The error of a bcrypt operation.
#[verifier::external_type_specification]
#[verifier::external_body]
pub struct ExBcryptError(BcryptError);

/// What `bcrypt::verify` answers for this password and stored hash:
/// `Some(b)` when it returns `Ok(b)`, `None` when it returns an error.
pub uninterp spec fn bcrypt_verdict(password: Seq<char>, hash: Seq<char>) -> Option<bool>;

/// The cost at which passwords are hashed: bcrypt's default.
pub const HASH_COST: u32 = 12;

/// `c` belongs to bcrypt's base-64 alphabet (`./A-Za-z0-9`).
pub open spec fn is_bcrypt_char(c: char) -> bool {
    ||| c == '.'
    ||| c == '/'
    ||| (65 <= c as int && c as int <= 90)
    ||| (97 <= c as int && c as int <= 122)
    ||| (48 <= c as int && c as int <= 57)
}

/// `h` is a bcrypt hash in the `2b` format at this cost:
/// `$2b$`, the cost in two digits, `$`, then 53 characters of salt and hash.
pub open spec fn is_bcrypt_hash(h: Seq<char>, cost: int) -> bool {
    &&& h.len() == 60
    &&& h[0] == '$'
    &&& h[1] == '2'
    &&& h[2] == 'b'
    &&& h[3] == '$'
    &&& h[4] as int == 48 + cost / 10
    &&& h[5] as int == 48 + cost % 10
    &&& h[6] == '$'
    &&& forall|i: int| 7 <= i < 60 ==> is_bcrypt_char(#[trigger] h[i])
}

/// Calls `bcrypt::hash` with a random salt. It refuses a cost outside 4 to
/// 31; otherwise it fails only when the system gives no
/// randomness, and its hash is written in the `2b` format, which
/// `bcrypt::verify` accepts for the same password. Which salt is drawn, and
/// so which hash comes out, is left to chance and is not stated.
#[verifier::external_body]
fn bcrypt_hash(password: &str, cost: u32) -> (r: Result<String, BcryptError>)
    ensures
        !(4 <= cost <= 31) ==> r is Err,
        r matches Ok(h) ==> is_bcrypt_hash(h@, cost as int) && bcrypt_verdict(password@, h@) == Some(true),
{
    bcrypt::hash(password, cost)
}

/// Calls `bcrypt::verify`, which answers whether `password` hashes to
/// `hash` under the cost and salt read from `hash`, and fails on a hash it
/// cannot read, and refuses any hash that is not 60 ASCII characters.
#[verifier::external_body]
fn bcrypt_verify(password: &str, hash: &str) -> (r: Result<bool, BcryptError>)
    ensures
        match r {
            Ok(b) => bcrypt_verdict(password@, hash@) == Some(b),
            Err(_) => bcrypt_verdict(password@, hash@) is None,
        },
        hash@.len() != 60 ==> r is Err,
{
    bcrypt::verify(password, hash)
}

/// What a new account stores for its password `password`: either nothing
/// (hashing failed) or its bcrypt hash at the default cost, which bcrypt
/// accepts for that password.
pub open spec fn stored_hash_of(password: Seq<char>, hash: Seq<char>) -> bool {
    ||| hash.len() == 0
    ||| is_bcrypt_hash(hash, HASH_COST as int) && bcrypt_verdict(password, hash) == Some(true)
}

/// What the old-password check answers: it accepts whenever bcrypt can
/// check the stored hash, whether or not the password matches, and it
/// refuses a stored hash that is not 60 characters long.
pub open spec fn old_password_check(old_password: Seq<char>, stored_hash: Seq<char>, accepted: bool) -> bool {
    &&& accepted == (bcrypt_verdict(old_password, stored_hash) is Some)
    &&& (stored_hash.len() != 60 ==> !accepted)
}

/// What a new account stores, given what hashing its password gave: the
/// hash itself, or the empty string when hashing failed.
pub fn hash_to_store(hashed: Result<String, BcryptError>) -> (stored: String)
    ensures
        match hashed {
            Ok(h) => stored == h,
            Err(_) => stored@ == Seq::<char>::empty(),
        },
{
    match hashed {
        Ok(h) => h,
        Err(_) => String::new(),
    }
}

/// The hash stored for a new account's password: bcrypt at the default
/// cost, or the empty string when hashing failed. Whether hashing succeeds
/// rests on the system's randomness, so success is not promised.
pub fn registration_hash(password: &str) -> (hash: String)
    ensures
        stored_hash_of(password@, hash@),
{
    hash_to_store(bcrypt_hash(password, HASH_COST))
}

/// Whether the old password given for a password change passes the check
/// against the stored hash.
pub fn old_password_accepted(old_password: &str, stored_hash: &str) -> (accepted: bool)
    ensures
        old_password_check(old_password@, stored_hash@, accepted),
{
    match bcrypt_verify(old_password, stored_hash) {
        Ok(_) => true,
        Err(_) => false,
    }
}

/// A password change that gives the password an account was registered
/// with is let through exactly when registration managed to hash it: a
/// stored hash lets it through, an empty one (hashing failed) refuses every
/// old password.
pub proof fn registered_password_passes_check(password: Seq<char>, stored: Seq<char>, accepted: bool)
    requires
        stored_hash_of(password, stored),
        old_password_check(password, stored, accepted),
    ensures
        accepted == (stored.len() != 0),
{
}

} // verus!
