use vstd::prelude::*;

verus! {

/// What `bcrypt::verify` answers for a password and a stored hash: `None`
/// when the hash cannot be read (malformed, or a cost outside 4 to 31),
/// otherwise whether the password matches it. It depends on the two texts
/// alone.
pub uninterp spec fn bcrypt_verify_outcome(password: Seq<char>, hash: Seq<char>) -> Option<bool>;

/// Calls `bcrypt::hash` with `bcrypt::DEFAULT_COST` (12). The salt is
/// drawn from the operating system, so the hash itself is left open; the
/// contract claims only what the crate's source shows of every outcome:
/// a produced hash is one that `bcrypt::verify` accepts for the same
/// password (both truncate the password at 72 bytes alike), and it is the
/// 60-character text of the bcrypt format. It fails only when no random
/// salt can be had.
#[verifier::external_body]
pub(crate) fn bcrypt_hash(password: &str) -> (r: Option<String>)
    ensures
        r matches Some(h) ==> bcrypt_verify_outcome(password@, h@) == Some(true) && h@.len() == 60,
{
    bcrypt::hash(password, bcrypt::DEFAULT_COST).ok()
}

/// Calls `bcrypt::verify`; the contract claims only that its answer is the
/// named outcome for the two texts, an error becoming `None`.
#[verifier::external_body]
pub(crate) fn bcrypt_verify(password: &str, hash: &str) -> (r: Option<bool>)
    ensures
        r == bcrypt_verify_outcome(password@, hash@),
{
    bcrypt::verify(password, hash).ok()
}

} // verus!
