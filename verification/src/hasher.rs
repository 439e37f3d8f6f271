//! One-way hashing of passwords and their verification, on top of bcrypt.

use vstd::prelude::*;
use vstd::string::StringExecFns;
use crate::error::{result_view, ErrorView, MyError};

verus! {

/// Detail prefix of the failure reported when a password cannot be hashed.
pub const MSG_HACHAGE: &'static str = "Erreur de hachage: ";

/// Detail of the failure reported when a stored hash cannot be checked.
pub const MSG_VERIFICATION: &'static str = "Erreur de vérification du mot de passe";

/// Length of every hash the hasher produces.
pub const HASH_LEN: usize = 60;

/// The error type of the bcrypt crate. Proofs see nothing inside it.
#[verifier::external_type_specification]
#[verifier::external_body]
pub struct ExBcryptError(bcrypt::BcryptError);

/// What `bcrypt::verify` answers for a password and a stored hash: `Some(true)`
/// on a match, `Some(false)` on a mismatch, `None` where it reports an error
/// (a malformed hash).
pub uninterp spec fn bcrypt_verdict(secret: Seq<char>, blob: Seq<char>) -> Option<bool>;

/// Hashes a password with `bcrypt::hash` at `bcrypt::DEFAULT_COST`. The salt is
/// random, so the hash itself is not determined. What the contract
/// claims of every hash that comes back: it is 60 characters long, and
/// `bcrypt::verify` accepts the same password against it.
#[verifier::external_body]
pub(crate) fn bcrypt_hash(secret: &str) -> (r: Result<String, bcrypt::BcryptError>)
    ensures
        r matches Ok(blob) ==> blob@.len() == HASH_LEN && bcrypt_verdict(secret@, blob@) == Some(
            true,
        ),
{
    bcrypt::hash(secret, bcrypt::DEFAULT_COST)
}

/// Checks a password against a stored hash with `bcrypt::verify`. The contract
/// names the outcome.
#[verifier::external_body]
pub(crate) fn bcrypt_verify(secret: &str, blob: &str) -> (r: Result<bool, bcrypt::BcryptError>)
    ensures
        match r {
            Ok(matches) => bcrypt_verdict(secret@, blob@) == Some(matches),
            Err(_) => bcrypt_verdict(secret@, blob@) is None,
        },
{
    bcrypt::verify(secret, blob)
}

/// The text of a bcrypt error, from its `Display`. Nothing is claimed of it.
#[verifier::external_body]
pub(crate) fn bcrypt_error_text(error: &bcrypt::BcryptError) -> String {
    error.to_string()
}

/// Whether hashing `secret` may come out as `outcome`: as a hash of 60
/// characters that the password verifies against, or as a `Custom` failure
/// whose detail begins with [`MSG_HACHAGE`].
pub open spec fn hash_outcome(secret: Seq<char>, outcome: Result<Seq<char>, ErrorView>) -> bool {
    match outcome {
        Ok(blob) => blob.len() == HASH_LEN && bcrypt_verdict(secret, blob) == Some(true),
        Err(e) => e is Custom && MSG_HACHAGE@.is_prefix_of(e.detail()),
    }
}

/// The failure reported when hashing fails, carrying the hasher's own words.
pub fn hashing_failure(cause: &str) -> (e: MyError)
    ensures
        e@ == ErrorView::Custom(MSG_HACHAGE@ + cause@),
{
    MyError::Custom(String::from_str(MSG_HACHAGE).concat(cause))
}

/// Hashes `secret` for storage. Hashing is salted, so two calls on one password
/// need not give the same hash; every hash is 60 characters long and is
/// accepted by [`verify_password`] for that password. It fails only when the
/// hasher itself does, with a `Custom` error whose detail begins with
/// [`MSG_HACHAGE`].
pub fn hash_password(secret: &str) -> (r: Result<String, MyError>)
    ensures
        hash_outcome(secret@, result_view(r)),
{
    match bcrypt_hash(secret) {
        Ok(blob) => Ok(blob),
        Err(cause) => {
            let text = bcrypt_error_text(&cause);
            let failure = hashing_failure(text.as_str());
            assert(MSG_HACHAGE@ =~= (MSG_HACHAGE@ + text@).subrange(0, MSG_HACHAGE@.len() as int));
            Err(failure)
        },
    }
}

/// Turns the hasher's answer into the service's: a verdict stays a verdict, an
/// error becomes the `Custom` failure with [`MSG_VERIFICATION`].
pub fn verdict_of(answer: Result<bool, bcrypt::BcryptError>) -> (r: Result<bool, MyError>)
    ensures
        match r {
            Ok(matches) => answer == Ok::<bool, bcrypt::BcryptError>(matches),
            Err(e) => answer is Err && e@ == ErrorView::Custom(MSG_VERIFICATION@),
        },
{
    match answer {
        Ok(matches) => Ok(matches),
        Err(_) => Err(MyError::Custom(String::from_str(MSG_VERIFICATION))),
    }
}

/// Checks `secret` against the stored hash `blob`. A mismatch is `Ok(false)`,
/// never an error; a hash that cannot be read is the `Custom` failure with
/// [`MSG_VERIFICATION`].
pub fn verify_password(secret: &str, blob: &str) -> (r: Result<bool, MyError>)
    ensures
        match r {
            Ok(matches) => bcrypt_verdict(secret@, blob@) == Some(matches),
            Err(e) => bcrypt_verdict(secret@, blob@) is None && e@ == ErrorView::Custom(
                MSG_VERIFICATION@,
            ),
        },
{
    verdict_of(bcrypt_verify(secret, blob))
}

} // verus!
