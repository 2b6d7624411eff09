//! Passwords at rest.
//!
//! A password is never kept as it was typed. What is stored is the PHC
//! string of its Argon2id hash under a salt made for that one call: the
//! algorithm, its version and parameters, the salt and the digest, each
//! after a `$`.

use crate::error::ApiError;
use argon2::password_hash::rand_core::OsRng;
use argon2::password_hash::SaltString;
use argon2::{Argon2, PasswordHasher};
use vstd::prelude::*;
use vstd::utf8::encode_utf8;

verus! {

/// How every stored password begins: the algorithm, its version and the
/// default parameters.
pub open spec fn phc_prefix() -> Seq<char> {
    "$argon2id$v=19$m=19456,t=2,p=1$"@
}

/// The PHC string made of a salt and a digest, both in their text form.
pub open spec fn phc_text(salt: Seq<char>, digest: Seq<char>) -> Seq<char> {
    phc_prefix() + salt + seq!['$'] + digest
}

/// What Argon2id, with the default parameters, makes of `password` under
/// `salt`: the text of the digest, or, where the hasher refuses the
/// password or the salt, the words of its error.
pub uninterp spec fn argon2id_outcome(password: Seq<u8>, salt: Seq<char>) -> Result<
    Seq<char>,
    Seq<char>,
>;

/// What hashing `plaintext` under `salt` comes to: the PHC string to store,
/// or the words of the hasher's error.
pub open spec fn hashed_under(plaintext: Seq<char>, salt: Seq<char>) -> Result<
    Seq<char>,
    Seq<char>,
> {
    match argon2id_outcome(encode_utf8(plaintext), salt) {
        Ok(digest) => Ok(phc_text(salt, digest)),
        Err(words) => Err(words),
    }
}

/// Whether `c` belongs to the alphabet in which salts are written: the
/// letters, the digits, `+` and `/`.
pub open spec fn is_b64_char(c: char) -> bool {
    ||| 65 <= c as int <= 90
    ||| 97 <= c as int <= 122
    ||| 48 <= c as int <= 57
    ||| c == '+'
    ||| c == '/'
}

/// Whether `salt` is written as the salts made here are: 16 bytes in 22
/// characters of the alphabet.
pub open spec fn is_salt_text(salt: Seq<char>) -> bool {
    &&& salt.len() == 22
    &&& forall|i: int| 0 <= i < salt.len() ==> is_b64_char(#[trigger] salt[i])
}

/// `stored` is the PHC string of `plaintext` under some salt that could
/// have been made for it.
pub open spec fn is_hash_of(stored: Seq<char>, plaintext: Seq<char>) -> bool {
    exists|salt: Seq<char>|
        is_salt_text(salt) && #[trigger] hashed_under(plaintext, salt) == Ok::<
            Seq<char>,
            Seq<char>,
        >(stored)
}

/// `words` are the words with which the hasher refuses `plaintext` under
/// some salt that could have been made for it.
pub open spec fn is_refusal_of(words: Seq<char>, plaintext: Seq<char>) -> bool {
    exists|salt: Seq<char>|
        is_salt_text(salt) && #[trigger] hashed_under(plaintext, salt) == Err::<
            Seq<char>,
            Seq<char>,
        >(words)
}

/// Every PHC string begins with the prefix.
pub proof fn lemma_phc_text_has_prefix(salt: Seq<char>, digest: Seq<char>)
    ensures
        phc_prefix().is_prefix_of(phc_text(salt, digest)),
{
    let text = phc_text(salt, digest);
    assert(text.subrange(0, phc_prefix().len() as int) =~= phc_prefix());
}

/// What is stored for a password begins as PHC strings do.
pub proof fn lemma_hash_has_prefix(stored: Seq<char>, plaintext: Seq<char>)
    requires
        is_hash_of(stored, plaintext),
    ensures
        phc_prefix().is_prefix_of(stored),
{
    let salt = choose|salt: Seq<char>|
        is_salt_text(salt) && #[trigger] hashed_under(plaintext, salt) == Ok::<
            Seq<char>,
            Seq<char>,
        >(stored);
    lemma_phc_text_has_prefix(salt, argon2id_outcome(encode_utf8(plaintext), salt)->Ok_0);
}

/// A password is stored as typed only if it is its own hash; and such a
/// password begins as PHC strings do. So what is stored for a password that
/// does not begin so is never the password.
pub proof fn lemma_hash_differs_from_plaintext(stored: Seq<char>, plaintext: Seq<char>)
    requires
        is_hash_of(stored, plaintext),
    ensures
        stored != plaintext || is_hash_of(plaintext, plaintext),
        stored != plaintext || phc_prefix().is_prefix_of(plaintext),
{
    lemma_hash_has_prefix(stored, plaintext);
}

/// Makes a salt for one password.
///
/// Calls `SaltString::generate` of the password-hash crate with the
/// operating system's random number generator, and copies the salt's text.
/// The salt is random. The contract claims only how it is written: the
/// function encodes 16 bytes in unpadded Base64 of the standard alphabet,
/// which gives 22 characters.
#[verifier::external_body]
fn fresh_salt() -> (salt: String)
    ensures
        is_salt_text(salt@),
{
    SaltString::generate(&mut OsRng).as_str().to_owned()
}

/// Hashes a password under a salt.
///
/// Reads the salt with `SaltString::from_b64`, calls
/// `Argon2::default().hash_password` and writes the hash, or the error of
/// either call, with `to_string`. The contract claims that the outcome
/// depends on the two arguments alone, and that a hash is written as the
/// PHC format orders it: the identifier `argon2id`, version 19, the default
/// parameters, the salt as it was given and the digest. It does not claim
/// on which arguments the hasher succeeds.
#[verifier::external_body]
fn argon2_phc(password: &[u8], salt: &str) -> (outcome: Result<String, String>)
    ensures
        match outcome {
            Ok(stored) => argon2id_outcome(password@, salt@) is Ok && stored@ == phc_text(
                salt@,
                argon2id_outcome(password@, salt@)->Ok_0,
            ),
            Err(words) => argon2id_outcome(password@, salt@) == Err::<Seq<char>, Seq<char>>(
                words@,
            ),
        },
{
    let salt = match SaltString::from_b64(salt) {
        Ok(salt) => salt,
        Err(error) => return Err(error.to_string()),
    };
    match Argon2::default().hash_password(password, &salt) {
        Ok(hash) => Ok(hash.to_string()),
        Err(error) => Err(error.to_string()),
    }
}

/// What becomes of a hashing outcome: the hash is kept as it is, and the
/// words of an error become a hashing failure that carries them.
pub fn password_outcome(outcome: Result<String, String>) -> (r: Result<String, ApiError>)
    ensures
        match outcome {
            Ok(stored) => r == Ok::<String, ApiError>(stored),
            Err(words) => r == Err::<String, ApiError>(ApiError::Hash(words)),
        },
{
    match outcome {
        Ok(stored) => Ok(stored),
        Err(words) => Err(ApiError::Hash(words)),
    }
}

/// Hashes a password under a given salt.
///
/// The result is fixed by the password and the salt: the PHC string of the
/// password under that salt, or a hashing failure with the words of the
/// hasher's error.
pub fn hash_password_with(plaintext: &str, salt: &str) -> (r: Result<String, ApiError>)
    ensures
        match hashed_under(plaintext@, salt@) {
            Ok(stored) => r matches Ok(text) && text@ == stored,
            Err(words) => r matches Err(ApiError::Hash(text)) && text@ == words,
        },
{
    password_outcome(argon2_phc(plaintext.as_bytes(), salt))
}

/// Hashes a password for storage, under a salt made for this call.
///
/// What comes back as `Ok` is the PHC string of `plaintext` under some
/// salt; it is the password as typed only if the password is its own hash.
/// What comes back as `Err` is a hashing failure with the words of the
/// hasher, which refused the password under the salt that was made.
pub fn hash_password(plaintext: &str) -> (r: Result<String, ApiError>)
    ensures
        r matches Ok(stored) ==> is_hash_of(stored@, plaintext@),
        r matches Ok(stored) ==> phc_prefix().is_prefix_of(stored@),
        r matches Ok(stored) ==> stored@ != plaintext@ || is_hash_of(plaintext@, plaintext@),
        r matches Ok(stored) ==> stored@ != plaintext@ || phc_prefix().is_prefix_of(plaintext@),
        r matches Err(error) ==> error matches ApiError::Hash(words) && is_refusal_of(
            words@,
            plaintext@,
        ),
{
    let salt = fresh_salt();
    let r = hash_password_with(plaintext, salt.as_str());
    proof {
        if r is Ok {
            let stored = r->Ok_0@;
            assert(hashed_under(plaintext@, salt@) == Ok::<Seq<char>, Seq<char>>(stored));
            lemma_hash_differs_from_plaintext(stored, plaintext@);
            lemma_hash_has_prefix(stored, plaintext@);
        } else {
            let words = r->Err_0->Hash_0@;
            assert(hashed_under(plaintext@, salt@) == Err::<Seq<char>, Seq<char>>(words));
        }
    }
    r
}

} // verus!
