use vstd::prelude::*;

verus! {

/// Largest password, in bytes, that Argon2 accepts.
pub const MAX_PASSWORD_BYTES: usize = 0xFFFF_FFFF;

/// The algorithm, version and cost parameters that `Argon2::default` writes
/// at the start of every hash it produces.
pub const ARGON2_DEFAULT_PREFIX: &'static str = "$argon2id$v=19$m=19456,t=2,p=1$";

/// Length of a default Argon2 hash string: the prefix, a 16-byte salt in 22
/// Base64 characters, a separator, and a 32-byte output in 43 characters.
pub const ARGON2_DEFAULT_HASH_LEN: usize = 97;

/// A well-formed hash that no stored credential uses. It is checked in place
/// of a malformed or missing stored hash, so that a rejection costs the same
/// derivation as a real check.
pub const STAND_IN_PHC: &'static str = "$argon2id$v=19$m=19456,t=2,p=1$AAAAAAAAAAAAAAAAAAAAAA$AAAAAAAAAAAAAAAAAAAAAAAAAAAAAAAAAAAAAAAAAAA";

/// Whether `phc` parses as a PHC-format password hash string.
pub uninterp spec fn phc_parses(phc: Seq<char>) -> bool;

/// Whether Argon2, run with the algorithm, version, cost parameters and salt
/// that `phc` records, derives from `password` the hash output that `phc` records.
pub uninterp spec fn argon2_accepts(password: Seq<char>, phc: Seq<char>) -> bool;

/// The outcome of checking `password` against the stored hash `phc`: the hash
/// must parse, and the recomputed derivation must match it.
pub open spec fn password_matches(password: Seq<char>, phc: Seq<char>) -> bool {
    phc_parses(phc) && argon2_accepts(password, phc)
}

/// Relies on `password_hash::PasswordHash::new`, which rejects an empty string
/// and any string whose first `$`-separated field is not empty.
#[verifier::external_body]
fn phc_is_well_formed(phc: &str) -> (r: bool)
    ensures
        r == phc_parses(phc@),
        r ==> phc@.len() > 0 && phc@[0] == '$',
{
    password_hash::PasswordHash::new(phc).is_ok()
}

/// Relies on `PasswordVerifier::verify_password` of `argon2::Argon2::default()`
/// on the parsed hash; it succeeds only for a hash that parses.
#[verifier::external_body]
fn argon2_verify(password: &str, phc: &str) -> (r: bool)
    ensures
        r == argon2_accepts(password@, phc@),
        r ==> phc_parses(phc@),
{
    match password_hash::PasswordHash::new(phc) {
        Ok(parsed) => argon2::PasswordVerifier::verify_password(
            &argon2::Argon2::default(),
            password.as_bytes(),
            &parsed,
        ).is_ok(),
        Err(_) => false,
    }
}

/// Relies on `PasswordHasher::hash_password` of `argon2::Argon2::default()`
/// with a fresh salt from `SaltString::generate(OsRng)`: the PHC string it
/// returns parses, and verifying the same password against it succeeds. It
/// starts with the default algorithm, version and parameters (argon2id, v=19,
/// m=19456, t=2, p=1), followed by the 22-character salt and the 43-character
/// output. Its only input-dependent failure is a password over `MAX_PWD_LEN` bytes.
#[verifier::external_body]
fn argon2_hash(password: &str) -> (r: String)
    requires
        password.len() <= MAX_PASSWORD_BYTES,
    ensures
        phc_parses(r@),
        argon2_accepts(password@, r@),
        ARGON2_DEFAULT_PREFIX@.is_prefix_of(r@),
        r@.len() == ARGON2_DEFAULT_HASH_LEN,
{
    let salt = password_hash::SaltString::generate(&mut password_hash::rand_core::OsRng);
    argon2::PasswordHasher::hash_password(&argon2::Argon2::default(), password.as_bytes(), &salt)
        .expect("Argon2 hashing with default parameters")
        .to_string()
}

/// Hashes `password` with a fresh random salt into a self-describing PHC
/// string that records the algorithm, version, cost parameters and salt. The
/// same password always verifies against the result.
pub fn hash_password(password: &str) -> (r: String)
    requires
        password.len() <= MAX_PASSWORD_BYTES,
    ensures
        password_matches(password@, r@),
        ARGON2_DEFAULT_PREFIX@.is_prefix_of(r@),
        r@.len() == ARGON2_DEFAULT_HASH_LEN,
{
    argon2_hash(password)
}

/// Checks `password` against the stored hash `hash_phc`. A stored hash that
/// does not parse is rejected, never raised: in particular any string that
/// does not start with `$` is rejected. A malformed stored hash still costs
/// one derivation, against [`STAND_IN_PHC`], so that it is not told apart by time.
pub fn verify_password(password: &str, hash_phc: &str) -> (r: bool)
    ensures
        r == password_matches(password@, hash_phc@),
        !(hash_phc@.len() > 0 && hash_phc@[0] == '$') ==> !r,
{
    if !phc_is_well_formed(hash_phc) {
        let _ = argon2_verify(password, STAND_IN_PHC);
        return false;
    }
    argon2_verify(password, hash_phc)
}

/// Every hash of a password verifies that password: two hashes of the same
/// password differ only in their salt, and both are accepted.
pub proof fn lemma_hashes_verify(password: Seq<char>, first: Seq<char>, second: Seq<char>)
    requires
        password_matches(password, first),
        password_matches(password, second),
        ARGON2_DEFAULT_PREFIX@.is_prefix_of(first),
        ARGON2_DEFAULT_PREFIX@.is_prefix_of(second),
    ensures
        phc_parses(first) && argon2_accepts(password, first),
        phc_parses(second) && argon2_accepts(password, second),
        first.subrange(0, ARGON2_DEFAULT_PREFIX@.len() as int) == second.subrange(
            0,
            ARGON2_DEFAULT_PREFIX@.len() as int,
        ),
{
}

} // verus!
