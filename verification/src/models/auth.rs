//! Principals, login/refresh request shapes, claims and token pairs.
//!
//! A principal's password is never stored: registration derives a salted
//! argon2 hash, and login re-verifies against it. Both steps go through the
//! argon2 crate; its verification outcome is named by the uninterpreted
//! `password_verifies`, so every contract above it is exact in that name.
use argon2::password_hash::PasswordHasher;
use argon2::password_hash::PasswordVerifier;
use vstd::prelude::*;

verus! {

/// The body of a login request.
pub struct LoginRequest {
    pub username: String,
    pub password: String,
}

/// The body of a refresh request.
pub struct RefreshTokenRequest {
    pub refresh_token: String,
}

/// What a successful login or refresh answers with: a short-lived access
/// token, the constant bearer marker, the access token's validity in
/// seconds, and a longer-lived refresh token.
#[derive(Debug)]
pub struct TokenResponse {
    pub access_token: String,
    pub token_type: String,
    pub expires_in: i64,
    pub refresh_token: Option<String>,
}

/// The signed payload of a token: subject, validity window, role.
#[derive(Clone, Debug)]
pub struct Claims {
    pub sub: String,
    pub exp: i64,
    pub iat: i64,
    pub role: String,
}

/// A registered principal: username, argon2 password hash, role.
#[derive(Clone)]
pub struct User {
    pub username: String,
    pub password_hash: String,
    pub role: String,
}

/// What argon2 password verification returns for a password and a PHC hash
/// string. The outcome is a function of the two arguments alone: the salt
/// and all parameters are carried inside the hash string, and verification
/// recomputes the hash from them and compares.
pub uninterp spec fn password_verifies(password: Seq<char>, hash: Seq<char>) -> bool;

/// Relies on argon2's `Argon2::hash_password` with a freshly generated
/// random salt. The salt makes the hash string itself unpredictable, so
/// nothing is said of its text; what the crate does promise is that
/// verifying the same password against the returned hash succeeds. Hashing
/// itself cannot fail with the default parameters and a generated salt.
#[verifier::external_body]
fn hash_password(password: &str) -> (r: String)
    ensures
        password_verifies(password@, r@),
{
    let salt = argon2::password_hash::SaltString::generate(&mut rand_core::OsRng);
    argon2::Argon2::default()
        .hash_password(password.as_bytes(), &salt)
        .expect("argon2 with default parameters and a generated salt")
        .to_string()
}

/// Relies on argon2's `Argon2::verify_password`, a deterministic function
/// of the password and the hash string; a hash string that does not parse
/// as a PHC string verifies no password.
#[verifier::external_body]
fn check_password(password: &str, hash: &str) -> (r: bool)
    ensures
        r == password_verifies(password@, hash@),
{
    match argon2::password_hash::PasswordHash::new(hash) {
        Ok(parsed) => argon2::Argon2::default().verify_password(
            password.as_bytes(),
            &parsed,
        ).is_ok(),
        Err(_) => false,
    }
}

impl User {
    /// Registers a principal: the password is replaced by a hash that
    /// verifies it.
    pub fn new(username: String, password: String, role: String) -> (r: User)
        ensures
            r.username@ == username@,
            r.role@ == role@,
            password_verifies(password@, r.password_hash@),
    {
        let password_hash: String = hash_password(password.as_str());
        User { username, password_hash, role }
    }

    /// Whether the presented password is the one this principal registered
    /// with, in the sense of the stored hash.
    pub fn verify_password(&self, password: &str) -> (r: bool)
        ensures
            r == password_verifies(password@, self.password_hash@),
    {
        check_password(password, self.password_hash.as_str())
    }
}

} // verus!
