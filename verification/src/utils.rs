use vstd::prelude::*;
use vstd::arithmetic::power::pow;

use crate::error::{AuthError, AuthErrorView};
use crate::session::SessionUser;

verus! {

#[verifier::external_type_specification]
#[verifier::external_body]
pub struct ExCheckError(pbkdf2::CheckError);

/// Whether `pbkdf2::pbkdf2_check` accepts a password against a stored hash.
pub uninterp spec fn pbkdf2_accepts(password: Seq<char>, hashed: Seq<char>) -> bool;

/// The number of PBKDF2 rounds that new hashes are made with.
pub const HASH_ROUNDS: u32 = 32u32;

/// The digit of a value below 64 in the standard base64 alphabet.
pub open spec fn base64_digit(d: int) -> char {
    "ABCDEFGHIJKLMNOPQRSTUVWXYZabcdefghijklmnopqrstuvwxyz0123456789+/"@[d]
}

/// The padded standard base64 text of the four big-endian bytes of `c`: six digits for its
/// 32 bits followed by four zero bits, then two padding signs.
pub open spec fn base64_u32(c: u32) -> Seq<char> {
    Seq::new(6, |k: int| base64_digit((c * 16 / pow(64, (5 - k) as nat)) % 64)) + "=="@
}

/// How every hash made with `rounds` rounds begins: the format tag `$rpbkdf2$0$`, the base64
/// of the round count, and a `$` before the salt.
pub open spec fn rpbkdf2_prefix(rounds: u32) -> Seq<char> {
    "$rpbkdf2$0$"@ + base64_u32(rounds) + "$"@
}

/// Hashes a password with `pbkdf2::pbkdf2_simple` (PBKDF2-HMAC-SHA256 with a random salt drawn
/// from the operating system). The hash begins with the format tag and the round count it was
/// made with, and records its salt, so `pbkdf2_check` accepts the same password against it.
/// The salt and the derived key are random; the call fails only where no random salt can be
/// drawn, and when that happens is not stated.
#[verifier::external_body]
fn pbkdf2_simple(password: &str, rounds: u32) -> (hashed: Option<String>)
    ensures
        hashed matches Some(h) ==> pbkdf2_accepts(password@, h@) && rpbkdf2_prefix(rounds).is_prefix_of(h@),
{
    pbkdf2::pbkdf2_simple(password, rounds).ok()
}

/// Checks a password against a stored hash with `pbkdf2::pbkdf2_check`.
#[verifier::external_body]
fn pbkdf2_check(password: &str, hashed: &str) -> (r: Result<(), pbkdf2::CheckError>)
    ensures
        r is Ok <==> pbkdf2_accepts(password@, hashed@),
{
    pbkdf2::pbkdf2_check(password, hashed)
}

/// Hashes a password for storage with `HASH_ROUNDS` rounds; `verify` accepts the same password
/// against the hash.
pub fn hash_password(password: &str) -> (r: Result<String, AuthError>)
    ensures
        match r {
            Ok(h) => pbkdf2_accepts(password@, h@) && rpbkdf2_prefix(HASH_ROUNDS).is_prefix_of(h@),
            Err(e) => e@ == AuthErrorView::AuthenticationError("Could not hash password"@),
        },
{
    match pbkdf2_simple(password, HASH_ROUNDS) {
        Some(h) => Ok(h),
        None => Err(AuthError::AuthenticationError("Could not hash password".to_owned())),
    }
}

/// Checks a password against a stored hash.
pub fn verify(hash: &str, password: &str) -> (r: Result<(), AuthError>)
    ensures
        r is Ok <==> pbkdf2_accepts(password@, hash@),
        r matches Err(e) ==> e@ == AuthErrorView::AuthenticationError("Could not verify password"@),
{
    match pbkdf2_check(password, hash) {
        Ok(()) => Ok(()),
        Err(_) => Err(AuthError::AuthenticationError("Could not verify password".to_owned())),
    }
}

/// The error of a session that holds no readable user.
pub open spec fn no_session_user() -> AuthErrorView {
    AuthErrorView::AuthenticationError("Could not retrieve user from session"@)
}

/// The signed-in user, from what the session holds under "user": the user where it holds one
/// that reads back, else an authentication error.
pub fn get_current_user(stored: Option<SessionUser>) -> (r: Result<SessionUser, AuthError>)
    ensures
        match stored {
            Some(u) => r matches Ok(v) && v@ == u@,
            None => r matches Err(e) && e@ == no_session_user(),
        },
{
    match stored {
        Some(u) => Ok(u),
        None => Err(AuthError::AuthenticationError("Could not retrieve user from session".to_owned())),
    }
}

/// Whether the session holds a signed-in user.
pub fn is_signed_in(current: &Result<SessionUser, AuthError>) -> (r: bool)
    ensures
        r == current is Ok,
{
    match current {
        Ok(_) => true,
        _ => false,
    }
}

} // verus!
