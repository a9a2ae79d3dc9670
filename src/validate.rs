//! Checks on operator input, made before anything touches the device.

use vstd::prelude::*;
use crate::text::{contains_text, has_substring};

verus! {

/// What compiling `pattern` with the regex crate and searching `haystack` with
/// it gives: `None` where the pattern does not compile, else whether a match
/// was found.
pub uninterp spec fn regex_search(pattern: Seq<char>, haystack: Seq<char>) -> Option<bool>;

/// Relies on `regex::Regex::new` to compile `pattern` (an `Err` for a pattern
/// that is invalid or over the default size limit) and on `Regex::is_match`
/// to report whether the compiled pattern matches anywhere in `haystack`.
#[verifier::external_body]
fn regex_is_match(pattern: &str, haystack: &str) -> (r: Option<bool>)
    ensures
        r == regex_search(pattern@, haystack@),
{
    match regex::Regex::new(pattern) {
        Ok(re) => Some(re.is_match(haystack)),
        Err(_) => None,
    }
}

/// Host names are one or more ASCII letters, digits, dots and hyphens.
pub const HOSTNAME_PATTERN: &'static str = "^[a-zA-Z0-9.-]+$";

/// The shortest root password accepted, in characters.
pub const MIN_PASSWORD_CHARS: usize = 4;

/// The text that every accepted storage device path holds.
pub const EMMC_DEVICE_MARK: &'static str = "mmcblk";

/// Whether `hostname` is accepted as a machine's name: the regex crate finds
/// [`HOSTNAME_PATTERN`] in it.
pub open spec fn hostname_ok(hostname: Seq<char>) -> bool {
    regex_search(HOSTNAME_PATTERN@, hostname) == Some(true)
}

/// Whether `hostname` matches [`HOSTNAME_PATTERN`] as the regex crate reads it.
pub fn is_valid_hostname(hostname: &str) -> (r: bool)
    ensures
        r == hostname_ok(hostname@),
{
    match regex_is_match(HOSTNAME_PATTERN, hostname) {
        Some(found) => found,
        None => false,
    }
}

#[derive(Debug, Clone, Copy, PartialEq, Eq, Structural)]
pub enum PasswordError {
    Empty,
    TooShort,
}

/// Accepts a root password of at least [`MIN_PASSWORD_CHARS`] characters.
pub fn validate_root_password(password: &str) -> (r: Result<(), PasswordError>)
    ensures
        r == Ok::<(), PasswordError>(()) <==> password@.len() >= MIN_PASSWORD_CHARS,
        r == Err::<(), PasswordError>(PasswordError::Empty) <==> password@.len() == 0,
        r == Err::<(), PasswordError>(PasswordError::TooShort) <==> 0 < password@.len() < MIN_PASSWORD_CHARS,
{
    let n = password.unicode_len();
    if n == 0 {
        Err(PasswordError::Empty)
    } else if n < MIN_PASSWORD_CHARS {
        Err(PasswordError::TooShort)
    } else {
        Ok(())
    }
}

/// Whether `path` names an eMMC block device (it holds [`EMMC_DEVICE_MARK`]).
pub fn is_emmc_device(path: &str) -> (r: bool)
    ensures
        r == has_substring(path@, EMMC_DEVICE_MARK@),
{
    contains_text(path, EMMC_DEVICE_MARK)
}

} // verus!
