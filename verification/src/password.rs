//! Passwords for managed users: what a password has to look like, and the
//! random generator that makes one.

use passwords::PasswordGenerator;
use vstd::pervasive::unreached;
use vstd::prelude::*;

use crate::PASSWORD_LENGTH;

verus! {

/// What a generated password has to look like.
#[derive(Clone, Copy, Debug, PartialEq, Eq, Structural)]
pub struct PasswordPolicy {
    /// How many characters a password has.
    pub length: usize,
    /// Digits may occur; under `strict`, one must.
    pub numbers: bool,
    /// Lowercase letters may occur; under `strict`, one must.
    pub lowercase_letters: bool,
    /// Uppercase letters may occur; under `strict`, one must.
    pub uppercase_letters: bool,
    /// Punctuation may occur; under `strict`, one must.
    pub symbols: bool,
    /// Spaces may occur; under `strict`, one must.
    pub spaces: bool,
    /// Characters that are easily taken for another do not occur.
    pub exclude_similar_characters: bool,
    /// Every kind of character that may occur does occur.
    pub strict: bool,
}

pub open spec fn is_digit(c: char) -> bool {
    '0' <= c <= '9'
}

pub open spec fn is_lowercase_letter(c: char) -> bool {
    'a' <= c <= 'z'
}

pub open spec fn is_uppercase_letter(c: char) -> bool {
    'A' <= c <= 'Z'
}

/// ASCII punctuation: every printable ASCII character that is no digit, no
/// letter and no space.
pub open spec fn is_symbol(c: char) -> bool {
    '!' <= c <= '/' || ':' <= c <= '@' || '[' <= c <= '`' || '{' <= c <= '~'
}

/// The characters that are easily taken for another.
pub open spec fn is_similar(c: char) -> bool {
    c == 'i' || c == 'I' || c == '1' || c == 'l' || c == 'o' || c == 'O' || c == '0' || c == '"'
        || c == '\'' || c == '`' || c == '|'
}

/// Whether `c` may occur in a password under `policy`.
pub open spec fn policy_allows(policy: PasswordPolicy, c: char) -> bool {
    &&& (policy.numbers && is_digit(c)) || (policy.lowercase_letters && is_lowercase_letter(c))
        || (policy.uppercase_letters && is_uppercase_letter(c)) || (policy.symbols && is_symbol(c))
        || (policy.spaces && c == ' ')
    &&& !(policy.exclude_similar_characters && is_similar(c))
}

/// How many kinds of character `policy` lets occur.
pub open spec fn kinds_enabled(policy: PasswordPolicy) -> int {
    (if policy.numbers { 1int } else { 0 }) + (if policy.lowercase_letters { 1int } else { 0 })
        + (if policy.uppercase_letters { 1int } else { 0 }) + (if policy.symbols { 1int } else { 0 })
        + (if policy.spaces { 1int } else { 0 })
}

/// Whether any password can meet `policy`: it has a length, lets some kind
/// of character occur and, if strict, has room for one of each kind.
pub open spec fn policy_is_usable(policy: PasswordPolicy) -> bool {
    &&& policy.length > 0
    &&& kinds_enabled(policy) > 0
    &&& policy.strict ==> policy.length >= kinds_enabled(policy)
}

/// Whether `password` meets `policy`.
pub open spec fn meets_policy(policy: PasswordPolicy, password: Seq<char>) -> bool {
    &&& password.len() == policy.length
    &&& forall|i: int| 0 <= i < password.len() ==> policy_allows(policy, #[trigger] password[i])
    &&& policy.strict ==> {
        &&& policy.numbers ==> exists|i: int|
            0 <= i < password.len() && is_digit(#[trigger] password[i])
        &&& policy.lowercase_letters ==> exists|i: int|
            0 <= i < password.len() && is_lowercase_letter(#[trigger] password[i])
        &&& policy.uppercase_letters ==> exists|i: int|
            0 <= i < password.len() && is_uppercase_letter(#[trigger] password[i])
        &&& policy.symbols ==> exists|i: int|
            0 <= i < password.len() && is_symbol(#[trigger] password[i])
        &&& policy.spaces ==> exists|i: int| 0 <= i < password.len() && #[trigger] password[i] == ' '
    }
}

/// The policy for the password of a managed user: 24 characters, digits and
/// letters of both cases, at least one of each, nothing else.
pub open spec fn managed_policy() -> PasswordPolicy {
    PasswordPolicy {
        length: PASSWORD_LENGTH,
        numbers: true,
        lowercase_letters: true,
        uppercase_letters: true,
        symbols: false,
        spaces: false,
        exclude_similar_characters: false,
        strict: true,
    }
}

/// Whether `password` is one that [`generate_password`] can return.
pub open spec fn is_generated_password(password: Seq<char>) -> bool {
    meets_policy(managed_policy(), password)
}

/// `passwords::PasswordGenerator::generate_one`, on a generator with the
/// fields of `policy`. Trusted: the generator refuses a policy exactly when
/// it has length 0, lets no kind of character occur, or is strict and shorter
/// than the number of kinds; otherwise it draws `length` characters from the
/// kinds that may occur and, if strict, draws again until each kind occurs.
/// Nothing more is claimed of the random outcome.
#[verifier::external_body]
fn generate_one(policy: &PasswordPolicy) -> (r: Result<String, &'static str>)
    ensures
        r is Ok <==> policy_is_usable(*policy),
        r matches Ok(password) ==> meets_policy(*policy, password@),
{
    let generator = PasswordGenerator {
        length: policy.length,
        numbers: policy.numbers,
        lowercase_letters: policy.lowercase_letters,
        uppercase_letters: policy.uppercase_letters,
        symbols: policy.symbols,
        spaces: policy.spaces,
        exclude_similar_characters: policy.exclude_similar_characters,
        strict: policy.strict,
    };
    generator.generate_one()
}

/// The policy for the password of a managed user.
pub fn password_policy() -> (r: PasswordPolicy)
    ensures
        r == managed_policy(),
{
    PasswordPolicy {
        length: PASSWORD_LENGTH,
        numbers: true,
        lowercase_letters: true,
        uppercase_letters: true,
        symbols: false,
        spaces: false,
        exclude_similar_characters: false,
        strict: true,
    }
}

/// A fresh random password for a managed user.
pub fn generate_password() -> (r: String)
    ensures
        is_generated_password(r@),
{
    let policy = password_policy();
    match generate_one(&policy) {
        Ok(password) => password,
        Err(_) => unreached(),
    }
}

} // verus!
