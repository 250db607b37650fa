//! The user model: a validated `Username` (length and leading lowercase
//! letter), a `Password` kept only in hashed form, and the `User` aggregate,
//! together with the decoder used when a user row comes back from storage.

use vstd::prelude::*;
use vstd::string::StrSliceExecFns;

use crate::text::{char_is_lowercase, char_is_uppercase, lowercase_char, uppercase_char};

verus! {

pub const MIN_USERNAME_SIZE: usize = 6;

pub const MIN_PASSWORD_SIZE: usize = 8;

/// Validation failure of a whole user: one of its two fields was rejected.
#[derive(Debug, PartialEq)]
pub enum UserError {
    PasswordValidation(PasswordError),
    UsernameValidation(UsernameError),
}

/// Why a raw password was rejected, or that hashing it failed.
#[derive(Debug, PartialEq)]
pub enum PasswordError {
    /// The hashing routine itself failed (its salt comes from the OS).
    PasswordHash,
    /// Shorter than `MIN_PASSWORD_SIZE` characters.
    PasswordSize,
    NoDigit,
    NoSpecialChar,
    NoUppercaseLetter,
}

/// Why a raw username was rejected.
#[derive(Debug, PartialEq)]
pub enum UsernameError {
    /// Shorter than `MIN_USERNAME_SIZE` characters.
    UsernameSize,
    DoesntStartWithLowercaseLetter,
}

/// An ASCII decimal digit.
pub open spec fn digit_char(c: char) -> bool {
    '0' <= c && c <= '9'
}

/// The fixed set of special characters a password must draw from.
pub open spec fn special_char(c: char) -> bool {
    ||| c == '!'
    ||| c == '@'
    ||| c == '#'
    ||| c == '$'
    ||| c == '%'
    ||| c == '^'
    ||| c == '&'
    ||| c == '*'
    ||| c == '('
    ||| c == ')'
    ||| c == '.'
    ||| c == ','
    ||| c == ':'
    ||| c == ';'
    ||| c == ' '
}

/// A valid username: at least `MIN_USERNAME_SIZE` characters, starting with
/// a lowercase letter.
pub open spec fn username_ok(s: Seq<char>) -> bool {
    s.len() >= MIN_USERNAME_SIZE && lowercase_char(s[0])
}

pub open spec fn has_digit(s: Seq<char>) -> bool {
    exists|i: int| 0 <= i < s.len() && digit_char(#[trigger] s[i])
}

pub open spec fn has_special_char(s: Seq<char>) -> bool {
    exists|i: int| 0 <= i < s.len() && special_char(#[trigger] s[i])
}

pub open spec fn has_uppercase(s: Seq<char>) -> bool {
    exists|i: int| 0 <= i < s.len() && uppercase_char(#[trigger] s[i])
}

/// A valid raw password: long enough and holding at least one digit, one
/// special character and one uppercase letter.
pub open spec fn password_ok(s: Seq<char>) -> bool {
    s.len() >= MIN_PASSWORD_SIZE && has_digit(s) && has_special_char(s) && has_uppercase(s)
}

/// A validated username.
#[derive(Debug, PartialEq)]
pub struct Username(String);

/// A password in hashed form; the plaintext is gone once this exists.
#[derive(Debug, PartialEq)]
pub struct Password(String);

impl View for Username {
    type V = Seq<char>;

    closed spec fn view(&self) -> Seq<char> {
        self.0@
    }
}

impl View for Password {
    type V = Seq<char>;

    closed spec fn view(&self) -> Seq<char> {
        self.0@
    }
}

/// A user: a validated username and the hash of a validated password.
#[derive(Debug, PartialEq)]
pub struct User {
    pub username: Username,
    pub hashed_password: Password,
}

impl Username {
    /// Validate a raw username: at least `MIN_USERNAME_SIZE` characters and
    /// a lowercase first letter, each failure reported by its own error.
    pub fn new(username: &str) -> (r: Result<Username, UsernameError>)
        ensures
            username@.len() < MIN_USERNAME_SIZE ==> r == Err::<Username, UsernameError>(
                UsernameError::UsernameSize,
            ),
            username@.len() >= MIN_USERNAME_SIZE && !lowercase_char(username@[0]) ==> r == Err::<
                Username,
                UsernameError,
            >(UsernameError::DoesntStartWithLowercaseLetter),
            username_ok(username@) ==> (r matches Ok(u) && u@ == username@),
            r is Ok <==> username_ok(username@),
    {
        if username.unicode_len() < MIN_USERNAME_SIZE {
            return Err(UsernameError::UsernameSize);
        }

        let first = username.get_char(0);
        if !char_is_lowercase(first) {
            return Err(UsernameError::DoesntStartWithLowercaseLetter);
        }

        Ok(Username(username.to_owned()))
    }

    pub fn get_username(&self) -> (r: String)
        ensures
            r@ == self@,
    {
        self.0.clone()
    }
}

/// Whether the character belongs to the password's special-character set.
fn is_special_char(c: char) -> (r: bool)
    ensures
        r == special_char(c),
{
    match c {
        '!' | '@' | '#' | '$' | '%' | '^' | '&' | '*' | '(' | ')' | '.' | ',' | ':' | ';'
        | ' ' => true,
        _ => false,
    }
}

/// Whether the character is an ASCII decimal digit.
fn is_digit_char(c: char) -> (r: bool)
    ensures
        r == digit_char(c),
{
    '0' <= c && c <= '9'
}

#[verifier::external_type_specification]
#[verifier::external_body]
pub struct ExBcryptError(bcrypt::BcryptError);

/// What `bcrypt::verify` reports for a password against a stored hash. The
/// outcome is recomputed from the cost and salt the hash itself carries, so
/// it depends on the two arguments alone; the mapping behind it is the
/// bcrypt key derivation, left uninterpreted.
pub uninterp spec fn bcrypt_verifies(password: Seq<char>, hash: Seq<char>) -> bool;

/// Whether bcrypt's hash parser (`split_hash`, plus the allowed cost
/// range) accepts the stored form — a property of the hash alone, and
/// exactly the condition under which verification returns an answer at
/// all: the password cannot make it fail.
pub uninterp spec fn bcrypt_parses(hash: Seq<char>) -> bool;

/// Relies on `bcrypt::hash` at the crate's default cost: on success the
/// result is the 60-character bcrypt hash string, `$`-prefixed, in the
/// exact format the crate's own parser accepts — and, since verification
/// re-derives cost and salt from the hash and recomputes, the password it
/// was made from verifies against it. The salt is drawn from the OS on
/// each call, so nothing further relates the hash to the password; hashing
/// fails only if that randomness cannot be obtained.
#[verifier::external_body]
fn bcrypt_hash(password: &str) -> (r: Result<String, bcrypt::BcryptError>)
    ensures
        r matches Ok(h) ==> h@.len() == 60 && h@[0] == '$' && bcrypt_parses(h@)
            && bcrypt_verifies(password@, h@),
{
    bcrypt::hash(password, bcrypt::DEFAULT_COST)
}

/// Relies on `bcrypt::verify`: deterministic in the password and the
/// stored hash (cost and salt are re-read from the hash), and it returns
/// an answer exactly when the hash parses — the password cannot make it
/// fail.
#[verifier::external_body]
fn bcrypt_verify(password: &str, hash: &str) -> (r: Result<bool, bcrypt::BcryptError>)
    ensures
        r is Ok <==> bcrypt_parses(hash@),
        r matches Ok(b) ==> b == bcrypt_verifies(password@, hash@),
{
    bcrypt::verify(password, hash)
}

impl Password {
    /// Validate a raw password and hash it. Failures come in the order the
    /// checks run: size, digit, special character, uppercase letter; a
    /// password passing all four is hashed, and only the hash is kept, never
    /// equal to a plaintext of any other length.
    pub fn new(password: &str) -> (r: Result<Password, PasswordError>)
        ensures
            password@.len() < MIN_PASSWORD_SIZE ==> r == Err::<Password, PasswordError>(
                PasswordError::PasswordSize,
            ),
            password@.len() >= MIN_PASSWORD_SIZE && !has_digit(password@) ==> r == Err::<
                Password,
                PasswordError,
            >(PasswordError::NoDigit),
            password@.len() >= MIN_PASSWORD_SIZE && has_digit(password@) && !has_special_char(
                password@,
            ) ==> r == Err::<Password, PasswordError>(PasswordError::NoSpecialChar),
            password@.len() >= MIN_PASSWORD_SIZE && has_digit(password@) && has_special_char(
                password@,
            ) && !has_uppercase(password@) ==> r == Err::<Password, PasswordError>(
                PasswordError::NoUppercaseLetter,
            ),
            password_ok(password@) ==> r is Ok || r == Err::<Password, PasswordError>(
                PasswordError::PasswordHash,
            ),
            r is Ok ==> password_ok(password@),
            r matches Ok(p) ==> p@.len() == 60 && p@[0] == '$' && bcrypt_parses(p@)
                && bcrypt_verifies(password@, p@) && (password@.len() != 60 ==> p@ != password@),
    {
        let n = password.unicode_len();
        if n < MIN_PASSWORD_SIZE {
            return Err(PasswordError::PasswordSize);
        }

        let mut contains_special_char = false;
        let mut contains_uppercase_letter = false;
        let mut contains_digit = false;

        let mut i: usize = 0;
        while i < n
            invariant
                n == password@.len(),
                i <= n,
                contains_digit == exists|j: int|
                    0 <= j < i && digit_char(#[trigger] password@[j]),
                contains_special_char == exists|j: int|
                    0 <= j < i && special_char(#[trigger] password@[j]),
                contains_uppercase_letter == exists|j: int|
                    0 <= j < i && uppercase_char(#[trigger] password@[j]),
            decreases n - i,
        {
            let ch = password.get_char(i);
            if is_special_char(ch) {
                contains_special_char = true;
            }
            if char_is_uppercase(ch) {
                contains_uppercase_letter = true;
            }
            if is_digit_char(ch) {
                contains_digit = true;
            }
            i = i + 1;
        }

        if !contains_digit {
            return Err(PasswordError::NoDigit);
        }
        if !contains_special_char {
            return Err(PasswordError::NoSpecialChar);
        }
        if !contains_uppercase_letter {
            return Err(PasswordError::NoUppercaseLetter);
        }

        match bcrypt_hash(password) {
            Ok(hashed_password) => Ok(Password(hashed_password)),
            Err(_) => Err(PasswordError::PasswordHash),
        }
    }

    /// Check a plaintext against the stored hash: an answer comes back
    /// exactly when the stored form parses as a bcrypt hash — always, for
    /// a hash this type made itself — and it is true exactly when bcrypt
    /// accepts the plaintext. A stored form that does not parse (possible
    /// through `from_hashed`) is the hash fault.
    pub fn verify(&self, password: &str) -> (r: Result<bool, PasswordError>)
        ensures
            r is Ok <==> bcrypt_parses(self@),
            r matches Ok(b) ==> b == bcrypt_verifies(password@, self@),
            r is Err ==> r == Err::<bool, PasswordError>(PasswordError::PasswordHash),
    {
        match bcrypt_verify(password, self.0.as_str()) {
            Ok(b) => Ok(b),
            Err(_) => Err(PasswordError::PasswordHash),
        }
    }

    /// Wrap an already hashed password as it comes back from storage; it is
    /// never re-hashed.
    pub fn from_hashed(pass: &str) -> (r: Password)
        ensures
            r@ == pass@,
    {
        Password(pass.to_owned())
    }

    pub fn get_password(&self) -> (r: String)
        ensures
            r@ == self@,
    {
        self.0.clone()
    }
}

impl User {
    /// Validate both fields and hash the password; the username is checked
    /// first, as its error says.
    pub fn new(username: &str, password: &str) -> (r: Result<User, UserError>)
        ensures
            !username_ok(username@) ==> (r matches Err(UserError::UsernameValidation(e))
                && Username::new_failure(username@) == Some(e)),
            username_ok(username@) && !(password_ok(password@)) ==> (r matches Err(
                UserError::PasswordValidation(e),
            ) && Password::new_failure(password@) == Some(e)),
            r matches Ok(u) ==> username_ok(username@) && password_ok(password@) && u.username@
                == username@ && u.hashed_password@.len() == 60 && bcrypt_parses(
                u.hashed_password@,
            ) && bcrypt_verifies(password@, u.hashed_password@),
            username_ok(username@) && password_ok(password@) ==> r is Ok || r == Err::<
                User,
                UserError,
            >(UserError::PasswordValidation(PasswordError::PasswordHash)),
    {
        let username = match Username::new(username) {
            Ok(u) => u,
            Err(e) => {
                return Err(UserError::UsernameValidation(e));
            },
        };
        let hashed_password = match Password::new(password) {
            Ok(p) => p,
            Err(e) => {
                return Err(UserError::PasswordValidation(e));
            },
        };

        Ok(User { username, hashed_password })
    }

    /// Decode a `users` row from its raw columns: the stored username goes
    /// through the same validation as at creation time, so data written
    /// under older rules cannot come back silently; the stored hash is
    /// wrapped without re-hashing.
    pub fn from_columns(username: &str, password: &str) -> (r: Result<User, UsernameError>)
        ensures
            username_ok(username@) ==> (r matches Ok(u) && u.username@ == username@
                && u.hashed_password@ == password@),
            !username_ok(username@) ==> (r matches Err(e) && Username::new_failure(username@)
                == Some(e)),
    {
        let username = match Username::new(username) {
            Ok(u) => u,
            Err(e) => {
                return Err(e);
            },
        };
        let hashed_password = Password::from_hashed(password);

        Ok(User { username, hashed_password })
    }
}

impl Username {
    /// The error `Username::new` reports for an invalid raw username, `None`
    /// for a valid one.
    pub open spec fn new_failure(s: Seq<char>) -> Option<UsernameError> {
        if s.len() < MIN_USERNAME_SIZE {
            Some(UsernameError::UsernameSize)
        } else if !lowercase_char(s[0]) {
            Some(UsernameError::DoesntStartWithLowercaseLetter)
        } else {
            None
        }
    }
}

impl Password {
    /// The validation error `Password::new` reports for an invalid raw
    /// password, `None` for a valid one.
    pub open spec fn new_failure(s: Seq<char>) -> Option<PasswordError> {
        if s.len() < MIN_PASSWORD_SIZE {
            Some(PasswordError::PasswordSize)
        } else if !has_digit(s) {
            Some(PasswordError::NoDigit)
        } else if !has_special_char(s) {
            Some(PasswordError::NoSpecialChar)
        } else if !has_uppercase(s) {
            Some(PasswordError::NoUppercaseLetter)
        } else {
            None
        }
    }
}

} // verus!
