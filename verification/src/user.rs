//! A chat user: a name, an optional nickname and an Ed25519 signing key.
//! Names and nicknames must start with three ASCII letters.
use vstd::prelude::*;
use vstd::utf8::encode_utf8;

use crate::crypto::{generate_key_pair, is_ed25519_key_pair, Algorithm, KeyPair, KeyPairView};

verus! {

/// Why a user could not be created.
#[derive(Debug, PartialEq, Eq, Structural)]
pub enum UserErrors {
    InvalidName,
    InvalidNickname,
}

/// The human-readable text of each error.
pub open spec fn user_error_text(e: UserErrors) -> Seq<char> {
    match e {
        UserErrors::InvalidName => "Invalid user name, it must start with 3 alphabitic letters at least."@,
        UserErrors::InvalidNickname => "Invalid nickname, it must start with 3 alphabitic letters at least."@,
    }
}

impl UserErrors {
    /// The human-readable text of this error.
    pub fn description(&self) -> (s: &'static str)
        ensures
            s@ == user_error_text(*self),
    {
        match self {
            UserErrors::InvalidName => "Invalid user name, it must start with 3 alphabitic letters at least.",
            UserErrors::InvalidNickname => "Invalid nickname, it must start with 3 alphabitic letters at least.",
        }
    }
}

/// An ASCII letter, `A` to `Z` or `a` to `z`.
pub open spec fn is_ascii_letter(b: u8) -> bool {
    (65 <= b <= 90) || (97 <= b <= 122)
}

/// The code of the `i`-th letter of the alphabet (counting from 0), in
/// upper or in lower case.
pub open spec fn alphabet_letter(i: int, upper: bool) -> int {
    if upper {
        'A' as int + i
    } else {
        'a' as int + i
    }
}

/// The ASCII letters are the 26 letters of the alphabet, in upper and in
/// lower case, and nothing else.
pub proof fn lemma_ascii_letters_are_the_alphabet(b: u8)
    ensures
        is_ascii_letter(b) <==> exists|i: int, upper: bool|
            0 <= i < 26 && b == #[trigger] alphabet_letter(i, upper),
{
    if is_ascii_letter(b) {
        if b <= 90 {
            assert(0 <= b - 65 < 26 && b == alphabet_letter(b - 65, true));
        } else {
            assert(0 <= b - 97 < 26 && b == alphabet_letter(b - 97, false));
        }
    }
}

/// The UTF-8 bytes of a name start with three ASCII letters.
pub open spec fn starts_with_three_letters(bytes: Seq<u8>) -> bool {
    &&& bytes.len() >= 3
    &&& is_ascii_letter(bytes[0])
    &&& is_ascii_letter(bytes[1])
    &&& is_ascii_letter(bytes[2])
}

fn is_ascii_letter_byte(b: u8) -> (r: bool)
    ensures
        r == is_ascii_letter(b),
{
    (65 <= b && b <= 90) || (97 <= b && b <= 122)
}

/// Whether a name starts with three ASCII letters.
fn has_letter_prefix(s: &String) -> (r: bool)
    ensures
        r == starts_with_three_letters(encode_utf8(s@)),
{
    let bytes = s.as_str().as_bytes();
    bytes.len() >= 3 && is_ascii_letter_byte(bytes[0]) && is_ascii_letter_byte(bytes[1])
        && is_ascii_letter_byte(bytes[2])
}

/// The text of an optional string.
pub open spec fn optional_text(s: Option<String>) -> Option<Seq<char>> {
    match s {
        Some(t) => Some(t@),
        None => None,
    }
}

/// What a user holds.
pub struct UserView {
    pub name: Seq<char>,
    pub nickname: Option<Seq<char>>,
    pub signing_key: KeyPairView,
}

/// A chat user.
#[derive(Debug, PartialEq)]
pub struct User {
    name: String,
    nickname: Option<String>,
    signing_key: KeyPair,
}

impl User {
    pub closed spec fn view(&self) -> UserView {
        UserView {
            name: self.name@,
            nickname: optional_text(self.nickname),
            signing_key: self.signing_key.view(),
        }
    }

    /// A user with a fresh Ed25519 signing key. The name, then the nickname
    /// if there is one, must start with three ASCII letters: its first three
    /// bytes are read, so a character that straddles the third byte makes it
    /// invalid.
    pub fn new(name: String, nickname: Option<String>) -> (r: Result<Self, UserErrors>)
        ensures
            !starts_with_three_letters(encode_utf8(name@)) ==> r == Err::<Self, UserErrors>(
                UserErrors::InvalidName,
            ),
            starts_with_three_letters(encode_utf8(name@)) && (nickname matches Some(n)
                && !starts_with_three_letters(encode_utf8(n@))) ==> r == Err::<Self, UserErrors>(
                UserErrors::InvalidNickname,
            ),
            starts_with_three_letters(encode_utf8(name@)) && (nickname matches Some(n)
                ==> starts_with_three_letters(encode_utf8(n@))) ==> (r matches Ok(u) && u.view().name
                == name@ && u.view().nickname == optional_text(nickname) && is_ed25519_key_pair(
                u.view().signing_key,
            )),
    {
        if !has_letter_prefix(&name) {
            return Err(UserErrors::InvalidName);
        }
        if let Some(nick) = &nickname {
            if !has_letter_prefix(nick) {
                return Err(UserErrors::InvalidNickname);
            }
        }
        let signing_key = generate_key_pair(Algorithm::Ed25519);
        Ok(Self { name, nickname, signing_key })
    }
}

} // verus!
