//! What the executor reads from its user.

use crate::text::chars::{chars_of, trim, trimmed};
use vstd::prelude::*;
use vstd::string::*;

verus! {

/// Why a text is no API key.
#[derive(Debug, Clone, Copy, PartialEq, Eq, Structural)]
pub enum ApiKeyError {
    /// The key is empty.
    Empty,
    /// The key does not have 36 characters.
    InvalidLength,
    /// The key holds a character other than a letter, a digit or a hyphen.
    InvalidCharacter,
}

impl ApiKeyError {
    /// A sentence that describes the failure.
    pub fn message(&self) -> (text: &'static str)
        ensures
            text@ == match *self {
                ApiKeyError::Empty => "Provided API key is empty"@,
                ApiKeyError::InvalidLength => "Length of provided API key is invalid"@,
                ApiKeyError::InvalidCharacter =>
                    "Proper API keys may only contain alphanumeric characters and '-'"@,
            },
    {
        match self {
            ApiKeyError::Empty => "Provided API key is empty",
            ApiKeyError::InvalidLength => "Length of provided API key is invalid",
            ApiKeyError::InvalidCharacter => {
                "Proper API keys may only contain alphanumeric characters and '-'"
            },
        }
    }
}

/// Whether a character may stand in an API key: an ASCII letter, a digit or
/// a hyphen.
pub open spec fn is_key_char(c: char) -> bool {
    ('0' <= c && c <= '9') || ('a' <= c && c <= 'z') || ('A' <= c && c <= 'Z') || c == '-'
}

/// Whether every character of a text may stand in an API key.
pub open spec fn all_key_chars(text: Seq<char>) -> bool {
    forall|i: int| 0 <= i < text.len() ==> is_key_char(#[trigger] text[i])
}

/// The length of a text's UTF-8 encoding, as a text of the machine has it.
pub open spec fn encoded_length(text: Seq<char>) -> usize {
    vstd::utf8::encode_utf8(text).len() as usize
}

/// What is wrong with a key, if anything. White space around the key does
/// not count. The length is that of the key's UTF-8 encoding, and is judged
/// before the characters are.
pub open spec fn key_fault(api_key: Seq<char>) -> Option<ApiKeyError> {
    let key = trimmed(api_key);
    if key.len() == 0 {
        Some(ApiKeyError::Empty)
    } else if encoded_length(key) != 36 {
        Some(ApiKeyError::InvalidLength)
    } else if !all_key_chars(key) {
        Some(ApiKeyError::InvalidCharacter)
    } else {
        None
    }
}

/// Checks a text that was entered as an API key.
pub fn validate_api_key(api_key: &String) -> (outcome: Result<(), ApiKeyError>)
    ensures
        outcome == match key_fault(api_key@) {
            Some(fault) => Err::<(), ApiKeyError>(fault),
            None => Ok::<(), ApiKeyError>(()),
        },
{
    let trimmed_key = trim(api_key.as_str());
    if trimmed_key.unicode_len() == 0 {
        return Err(ApiKeyError::Empty);
    }
    if trimmed_key.len() != 36 {
        return Err(ApiKeyError::InvalidLength);
    }
    let chars = chars_of(trimmed_key);
    let mut i: usize = 0;
    while i < chars.len()
        invariant
            0 <= i <= chars.len(),
            chars@ == trimmed_key@,
            trimmed_key@ == trimmed(api_key@),
            trimmed_key@.len() > 0,
            encoded_length(trimmed_key@) == 36,
            forall|k: int| 0 <= k < i ==> is_key_char(#[trigger] chars@[k]),
        decreases chars.len() - i,
    {
        let c = chars[i];
        let allowed = (c >= '0' && c <= '9') || (c >= 'a' && c <= 'z') || (c >= 'A' && c <= 'Z')
            || c == '-';
        if !allowed {
            assert(!is_key_char(trimmed(api_key@)[i as int]));
            return Err(ApiKeyError::InvalidCharacter);
        }
        i = i + 1;
    }
    Ok(())
}

/// The key as it is used: the text that was entered, without the white
/// space around it.
pub fn entered_api_key(api_key: &String) -> (key: String)
    ensures
        key@ == trimmed(api_key@),
{
    String::from_str(trim(api_key.as_str()))
}

} // verus!
