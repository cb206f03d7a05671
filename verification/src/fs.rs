//! What is read from files, once it is in memory.

use vstd::prelude::*;
use vstd::utf8::{decode_utf8, valid_utf8};

verus! {

/// `std::string::FromUtf8Error`, the error of `String::from_utf8`. It is
/// carried through and never looked into.
#[verifier::external_type_specification]
#[verifier::external_body]
pub struct ExFromUtf8Error(std::string::FromUtf8Error);

/// Why a file did not yield what was asked of it.
#[derive(Debug, Clone, Copy, PartialEq, Eq, Structural)]
pub enum FileError {
    /// The file could not be read.
    Engine,
    /// The file does not hold text.
    String,
}

/// Calls `String::from_utf8`.
///
/// Believed without proof, as the documentation of the standard library
/// has it: the call succeeds exactly on valid UTF-8, and the string then
/// holds the characters that the bytes encode.
#[verifier::external_body]
fn string_from_utf8(bytes: Vec<u8>) -> (result: Result<String, std::string::FromUtf8Error>)
    ensures
        result is Ok <==> valid_utf8(bytes@),
        result matches Ok(string) ==> string@ == decode_utf8(bytes@),
{
    String::from_utf8(bytes)
}

/// Turns the outcome of reading a file into text: bytes that are valid
/// UTF-8 become the string they encode, other bytes are refused, and a
/// failure to read is passed on.
pub fn read_to_string(read: Result<Vec<u8>, FileError>) -> (result: Result<String, FileError>)
    ensures
        match read {
            Ok(bytes) => if valid_utf8(bytes@) {
                result matches Ok(string) && string@ == decode_utf8(bytes@)
            } else {
                result == Err::<String, FileError>(FileError::String)
            },
            Err(error) => result == Err::<String, FileError>(error),
        },
{
    match read {
        Ok(bytes) => match string_from_utf8(bytes) {
            Ok(string) => Ok(string),
            Err(_) => Err(FileError::String),
        },
        Err(error) => Err(error),
    }
}

} // verus!
