//! Turning the WebAssembly text format into a binary module.
use vstd::prelude::*;
use vstd::utf8::{decode_utf8, valid_utf8};
use std::str::Utf8Error;

verus! {

/// The error `std::str::from_utf8` reports.
#[verifier::external_type_specification]
#[verifier::external_body]
pub struct ExUtf8Error(Utf8Error);

/// The error the `wat` crate reports for text it cannot turn into a module.
#[verifier::external_type_specification]
#[verifier::external_body]
pub struct ExWatError(wat::Error);

/// `std::str::from_utf8`: the text that `bytes` encode, where they are valid
/// UTF-8.
#[verifier::external_body]
pub(crate) fn str_from_utf8(bytes: &[u8]) -> (r: Result<&str, Utf8Error>)
    ensures
        r is Ok <==> valid_utf8(bytes@),
        r matches Ok(s) ==> s@ == decode_utf8(bytes@),
{
    std::str::from_utf8(bytes)
}

/// `wat::parse_str`: the binary module that a text describes, or the error
/// that stops it. Nothing is stated of the outcome: with the component model
/// enabled, whether some texts are accepted depends on the process's
/// environment, and a text may embed arbitrary binary contents.
#[verifier::external_body]
pub(crate) fn wat_parse_str(text: &str) -> (r: Result<Vec<u8>, wat::Error>) {
    wat::parse_str(text)
}

/// Whether `parsed` is an outcome that `wat::parse_str` can give for `text`.
pub closed spec fn parses_to(text: &str, parsed: Result<Vec<u8>, wat::Error>) -> bool {
    call_ensures(wat_parse_str, (text,), parsed)
}

/// Why text could not be turned into a binary module.
#[derive(Debug)]
pub enum Wat2WasmError {
    /// The input is not valid UTF-8.
    BadUtf8,
    /// The text is not a module the parser accepts.
    Parse(wat::Error),
}

/// The outcome of [`wat2wasm`] for the outcome of the parse of its text.
pub open spec fn wat2wasm_outcome(parsed: Result<Vec<u8>, wat::Error>) -> Result<
    Vec<u8>,
    Wat2WasmError,
> {
    match parsed {
        Ok(bytes) => Ok(bytes),
        Err(e) => Err(Wat2WasmError::Parse(e)),
    }
}

/// Carry the outcome of the parse of a text over into the outcome of
/// [`wat2wasm`].
pub fn finish_wat2wasm(parsed: Result<Vec<u8>, wat::Error>) -> (r: Result<Vec<u8>, Wat2WasmError>)
    ensures
        r == wat2wasm_outcome(parsed),
{
    match parsed {
        Ok(bytes) => Ok(bytes),
        Err(e) => Err(Wat2WasmError::Parse(e)),
    }
}

/// Turn the bytes of a WebAssembly text into a binary module.
pub fn wat2wasm(wat: &[u8]) -> (r: Result<Vec<u8>, Wat2WasmError>)
    ensures
        r matches Err(Wat2WasmError::BadUtf8) <==> !valid_utf8(wat@),
        valid_utf8(wat@) ==> exists|text: &str, parsed: Result<Vec<u8>, wat::Error>|
            text@ == decode_utf8(wat@) && parses_to(text, parsed) && r == wat2wasm_outcome(parsed),
{
    let text = match str_from_utf8(wat) {
        Ok(s) => s,
        Err(_) => return Err(Wat2WasmError::BadUtf8),
    };
    let parsed = wat_parse_str(text);
    let ghost outcome = parsed;
    let r = finish_wat2wasm(parsed);
    assert(parses_to(text, outcome) && r == wat2wasm_outcome(outcome));
    r
}

} // verus!
