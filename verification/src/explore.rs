//! The decisions of the module explorer that can be made without touching
//! files: reading the input module and whether to keep the compiler's
//! intermediate code.
use vstd::prelude::*;
use vstd::utf8::valid_utf8;

verus! {

/// Whether `bytes` begin with the magic number of a binary module.
pub open spec fn has_wasm_magic(bytes: Seq<u8>) -> bool {
    bytes.len() >= 4 && bytes[0] == 0u8 && bytes[1] == 0x61u8 && bytes[2] == 0x73u8 && bytes[3]
        == 0x6du8
}

/// `wat::parse_bytes`: a binary module is taken as it is; other input that
/// is not valid UTF-8 is refused. Nothing is stated of what becomes of other
/// text, which is turned into a module as `wat::parse_str` does.
#[verifier::external_body]
pub(crate) fn wat_parse_bytes(bytes: &[u8]) -> (r: Result<Vec<u8>, wat::Error>)
    ensures
        has_wasm_magic(bytes@) ==> r is Ok,
        r matches Ok(b) ==> (has_wasm_magic(bytes@) ==> b@ == bytes@),
        !has_wasm_magic(bytes@) && !valid_utf8(bytes@) ==> r is Err,
{
    match wat::parse_bytes(bytes) {
        Ok(module) => Ok(module.into_owned()),
        Err(e) => Err(e),
    }
}

/// Whether `r` is an outcome that `wat::parse_bytes` can give for `bytes`.
pub closed spec fn parses_bytes_to(bytes: &[u8], r: Result<Vec<u8>, wat::Error>) -> bool {
    call_ensures(wat_parse_bytes, (bytes,), r)
}

/// The binary module that the explorer works on, from the bytes of its
/// input file: a binary module as it is, or a text turned into one; input
/// that is neither binary nor UTF-8 is refused.
pub fn module_binary(bytes: &[u8]) -> (r: Result<Vec<u8>, wat::Error>)
    ensures
        has_wasm_magic(bytes@) ==> (r matches Ok(b) && b@ == bytes@),
        !has_wasm_magic(bytes@) && !valid_utf8(bytes@) ==> r is Err,
        parses_bytes_to(bytes, r),
{
    let r = wat_parse_bytes(bytes);
    assert(parses_bytes_to(bytes, r));
    r
}

/// The code generator a configuration asks for.
#[derive(Debug, Clone, Copy, PartialEq, Eq, Structural)]
pub enum Strategy {
    /// Let the engine choose.
    Auto,
    /// The optimizing compiler.
    Cranelift,
    /// The baseline compiler.
    Winch,
}

/// Whether the explorer keeps the optimizing compiler's intermediate code:
/// when that compiler is asked for, or none is.
pub fn emits_clif(compiler: Option<Strategy>) -> (b: bool)
    ensures
        b == (compiler == Some(Strategy::Cranelift) || compiler is None),
{
    match compiler {
        Some(Strategy::Cranelift) | None => true,
        _ => false,
    }
}

} // verus!
