use winch_stack::explore::{emits_clif, module_binary, Strategy};
use winch_stack::wat2wasm::{finish_wat2wasm, wat2wasm, Wat2WasmError};

const EMPTY_MODULE: &[u8] = b"\0asm\x01\0\0\0";

#[test]
fn wat2wasm_turns_text_into_a_module() {
    assert_eq!(EMPTY_MODULE.to_vec(), wat2wasm(b"(module)").unwrap());
}

#[test]
fn wat2wasm_refuses_bad_utf8() {
    assert!(matches!(wat2wasm(&[0x28, 0xff, 0x29]), Err(Wat2WasmError::BadUtf8)));
}

#[test]
fn wat2wasm_reports_parse_errors() {
    assert!(matches!(wat2wasm(b"module"), Err(Wat2WasmError::Parse(_))));
}

#[test]
fn finish_wat2wasm_carries_the_outcome() {
    assert_eq!(vec![1u8, 2, 3], finish_wat2wasm(Ok(vec![1, 2, 3])).unwrap());
    let err = wat::parse_str("module").unwrap_err();
    assert!(matches!(finish_wat2wasm(Err(err)), Err(Wat2WasmError::Parse(_))));
}

#[test]
fn module_binary_passes_binaries_through() {
    let binary = b"\0asm\x01\0\0\0\x00\x03abc".to_vec();
    assert_eq!(binary, module_binary(&binary).unwrap());
}

#[test]
fn module_binary_parses_text() {
    assert_eq!(EMPTY_MODULE.to_vec(), module_binary(b"(module)").unwrap());
    assert!(module_binary(b"module").is_err());
    assert!(module_binary(&[0xff, 0xfe]).is_err());
}

#[test]
fn clif_is_kept_for_the_optimizing_compiler() {
    assert!(emits_clif(None));
    assert!(emits_clif(Some(Strategy::Cranelift)));
    assert!(!emits_clif(Some(Strategy::Winch)));
    assert!(!emits_clif(Some(Strategy::Auto)));
}
