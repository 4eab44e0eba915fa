use clang_rs_binding::compilation_database::CompilationDatabaseError;
use clang_rs_binding::index::ChildVisitResult;
use clang_rs_binding::utility::traits::{is_ffi_struct, is_small_value_enum, is_small_value_struct};
use clang_rs_binding::utility::{cxstring_into_string, is_nul_free, str_to_cstring};

#[test]
fn text_without_zero_byte_is_accepted() {
    assert!(is_nul_free("tests/artifacts/compiledb/build"));
    assert!(is_nul_free(""));
    assert!(is_nul_free("h\u{e9}llo"));
}

#[test]
fn text_with_zero_byte_is_refused() {
    assert!(!is_nul_free("\0"));
    assert!(!is_nul_free("main\0.cpp"));
    assert!(!is_nul_free("main.cpp\0"));
}

#[test]
fn native_text_ends_in_one_zero_byte() {
    assert_eq!(str_to_cstring("foo.ast"), b"foo.ast\0".to_vec());
    assert_eq!(str_to_cstring(""), vec![0u8]);
    assert_eq!(str_to_cstring("\u{e9}"), vec![0xc3u8, 0xa9, 0]);
}

#[test]
fn native_text_keeps_every_byte_in_place() {
    let bytes = str_to_cstring("-std=c++17");
    assert_eq!(bytes.len(), 11);
    assert_eq!(&bytes[..10], "-std=c++17".as_bytes());
    assert_eq!(bytes[10], 0);
}

#[test]
fn trait_checks_accept_the_value_types() {
    is_small_value_struct(&ChildVisitResult {});
    is_small_value_enum(&CompilationDatabaseError::CanNotLoadDatabase);
    is_ffi_struct(&ChildVisitResult {});
}

#[test]
fn native_bytes_become_their_text() {
    assert_eq!(cxstring_into_string(b"FunctionDecl"), "FunctionDecl");
    assert_eq!(cxstring_into_string(b""), "");
    assert_eq!(cxstring_into_string(&[0xc3, 0xa9]), "\u{e9}");
}

#[test]
fn invalid_native_bytes_become_the_replacement_character() {
    assert_eq!(cxstring_into_string(&[b'a', 0xff, b'b']), "a\u{fffd}b");
}
