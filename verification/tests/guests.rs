use ere::miden::{entrypoint, entrypoint_path, missing_entrypoint, CompileError as MidenCompileError};
use ere::risczero::{
    build_script_path, guest_elf_path, guest_info_path, methods_path_valid, CompileError,
    FileRestorer, PathState, RestoreAction,
};
use ere::text::{
    decimal_string, has_prefix, join_with, parse_usize, replace_pattern, signed_decimal_string, trim_str,
};

#[test]
fn test_file_restorer_handles_path_is_directory() {
    let temp_dir = tempfile::tempdir().unwrap();
    let result = FileRestorer::new(temp_dir.path().to_str().unwrap(), PathState::Directory);
    assert!(result.is_err());
    assert!(matches!(result.unwrap_err(), CompileError::InvalidMethodsPath(_)));
}

#[test]
fn file_restorer_restores_existing_file() {
    let r = FileRestorer::new("/m/build.rs", PathState::File(b"initial content".to_vec())).unwrap();
    assert_eq!(r.path(), "/m/build.rs");
    assert_eq!(r.restore_action(true, false), RestoreAction::Restore(b"initial content".to_vec()));
    assert_eq!(r.restore_action(false, false), RestoreAction::Restore(b"initial content".to_vec()));
}

#[test]
fn file_restorer_removes_created_file() {
    let r = FileRestorer::new("/m/build.rs", PathState::Absent).unwrap();
    assert_eq!(r.restore_action(true, false), RestoreAction::Remove);
    assert_eq!(r.restore_action(true, true), RestoreAction::ReportDirectory);
    assert_eq!(r.restore_action(false, false), RestoreAction::Nothing);
}

#[test]
fn risczero_paths() {
    assert!(methods_path_valid(true, true));
    assert!(!methods_path_valid(true, false));
    assert!(!methods_path_valid(false, false));
    assert_eq!(build_script_path("/m"), "/m/build.rs");
    assert_eq!(guest_info_path("/m"), "/m/ere_guest_info.json");
}

#[test]
fn risczero_guest_info() {
    let ok = guest_elf_path("{\"elf_path\": \"/t/guest\", \"image_id\": 1}", "/m/ere_guest_info.json");
    assert_eq!(ok.unwrap(), "/t/guest");
    match guest_elf_path("{\"elf_path\": 3}", "/m/ere_guest_info.json") {
        Err(CompileError::MissingJsonField { field, file }) => {
            assert_eq!(field, "elf_path");
            assert_eq!(file, "/m/ere_guest_info.json");
        }
        other => panic!("unexpected {:?}", other),
    }
    match guest_elf_path("[1, 2]", "f") {
        Err(CompileError::MissingJsonField { .. }) => {}
        other => panic!("unexpected {:?}", other),
    }
    match guest_elf_path("{not json", "f") {
        Err(CompileError::SerdeJson { context, .. }) => assert_eq!(context, "parsing ere_guest_info.json"),
        other => panic!("unexpected {:?}", other),
    }
    let io = std::io::Error::new(std::io::ErrorKind::Other, "x");
    match CompileError::io(io, "spawning cargo build") {
        CompileError::Io { context, .. } => assert_eq!(context, "spawning cargo build"),
        other => panic!("unexpected {:?}", other),
    }
}

#[test]
fn miden_entrypoint() {
    assert_eq!(entrypoint("fib"), "fib.masm");
    assert_eq!(entrypoint_path("/g/fib", "fib.masm"), "/g/fib/fib.masm");
    assert_eq!(
        missing_entrypoint("/g/fib", "fib.masm"),
        MidenCompileError::MissingEntrypoint { program_dir: "/g/fib".to_string(), entrypoint: "fib.masm".to_string() }
    );
}

#[test]
fn text_helpers() {
    assert_eq!(decimal_string(0), "0");
    assert_eq!(decimal_string(18446744073709551615), "18446744073709551615");
    assert_eq!(signed_decimal_string(-42), "-42");
    assert_eq!(signed_decimal_string(i32::MIN), "-2147483648");
    assert_eq!(join_with("a", "=", "b"), "a=b");
    assert!(has_prefix("sm_89", "sm_"));
    assert!(!has_prefix("sm", "sm_"));
    assert_eq!(replace_pattern("aXbXc", "X", "--"), "a--b--c");
    assert_eq!(replace_pattern("aaa", "aa", "b"), "ba");
    assert_eq!(replace_pattern("abc", "", "-"), "abc");
    assert_eq!(trim_str("\t x y \n"), "x y");
    assert_eq!(parse_usize("+12"), Some(12));
    assert_eq!(parse_usize("12a"), None);
    assert_eq!(parse_usize(""), None);
    assert_eq!(parse_usize("99999999999999999999999"), None);
}
