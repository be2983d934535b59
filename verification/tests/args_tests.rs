use catr::args::{get_args, UsageError};

fn strings(args: &[&str]) -> Vec<String> {
    args.iter().map(|a| a.to_string()).collect()
}

#[test]
fn no_args_defaults_to_stdin() {
    let args = get_args(&strings(&[])).unwrap();
    assert_eq!(args.files, vec!["-".to_string()]);
    assert!(!args.number_lines);
    assert!(!args.number_nonblank_lines);
}

#[test]
fn explicit_dash_is_kept() {
    let args = get_args(&strings(&["-"])).unwrap();
    assert_eq!(args.files, vec!["-".to_string()]);
}

#[test]
fn dash_among_files_is_kept_in_order() {
    let args = get_args(&strings(&["a.txt", "-", "b.txt"])).unwrap();
    assert_eq!(
        args.files,
        vec!["a.txt".to_string(), "-".to_string(), "b.txt".to_string()]
    );
}

#[test]
fn positionals_keep_their_order() {
    let args = get_args(&strings(&["one", "two", "three"])).unwrap();
    assert_eq!(
        args.files,
        vec!["one".to_string(), "two".to_string(), "three".to_string()]
    );
}

#[test]
fn short_number_flag() {
    let args = get_args(&strings(&["-n", "a.txt"])).unwrap();
    assert!(args.number_lines);
    assert!(!args.number_nonblank_lines);
    assert_eq!(args.files, vec!["a.txt".to_string()]);
}

#[test]
fn long_number_flag() {
    let args = get_args(&strings(&["--number", "a.txt"])).unwrap();
    assert!(args.number_lines);
    assert!(!args.number_nonblank_lines);
}

#[test]
fn short_nonblank_flag() {
    let args = get_args(&strings(&["-b", "a.txt"])).unwrap();
    assert!(args.number_nonblank_lines);
    assert!(!args.number_lines);
}

#[test]
fn long_nonblank_flag() {
    let args = get_args(&strings(&["--number-nonblank", "a.txt"])).unwrap();
    assert!(args.number_nonblank_lines);
    assert!(!args.number_lines);
}

#[test]
fn flag_without_files_defaults_to_stdin() {
    let args = get_args(&strings(&["-n"])).unwrap();
    assert!(args.number_lines);
    assert_eq!(args.files, vec!["-".to_string()]);
}

#[test]
fn both_flags_are_a_usage_error() {
    let r = get_args(&strings(&["-b", "-n", "a.txt"]));
    assert!(matches!(r, Err(UsageError::ConflictingNumberFlags)));
}

#[test]
fn both_flags_reversed_are_a_usage_error() {
    let r = get_args(&strings(&["-n", "-b"]));
    assert!(matches!(r, Err(UsageError::ConflictingNumberFlags)));
}

#[test]
fn both_flags_long_forms_are_a_usage_error() {
    let r = get_args(&strings(&["--number", "--number-nonblank"]));
    assert!(matches!(r, Err(UsageError::ConflictingNumberFlags)));
}

#[test]
fn unknown_flag_is_a_usage_error() {
    match get_args(&strings(&["-x"])) {
        Err(UsageError::UnrecognizedFlag(f)) => assert_eq!(f, "-x"),
        other => panic!("expected an unrecognized-flag error, got {:?}", other),
    }
}

#[test]
fn first_unknown_flag_is_reported() {
    match get_args(&strings(&["-z", "-b", "-q"])) {
        Err(UsageError::UnrecognizedFlag(f)) => assert_eq!(f, "-z"),
        other => panic!("expected an unrecognized-flag error, got {:?}", other),
    }
}

#[test]
fn unknown_long_flag_is_a_usage_error() {
    match get_args(&strings(&["--squeeze-blank"])) {
        Err(UsageError::UnrecognizedFlag(f)) => assert_eq!(f, "--squeeze-blank"),
        other => panic!("expected an unrecognized-flag error, got {:?}", other),
    }
}

#[test]
fn repeated_flag_is_idempotent() {
    let args = get_args(&strings(&["-n", "--number", "a.txt"])).unwrap();
    assert!(args.number_lines);
    assert!(!args.number_nonblank_lines);
}

#[test]
fn conflicting_flags_message() {
    let e = UsageError::ConflictingNumberFlags;
    assert_eq!(e.message(), "the options -b and -n cannot be used together");
}

#[test]
fn unrecognized_flag_message() {
    let e = UsageError::UnrecognizedFlag("-x".to_string());
    assert_eq!(e.message(), "unrecognized option: -x");
}
