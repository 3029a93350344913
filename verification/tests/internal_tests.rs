use sol_to_uml::internal::{
    check_source_path, save_files_result, sol2uml_result, Error, FileOutcome, Sol2Uml,
};

#[test]
fn absolute_source_path_is_refused() {
    let refusal = check_source_path("/usr/contract_with_lib.sol").unwrap_err();
    assert!(refusal.contains("All paths should be relative"));
    assert_eq!(refusal, "Error. All paths should be relative.");
    assert!(check_source_path("/usr/SimpleContract.sol").is_err());
}

#[test]
fn relative_source_paths_are_accepted() {
    assert_eq!(check_source_path("contract_with_lib.sol"), Ok(()));
    assert_eq!(check_source_path("c/d/SimpleContract.sol"), Ok(()));
    assert_eq!(check_source_path("./contracts/SimpleContract.sol"), Ok(()));
}

#[test]
fn all_files_written_is_success() {
    assert_eq!(save_files_result(&vec![]), Ok(()));
    assert_eq!(
        save_files_result(&vec![FileOutcome::Written, FileOutcome::Written]),
        Ok(())
    );
}

#[test]
fn first_failed_file_is_reported() {
    let outcomes = vec![
        FileOutcome::Written,
        FileOutcome::Failed("Error. All paths should be relative.".to_string()),
        FileOutcome::Aborted("task lost".to_string()),
    ];
    assert_eq!(
        save_files_result(&outcomes),
        Err(Error::Internal(
            "Error. All paths should be relative.".to_string()
        ))
    );
    let outcomes = vec![
        FileOutcome::Aborted("task lost".to_string()),
        FileOutcome::Failed("disk full".to_string()),
    ];
    assert_eq!(
        save_files_result(&outcomes),
        Err(Error::Internal("task lost".to_string()))
    );
}

#[test]
fn clean_sol2uml_run_succeeds() {
    assert_eq!(sol2uml_result(true, &[]), Ok(()));
}

#[test]
fn sol2uml_complaints_are_reported() {
    assert_eq!(
        sol2uml_result(false, b"Failed to find contract with name \"dsd\""),
        Err(Error::Sol2Uml(
            "Failed to find contract with name \"dsd\"".to_string()
        ))
    );
    assert_eq!(
        sol2uml_result(true, b"warning"),
        Err(Error::Sol2Uml("warning".to_string()))
    );
    assert_eq!(sol2uml_result(false, &[]), Err(Error::Sol2Uml(String::new())));
}

#[test]
fn unreadable_sol2uml_output_is_internal() {
    match sol2uml_result(false, &[0xff, 0xfe]) {
        Err(Error::Internal(message)) => assert!(!message.is_empty()),
        other => panic!("unexpected outcome {:?}", other),
    }
}

#[test]
fn error_messages() {
    assert_eq!(
        Error::Internal("boom".to_string()).message(),
        "internal error: boom"
    );
    assert_eq!(
        Error::Sol2Uml("bad".to_string()).message(),
        "sol2uml call failed: bad"
    );
}

#[test]
fn command_line_grows_in_order() {
    let command = Sol2Uml::new()
        .arg("class")
        .arg("/tmp/dir")
        .args(&["-f", "svg"])
        .arg("-o");
    assert_eq!(
        command.arguments(),
        &vec![
            "class".to_string(),
            "/tmp/dir".to_string(),
            "-f".to_string(),
            "svg".to_string(),
            "-o".to_string()
        ]
    );
    assert!(Sol2Uml::new().arguments().is_empty());
    assert!(Sol2Uml::new().args(&[]).arguments().is_empty());
}
