use sol_to_uml::handlers::{
    save_files_result, sol2uml_result, storage_command, uml_command, AnswerAction, AnswerError,
    AnswerEvent, AnswerJob, AnswerStage, ServiceError,
};
use sol_to_uml::internal::FileOutcome;
use sol_to_uml::types::SolToStorageRequest;

fn strings(items: &[&str]) -> Vec<String> {
    items.iter().map(|s| s.to_string()).collect()
}

fn storage_request(main_contract_filename: &str) -> SolToStorageRequest {
    SolToStorageRequest {
        sources: vec![("./contracts/SimpleContract.sol".to_string(), "contract C {}".to_string())],
        main_contract: "dsd".to_string(),
        main_contract_filename: main_contract_filename.to_string(),
    }
}

#[test]
fn refused_path_is_a_client_error() {
    let outcomes = vec![FileOutcome::Failed(
        "Error. All paths should be relative.".to_string(),
    )];
    let e = save_files_result(&outcomes).unwrap_err();
    assert_eq!(e.status_code(), 400);
    assert!(e.message().contains("All paths should be relative"));
}

#[test]
fn lost_task_is_a_server_error() {
    let outcomes = vec![
        FileOutcome::Written,
        FileOutcome::Aborted("task panicked".to_string()),
        FileOutcome::Failed("later".to_string()),
    ];
    let e = save_files_result(&outcomes).unwrap_err();
    assert_eq!(e, ServiceError::InternalServerError("task panicked".to_string()));
    assert_eq!(e.status_code(), 500);
    assert_eq!(save_files_result(&vec![FileOutcome::Written]), Ok(()));
}

#[test]
fn sol2uml_outcomes() {
    assert_eq!(sol2uml_result(true, b""), Ok(()));
    assert_eq!(
        sol2uml_result(false, b"Failed to parse solidity code"),
        Err(ServiceError::BadRequest(
            "Failed to parse solidity code".to_string()
        ))
    );
    match sol2uml_result(false, &[0xc3]) {
        Err(ServiceError::BadRequest(m)) => assert!(!m.is_empty()),
        other => panic!("unexpected outcome {:?}", other),
    }
}

#[test]
fn uml_command_line() {
    assert_eq!(
        uml_command("/tmp/c", "/tmp/c/result.svg").arguments(),
        &strings(&["class", "/tmp/c", "--hideFilename", "-o", "/tmp/c/result.svg"])
    );
}

#[test]
fn storage_command_line() {
    let command = storage_command(&storage_request("SimpleContract.sol"), "/tmp/c", "/tmp/c/result.svg").unwrap();
    assert_eq!(
        command.arguments(),
        &strings(&[
            "storage",
            "/tmp/c",
            "-c",
            "dsd",
            "-cf",
            "SimpleContract.sol",
            "-o",
            "/tmp/c/result.svg"
        ])
    );
    let command = storage_command(&storage_request("main_dir/SameName.sol"), "/d", "/d/r.svg").unwrap();
    assert_eq!(command.arguments()[5], "SameName.sol");
}

#[test]
fn main_contract_path_without_file_name() {
    let e = storage_command(&storage_request("contracts/.."), "/tmp/c", "/tmp/c/result.svg").unwrap_err();
    assert_eq!(
        e,
        ServiceError::BadRequest("Error. Main contract filename should contain filename.".to_string())
    );
    assert_eq!(e.status_code(), 400);
}

#[test]
fn answer_course_draws_the_diagram() {
    let command = uml_command("/tmp/x", "/tmp/x/result.svg");
    let (mut job, action) = AnswerJob::start::<String>(Ok(command));
    assert!(matches!(action, AnswerAction::WriteSources));
    assert_eq!(job.current_stage(), AnswerStage::WritingSources);
    let action = job.step::<String>(AnswerEvent::SourcesWritten(vec![FileOutcome::Written]));
    match action {
        AnswerAction::RunTool(c) => assert_eq!(
            c.arguments(),
            &strings(&["class", "/tmp/x", "--hideFilename", "-o", "/tmp/x/result.svg"])
        ),
        other => panic!("unexpected {:?}", other),
    }
    let action = job.step::<String>(AnswerEvent::ToolFinished(Ok((true, vec![]))));
    assert!(matches!(action, AnswerAction::ReadDiagram));
    let action = job.step::<String>(AnswerEvent::DiagramRead(Ok("<svg/>".to_string())));
    match action {
        AnswerAction::Reply(Ok(text)) => assert_eq!(text, "<svg/>"),
        other => panic!("unexpected {:?}", other),
    }
    assert_eq!(job.current_stage(), AnswerStage::Finished);
}

#[test]
fn answer_course_refused_main_contract_writes_nothing() {
    let command = storage_command(&storage_request(".."), "/tmp/x", "/tmp/x/result.svg");
    let (job, action) = AnswerJob::start::<String>(command);
    assert_eq!(job.current_stage(), AnswerStage::Finished);
    match action {
        AnswerAction::Reply(Err(AnswerError::Service(e))) => {
            assert_eq!(e.status_code(), 400);
            assert_eq!(e.message(), "Error. Main contract filename should contain filename.");
        }
        other => panic!("unexpected {:?}", other),
    }
}

#[test]
fn answer_course_stops_at_first_failure() {
    let command = uml_command("/tmp/x", "/tmp/x/result.svg");
    let (mut job, _) = AnswerJob::start::<String>(Ok(command.clone()));
    let action = job.step::<String>(AnswerEvent::SourcesWritten(vec![
        FileOutcome::Written,
        FileOutcome::Failed("Error. All paths should be relative.".to_string()),
    ]));
    match action {
        AnswerAction::Reply(Err(AnswerError::Service(ServiceError::BadRequest(m)))) => {
            assert_eq!(m, "Error. All paths should be relative.")
        }
        other => panic!("unexpected {:?}", other),
    }

    let (mut job, _) = AnswerJob::start::<String>(Ok(command.clone()));
    job.step::<String>(AnswerEvent::SourcesWritten(vec![]));
    let action = job.step::<String>(AnswerEvent::ToolFinished(Ok((false, b"Error: parse".to_vec()))));
    match action {
        AnswerAction::Reply(Err(AnswerError::Service(ServiceError::BadRequest(m)))) => {
            assert_eq!(m, "Error: parse")
        }
        other => panic!("unexpected {:?}", other),
    }

    let (mut job, _) = AnswerJob::start::<String>(Ok(command));
    job.step::<String>(AnswerEvent::SourcesWritten(vec![]));
    let action = job.step::<String>(AnswerEvent::ToolFinished(Err("no such program".to_string())));
    match action {
        AnswerAction::Reply(Err(AnswerError::System(e))) => assert_eq!(e, "no such program"),
        other => panic!("unexpected {:?}", other),
    }
}
