use sol_to_uml::internal::Error;
use sol_to_uml::jobs::{Action, Event, RenderJob, Stage};
use sol_to_uml::response::{OutputMask, Response, ResponseFieldMask};
use sol_to_uml::visualize::{
    visualize_contracts_drawings, visualize_storage_drawings, VisualizeContractsError,
    VisualizeContractsRequest, VisualizeStorageError, VisualizeStorageRequest,
};

fn contracts(mask: Vec<ResponseFieldMask>) -> VisualizeContractsRequest {
    VisualizeContractsRequest {
        sources: vec![("A.sol".to_string(), "contract A {}".to_string())],
        output_mask: OutputMask(mask),
    }
}

fn storage(file_path: &str) -> VisualizeStorageRequest {
    VisualizeStorageRequest {
        sources: vec![("Token.sol".to_string(), "contract MyToken {}".to_string())],
        file_path: file_path.to_string(),
        contract_name: "MyToken".to_string(),
        output_mask: OutputMask::default(),
    }
}

fn contracts_job(mask: Vec<ResponseFieldMask>) -> RenderJob {
    let drawings = visualize_contracts_drawings(&contracts(mask), "/w", "/w/r.svg", "/w/r.png");
    let (job, action) = RenderJob::start::<VisualizeContractsError>(drawings);
    assert_eq!(action, Action::WriteSources);
    job
}

#[test]
fn omitted_mask_job_draws_svg_and_png() {
    let mut job = contracts_job(vec![]);
    assert_eq!(job.current_stage(), Stage::WritingSources);
    match job.step::<VisualizeContractsError>(Event::SourcesWritten(Ok(()))) {
        Action::RunTool(command) => assert_eq!(command.arguments()[4], "svg"),
        other => panic!("unexpected action {:?}", other),
    }
    assert_eq!(job.current_stage(), Stage::RunningTool);
    assert_eq!(
        job.step::<VisualizeContractsError>(Event::ToolFinished(Ok(()))),
        Action::ReadDrawing("/w/r.svg".to_string())
    );
    assert_eq!(job.current_stage(), Stage::ReadingDrawing);
    match job.step::<VisualizeContractsError>(Event::DrawingRead(Ok(vec![1, 2]))) {
        Action::RunTool(command) => assert_eq!(command.arguments()[4], "png"),
        other => panic!("unexpected action {:?}", other),
    }
    assert_eq!(
        job.step::<VisualizeContractsError>(Event::ToolFinished(Ok(()))),
        Action::ReadDrawing("/w/r.png".to_string())
    );
    assert_eq!(
        job.step::<VisualizeContractsError>(Event::DrawingRead(Ok(vec![9]))),
        Action::Reply(Ok(Response {
            svg: Some(vec![1, 2]),
            png: Some(vec![9])
        }))
    );
    assert_eq!(job.current_stage(), Stage::Finished);
}

#[test]
fn png_only_job_replies_with_png() {
    let mut job = contracts_job(vec![ResponseFieldMask::Png]);
    job.step::<VisualizeContractsError>(Event::SourcesWritten(Ok(())));
    assert_eq!(
        job.step::<VisualizeContractsError>(Event::ToolFinished(Ok(()))),
        Action::ReadDrawing("/w/r.png".to_string())
    );
    assert_eq!(
        job.step::<VisualizeContractsError>(Event::DrawingRead(Ok(vec![7]))),
        Action::Reply(Ok(Response {
            svg: None,
            png: Some(vec![7])
        }))
    );
}

#[test]
fn job_without_drawings_replies_after_writing() {
    let (mut job, _) = RenderJob::start::<VisualizeContractsError>(vec![]);
    assert_eq!(
        job.step::<VisualizeContractsError>(Event::SourcesWritten(Ok(()))),
        Action::Reply(Ok(Response {
            svg: None,
            png: None
        }))
    );
}

#[test]
fn job_failures_are_replied() {
    let mut job = contracts_job(vec![]);
    let e = VisualizeContractsError::from(Error::Internal(
        "Error. All paths should be relative.".to_string(),
    ));
    assert_eq!(
        job.step(Event::SourcesWritten(Err(e.clone()))),
        Action::Reply(Err(e))
    );
    assert_eq!(job.current_stage(), Stage::Finished);

    let mut job = contracts_job(vec![]);
    job.step::<VisualizeContractsError>(Event::SourcesWritten(Ok(())));
    let e = VisualizeContractsError::from(Error::Sol2Uml("Failed to parse solidity code".to_string()));
    assert_eq!(
        job.step(Event::ToolFinished(Err(e.clone()))),
        Action::Reply(Err(e))
    );

    let mut job = contracts_job(vec![]);
    job.step::<VisualizeContractsError>(Event::SourcesWritten(Ok(())));
    job.step::<VisualizeContractsError>(Event::ToolFinished(Ok(())));
    let e = VisualizeContractsError::Internal("no such file".to_string());
    assert_eq!(
        job.step(Event::DrawingRead(Err(e.clone()))),
        Action::Reply(Err(e))
    );
}

#[test]
fn storage_job_course() {
    let drawings = visualize_storage_drawings(&storage("Token.sol"), "/s", "/s/r.svg", "/s/r.png").unwrap();
    let (mut job, _) = RenderJob::start::<VisualizeStorageError>(drawings);
    match job.step::<VisualizeStorageError>(Event::SourcesWritten(Ok(()))) {
        Action::RunTool(command) => assert_eq!(command.arguments()[5], "Token.sol"),
        other => panic!("unexpected action {:?}", other),
    }
    let e = VisualizeStorageError::Execution("Failed to find inherited contract".to_string());
    assert_eq!(
        job.step(Event::ToolFinished(Err(e.clone()))),
        Action::Reply(Err(e))
    );
}

#[test]
fn storage_without_file_name_plans_nothing() {
    assert_eq!(
        visualize_storage_drawings(&storage("contracts/.."), "/s", "/s/r.svg", "/s/r.png").unwrap_err(),
        VisualizeStorageError::InvalidFileName
    );
}
