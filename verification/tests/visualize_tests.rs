use sol_to_uml::internal::Error;
use sol_to_uml::response::{OutputMask, ResponseFieldMask};
use sol_to_uml::visualize::{
    visualize_contracts_drawings, visualize_storage_drawings, Drawing, VisualizeContractsError,
    VisualizeContractsRequest, VisualizeStorageError, VisualizeStorageRequest,
};

fn strings(items: &[&str]) -> Vec<String> {
    items.iter().map(|s| s.to_string()).collect()
}

fn contracts_request(mask: Vec<ResponseFieldMask>) -> VisualizeContractsRequest {
    VisualizeContractsRequest {
        sources: vec![("SimpleContract.sol".to_string(), "contract A {}".to_string())],
        output_mask: OutputMask(mask),
    }
}

fn storage_request(file_path: &str) -> VisualizeStorageRequest {
    VisualizeStorageRequest {
        sources: vec![(
            "c/d/SimpleContract.sol".to_string(),
            "contract SimpleStorage {}".to_string(),
        )],
        file_path: file_path.to_string(),
        contract_name: "SimpleStorage".to_string(),
        output_mask: OutputMask::default(),
    }
}

fn kinds(drawings: &[Drawing]) -> Vec<ResponseFieldMask> {
    drawings.iter().map(|d| d.kind).collect()
}

#[test]
fn omitted_mask_draws_every_kind() {
    let drawings = visualize_contracts_drawings(&contracts_request(vec![]), "/tmp/x", "/tmp/x/result.svg", "/tmp/x/result.png");
    assert_eq!(kinds(&drawings), vec![ResponseFieldMask::Svg, ResponseFieldMask::Png]);
    assert_eq!(
        drawings[0].command.arguments(),
        &strings(&["class", "/tmp/x", "--hideFilename", "-f", "svg", "-o", "/tmp/x/result.svg"])
    );
    assert_eq!(drawings[0].output_file, "/tmp/x/result.svg");
    assert_eq!(
        drawings[1].command.arguments(),
        &strings(&["class", "/tmp/x", "--hideFilename", "-f", "png", "-o", "/tmp/x/result.png"])
    );
    assert_eq!(drawings[1].output_file, "/tmp/x/result.png");
}

#[test]
fn mask_selects_the_drawings() {
    let svg_only = visualize_contracts_drawings(&contracts_request(vec![ResponseFieldMask::Svg]), "/t", "/t/a.svg", "/t/a.png");
    assert_eq!(kinds(&svg_only), vec![ResponseFieldMask::Svg]);
    let png_only = visualize_contracts_drawings(&contracts_request(vec![ResponseFieldMask::Png]), "/t", "/t/a.svg", "/t/a.png");
    assert_eq!(kinds(&png_only), vec![ResponseFieldMask::Png]);
    assert_eq!(png_only[0].output_file, "/t/a.png");
}

#[test]
fn storage_drawings_use_file_name() {
    let drawings = visualize_storage_drawings(&storage_request("c/d/SimpleContract.sol"), "/tmp/y", "/tmp/y/result.svg", "/tmp/y/result.png")
        .expect("the path names a file");
    assert_eq!(kinds(&drawings), vec![ResponseFieldMask::Svg, ResponseFieldMask::Png]);
    assert_eq!(
        drawings[0].command.arguments(),
        &strings(&[
            "storage",
            "/tmp/y",
            "-c",
            "SimpleStorage",
            "-cf",
            "SimpleContract.sol",
            "-o",
            "/tmp/y/result.svg"
        ])
    );
    assert_eq!(
        drawings[1].command.arguments(),
        &strings(&[
            "storage",
            "/tmp/y",
            "-c",
            "SimpleStorage",
            "-cf",
            "SimpleContract.sol",
            "-f",
            "png",
            "-o",
            "/tmp/y/result.png"
        ])
    );
}

#[test]
fn png_only_storage_request_draws_no_svg() {
    let mut request = storage_request("Token.sol");
    request.output_mask = OutputMask(vec![ResponseFieldMask::Png]);
    let drawings = visualize_storage_drawings(&request, "/s", "/s/r.svg", "/s/r.png").unwrap();
    assert_eq!(kinds(&drawings), vec![ResponseFieldMask::Png]);
}

#[test]
fn storage_path_without_file_name_is_refused() {
    for path in ["", "/", "a/..", ".."] {
        assert_eq!(
            visualize_storage_drawings(&storage_request(path), "/tmp/y", "/tmp/y/result.svg", "/tmp/y/result.png").unwrap_err(),
            VisualizeStorageError::InvalidFileName
        );
    }
}

#[test]
fn step_errors_become_request_errors() {
    assert_eq!(
        VisualizeContractsError::from(Error::Internal("io".to_string())),
        VisualizeContractsError::Internal("io".to_string())
    );
    assert_eq!(
        VisualizeContractsError::from(Error::Sol2Uml("parse".to_string())),
        VisualizeContractsError::Execution("parse".to_string())
    );
    assert_eq!(
        VisualizeStorageError::from(Error::Internal("io".to_string())),
        VisualizeStorageError::Internal("io".to_string())
    );
    assert_eq!(
        VisualizeStorageError::from(Error::Sol2Uml("parse".to_string())),
        VisualizeStorageError::Execution("parse".to_string())
    );
}

#[test]
fn request_error_messages() {
    assert_eq!(
        VisualizeContractsError::Internal("a".to_string()).message(),
        "internal error: a"
    );
    assert_eq!(
        VisualizeContractsError::Execution("b".to_string()).message(),
        "execution error: b"
    );
    assert_eq!(
        VisualizeStorageError::InvalidFileName.message(),
        "file path should contain file name"
    );
    assert_eq!(
        VisualizeStorageError::Internal("a".to_string()).message(),
        "internal error: a"
    );
    assert_eq!(
        VisualizeStorageError::Execution("Failed to find contract with name".to_string()).message(),
        "execution error: Failed to find contract with name"
    );
}
