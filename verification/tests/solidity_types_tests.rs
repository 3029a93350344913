use sol_to_uml::proto::{self, FieldMask, VisualizeResponse};
use sol_to_uml::response::{Response, ResponseFieldMask};
use sol_to_uml::solidity_types::{output_mask, sources};
use sol_to_uml::visualize::{VisualizeContractsRequest, VisualizeStorageRequest};

fn mask(paths: &[&str]) -> Option<FieldMask> {
    Some(FieldMask {
        paths: paths.iter().map(|s| s.to_string()).collect(),
    })
}

#[test]
fn no_mask_is_the_empty_mask() {
    let m = output_mask(None).unwrap();
    assert!(m.0.is_empty());
    assert!(m.contains(&ResponseFieldMask::Svg));
    assert!(m.contains(&ResponseFieldMask::Png));
}

#[test]
fn mask_paths_become_kinds() {
    let m = output_mask(mask(&["svg", "png"])).unwrap();
    assert_eq!(m.0, vec![ResponseFieldMask::Svg, ResponseFieldMask::Png]);
    let m = output_mask(mask(&["png", "png"])).unwrap();
    assert_eq!(m.0, vec![ResponseFieldMask::Png]);
    assert!(!m.contains(&ResponseFieldMask::Svg));
    let m = output_mask(mask(&[])).unwrap();
    assert!(m.0.is_empty());
}

#[test]
fn first_unknown_mask_path_is_refused() {
    let e = output_mask(mask(&["svg", "pdf", "jpg"])).unwrap_err();
    assert_eq!(e.value, "pdf");
}

#[test]
fn sources_are_kept() {
    let entries = vec![
        ("a.sol".to_string(), "A".to_string()),
        ("lib/b.sol".to_string(), "B".to_string()),
    ];
    assert_eq!(sources(entries.clone()), entries);
    assert!(sources(vec![]).is_empty());
}

#[test]
fn sources_come_out_in_path_order() {
    let entries = vec![
        ("lib/b.sol".to_string(), "B".to_string()),
        ("a.sol".to_string(), "A".to_string()),
        ("a/c.sol".to_string(), "C".to_string()),
    ];
    assert_eq!(
        sources(entries),
        vec![
            ("a/c.sol".to_string(), "C".to_string()),
            ("a.sol".to_string(), "A".to_string()),
            ("lib/b.sol".to_string(), "B".to_string()),
        ]
    );
}

#[test]
fn equal_paths_become_one_source() {
    let entries = vec![
        ("a/b".to_string(), "x".to_string()),
        ("z.sol".to_string(), "Z".to_string()),
        ("a//b".to_string(), "y".to_string()),
        ("./a/b".to_string(), "w".to_string()),
    ];
    let merged = sources(entries);
    assert_eq!(merged.len(), 3);
    assert_eq!(merged[0], ("./a/b".to_string(), "w".to_string()));
    assert_eq!(merged[1], ("a/b".to_string(), "y".to_string()));
    assert_eq!(merged[2], ("z.sol".to_string(), "Z".to_string()));
}

#[test]
fn contracts_request_from_message() {
    let request = VisualizeContractsRequest::try_from(proto::VisualizeContractsRequest {
        sources: vec![("a.sol".to_string(), "A".to_string())],
        output_mask: mask(&["svg"]),
    })
    .unwrap();
    assert_eq!(request.sources, vec![("a.sol".to_string(), "A".to_string())]);
    assert_eq!(request.output_mask.0, vec![ResponseFieldMask::Svg]);
    let e = VisualizeContractsRequest::try_from(proto::VisualizeContractsRequest {
        sources: vec![],
        output_mask: mask(&["bmp"]),
    })
    .unwrap_err();
    assert_eq!(e.value, "bmp");
}

#[test]
fn storage_request_from_message() {
    let request = VisualizeStorageRequest::try_from(proto::VisualizeStorageRequest {
        sources: vec![("main_dir/SameName.sol".to_string(), "X".to_string())],
        file_name: "main_dir/SameName.sol".to_string(),
        contract_name: "Main".to_string(),
        output_mask: None,
    })
    .unwrap();
    assert_eq!(request.file_path, "main_dir/SameName.sol");
    assert_eq!(request.contract_name, "Main");
    assert!(request.output_mask.0.is_empty());
    assert!(VisualizeStorageRequest::try_from(proto::VisualizeStorageRequest {
        sources: vec![],
        file_name: "a.sol".to_string(),
        contract_name: "Main".to_string(),
        output_mask: mask(&["svg", "x"]),
    })
    .is_err());
}

#[test]
fn response_message_keeps_drawings() {
    let message = VisualizeResponse::from(Response {
        svg: Some(vec![7]),
        png: None,
    });
    assert_eq!(message.svg, Some(vec![7]));
    assert_eq!(message.png, None);
}
