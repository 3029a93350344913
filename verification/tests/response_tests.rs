use sol_to_uml::response::{OutputMask, Response, ResponseFieldMask};

#[test]
fn empty_mask_selects_every_kind() {
    let mask = OutputMask::default();
    assert!(mask.contains(&ResponseFieldMask::Svg));
    assert!(mask.contains(&ResponseFieldMask::Png));
}

#[test]
fn mask_selects_only_named_kinds() {
    let mask = OutputMask(vec![ResponseFieldMask::Svg]);
    assert!(mask.contains(&ResponseFieldMask::Svg));
    assert!(!mask.contains(&ResponseFieldMask::Png));
    let mask = OutputMask(vec![ResponseFieldMask::Png, ResponseFieldMask::Png]);
    assert!(!mask.contains(&ResponseFieldMask::Svg));
    assert!(mask.contains(&ResponseFieldMask::Png));
}

#[test]
fn field_mask_names() {
    assert_eq!(ResponseFieldMask::Svg.to_string(), "svg");
    assert_eq!(ResponseFieldMask::Png.to_string(), "png");
}

#[test]
fn field_mask_parsing() {
    assert_eq!(
        ResponseFieldMask::try_from("svg".to_string()),
        Ok(ResponseFieldMask::Svg)
    );
    assert_eq!(
        ResponseFieldMask::try_from("png".to_string()),
        Ok(ResponseFieldMask::Png)
    );
    let err = ResponseFieldMask::try_from("jpeg".to_string()).unwrap_err();
    assert_eq!(err.value, "jpeg");
    assert_eq!(err.message(), "invalid response filed mask: jpeg");
    assert!(ResponseFieldMask::try_from("SVG".to_string()).is_err());
    assert!(ResponseFieldMask::try_from("".to_string()).is_err());
}

#[test]
fn field_mask_name_round_trip() {
    for kind in [ResponseFieldMask::Svg, ResponseFieldMask::Png] {
        assert_eq!(ResponseFieldMask::try_from(kind.to_string()), Ok(kind));
    }
}

#[test]
fn response_holds_its_drawings() {
    let response = Response {
        svg: Some(vec![1, 2, 3]),
        png: None,
    };
    assert_eq!(response.clone(), response);
    assert_ne!(
        response,
        Response {
            svg: None,
            png: None
        }
    );
}
