//! Tests of response resolution: the data/errors policy and the
//! first-item convenience path.

use byo_graphql::{decimal_string, extract_data, extract_first_item, ByoError, GraphqlError};

#[test]
fn data_alone_is_returned() {
    let r = extract_data::<u32>(Some(7), None);
    assert_eq!(r.unwrap(), 7);
}

#[test]
fn errors_take_precedence_over_data() {
    let errors = vec![GraphqlError {
        path: Some(vec!["repository".to_string(), "issues".to_string()]),
        message: Some("boom".to_string()),
    }];
    let r = extract_data::<u32>(Some(7), Some(errors));
    match r {
        Err(ByoError::Graphql(errs)) => {
            assert_eq!(errs.len(), 1);
            assert_eq!(errs[0].message.as_deref(), Some("boom"));
            assert_eq!(
                errs[0].path.as_deref(),
                Some(&["repository".to_string(), "issues".to_string()][..]),
            );
        }
        other => panic!("expected Graphql error, got {:?}", other),
    }
}

#[test]
fn empty_errors_array_is_no_error() {
    let r = extract_data::<u32>(Some(7), Some(Vec::new()));
    assert_eq!(r.unwrap(), 7);
}

#[test]
fn no_data_no_errors_is_no_data() {
    let r = extract_data::<u32>(None, None);
    assert!(matches!(r, Err(ByoError::NoData)));
}

#[test]
fn empty_errors_and_no_data_is_no_data() {
    let r = extract_data::<u32>(None, Some(Vec::new()));
    assert!(matches!(r, Err(ByoError::NoData)));
}

#[test]
fn errors_without_data_are_surfaced() {
    let errors = vec![GraphqlError { path: None, message: None }];
    let r = extract_data::<u32>(None, Some(errors));
    assert!(matches!(r, Err(ByoError::Graphql(_))));
}

#[test]
fn first_item_empty_mapping_is_no_data() {
    let r = extract_first_item::<u32>(Vec::new());
    assert!(matches!(r, Err(ByoError::NoData)));
}

#[test]
fn first_item_null_value_is_no_data() {
    let r = extract_first_item::<u32>(vec![("repository".to_string(), None)]);
    assert!(matches!(r, Err(ByoError::NoData)));
}

#[test]
fn first_item_present_value_is_unwrapped() {
    let r = extract_first_item::<u32>(vec![("repository".to_string(), Some(7))]);
    assert_eq!(r.unwrap(), 7);
}

#[test]
fn decimal_rendering() {
    assert_eq!(decimal_string(0), "0");
    assert_eq!(decimal_string(7), "7");
    assert_eq!(decimal_string(10), "10");
    assert_eq!(decimal_string(42), "42");
    assert_eq!(decimal_string(1009), "1009");
    assert_eq!(decimal_string(usize::MAX), usize::MAX.to_string());
}
