//! Extraction of embedded error names from decoder messages.

use lolibaso::http::json::extract_error_name;

#[test]
fn decoder_test_extract_error_name() {
    let s = "##InvalidPortNumber(invalid digit found in string)## at line 1 column 10";
    let (err_name, err_msg) = extract_error_name(s).unwrap();
    assert_eq!(err_name, "InvalidPortNumber");
    assert_eq!(err_msg, Some("invalid digit found in string".to_string()));

    let s = "##InvalidPortNumber## at line 1 column 10";
    let (err_name, err_msg) = extract_error_name(s).unwrap();
    assert_eq!(err_name, "InvalidPortNumber");
    assert_eq!(err_msg, None);
}

#[test]
fn json_test_extract_error_name() {
    let s = "##InvalidPortNumber(invalid digit found in string)## at line 1 column 10";
    let (err_name, err_msg) = extract_error_name(s).unwrap();
    assert_eq!(err_name, "InvalidPortNumber");
    assert_eq!(err_msg, Some("invalid digit found in string".to_string()));

    let s = "##InvalidPortNumber## at line 1 column 10";
    let (err_name, err_msg) = extract_error_name(s).unwrap();
    assert_eq!(err_name, "InvalidPortNumber");
    assert_eq!(err_msg, None);
}

#[test]
fn parser_test_extract_error_name() {
    let s = "##InvalidPortNumber(invalid digit found in string)## at line 1 column 10";
    let (err_name, err_msg) = extract_error_name(s).unwrap();
    assert_eq!(err_name, "InvalidPortNumber");
    assert_eq!(err_msg, Some("invalid digit found in string".to_string()));

    let s = "##InvalidPortNumber## at line 1 column 10";
    let (err_name, err_msg) = extract_error_name(s).unwrap();
    assert_eq!(err_name, "InvalidPortNumber");
    assert_eq!(err_msg, None);
}

#[test]
fn no_markers_yields_nothing() {
    assert_eq!(extract_error_name("plain message"), None);
    assert_eq!(extract_error_name(""), None);
    assert_eq!(extract_error_name("#single hash#"), None);
}

#[test]
fn marker_at_end_yields_nothing() {
    assert_eq!(extract_error_name("trailing ##"), None);
    assert_eq!(extract_error_name("unclosed ##Name without second marker"), None);
}

#[test]
fn name_is_trimmed() {
    let (err_name, err_msg) = extract_error_name("##  Spaced  ## rest").unwrap();
    assert_eq!(err_name, "Spaced");
    assert_eq!(err_msg, None);
}

#[test]
fn detail_stops_at_second_paren_and_sheds_closers() {
    let (err_name, err_msg) = extract_error_name("##A(b(c)## x").unwrap();
    assert_eq!(err_name, "A");
    assert_eq!(err_msg, Some("b".to_string()));

    let (err_name, err_msg) = extract_error_name("##A(deep))## x").unwrap();
    assert_eq!(err_name, "A");
    assert_eq!(err_msg, Some("deep".to_string()));
}

#[test]
fn empty_name_between_markers() {
    let (err_name, err_msg) = extract_error_name("#### rest").unwrap();
    assert_eq!(err_name, "");
    assert_eq!(err_msg, None);
}
