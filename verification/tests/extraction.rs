//! The result extractor against real output documents: the metric at the
//! fixed field path, and every way a document can fail to yield it.

use quicksim::extract::{extract, Extraction};

fn doc(mean: &str) -> String {
    format!(
        "{{\"sim\":{{\"players\":[{{\"collected_data\":{{\"dps\":{{\"mean\":{}}}}}}}]}}}}",
        mean
    )
}

#[test]
fn absent_artifact_is_not_ready() {
    assert!(matches!(extract(None), Extraction::NotReady));
}

#[test]
fn metric_is_read_from_the_fixed_path() {
    let text = doc("12345.6");
    match extract(Some(&text)) {
        Extraction::Metric(m) => assert_eq!(m, "12345.6"),
        _ => panic!("metric expected"),
    }
}

#[test]
fn integer_metric_keeps_its_own_text() {
    let text = doc("100");
    match extract(Some(&text)) {
        Extraction::Metric(m) => assert_eq!(m, "100"),
        _ => panic!("metric expected"),
    }
}

#[test]
fn invalid_json_is_malformed() {
    let text = "not json at all".to_string();
    assert!(matches!(extract(Some(&text)), Extraction::Malformed));
}

#[test]
fn missing_path_is_malformed() {
    let text = "{\"sim\":{\"players\":[]}}".to_string();
    assert!(matches!(extract(Some(&text)), Extraction::Malformed));
    let text2 = "{\"sim\":{}}".to_string();
    assert!(matches!(extract(Some(&text2)), Extraction::Malformed));
}

#[test]
fn non_numeric_metric_is_malformed() {
    let text = doc("\"fast\"");
    assert!(matches!(extract(Some(&text)), Extraction::Malformed));
}
