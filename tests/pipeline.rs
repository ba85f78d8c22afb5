use ted_poll::error::{Field, PollError};
use ted_poll::extract::{check_numbers, extract_texts, field_query, field_texts, field_values};
use ted_poll::url::export_url;

fn strings(xs: &[&str]) -> Vec<String> {
    xs.iter().map(|s| s.to_string()).collect()
}

#[test]
fn url_for_named_host_and_window() {
    assert_eq!(
        export_url("ted6k.local", 30),
        "http://ted6k.local/history/export.xml?T=1&D=0&M=1&C=30"
    );
}

#[test]
fn url_for_default_arguments() {
    assert_eq!(export_url("ted", 10), "http://ted/history/export.xml?T=1&D=0&M=1&C=10");
}

#[test]
fn url_for_zero_and_negative_windows() {
    assert_eq!(export_url("h", 0), "http://h/history/export.xml?T=1&D=0&M=1&C=0");
    assert_eq!(export_url("h", -7), "http://h/history/export.xml?T=1&D=0&M=1&C=-7");
    assert_eq!(
        export_url("h", i32::MIN),
        "http://h/history/export.xml?T=1&D=0&M=1&C=-2147483648"
    );
    assert_eq!(
        export_url("h", i32::MAX),
        "http://h/history/export.xml?T=1&D=0&M=1&C=2147483647"
    );
}

#[test]
fn one_sample_of_each_field() {
    let body = "<LiveData><POWER>100.5</POWER><VOLTAGE>120.0</VOLTAGE></LiveData>";
    let t = extract_texts(body).unwrap();
    assert_eq!(t.power, strings(&["100.5"]));
    assert_eq!(t.voltage, strings(&["120.0"]));
    assert_eq!(t.power[0].parse::<f64>().unwrap(), 100.5);
    assert_eq!(t.voltage[0].parse::<f64>().unwrap(), 120.0);
}

#[test]
fn two_power_samples_in_document_order() {
    let body = "<H><P><POWER>100</POWER><VOLTAGE>120</VOLTAGE></P><P><POWER>200</POWER><VOLTAGE>121</VOLTAGE></P></H>";
    let t = extract_texts(body).unwrap();
    assert_eq!(t.power, strings(&["100", "200"]));
    assert_eq!(t.voltage, strings(&["120", "121"]));
    let xs: Vec<f64> = t.power.iter().map(|s| s.parse::<f64>().unwrap()).collect();
    assert_eq!(xs.iter().sum::<f64>() / xs.len() as f64, 150.0);
}

#[test]
fn samples_found_at_any_depth() {
    let body = "<a><b><c><POWER>5</POWER></c></b><VOLTAGE>1</VOLTAGE></a>";
    let t = extract_texts(body).unwrap();
    assert_eq!(t.power, strings(&["5"]));
    assert_eq!(t.voltage, strings(&["1"]));
}

#[test]
fn missing_voltage_is_reported() {
    let body = "<LiveData><POWER>100</POWER></LiveData>";
    match extract_texts(body) {
        Err(PollError::MissingField { field }) => assert_eq!(field, Field::Voltage),
        other => panic!("unexpected {:?}", other.map(|t| t.power)),
    }
}

#[test]
fn missing_power_is_reported_first() {
    let body = "<LiveData><Other>1</Other></LiveData>";
    match extract_texts(body) {
        Err(PollError::MissingField { field }) => assert_eq!(field, Field::Power),
        other => panic!("unexpected {:?}", other.map(|t| t.power)),
    }
}

#[test]
fn unclosed_tag_is_a_parse_error() {
    let body = "<LiveData><POWER>100</POWER>";
    match extract_texts(body) {
        Err(PollError::Parse { body: b }) => assert_eq!(b, body),
        other => panic!("unexpected {:?}", other.map(|t| t.power)),
    }
}

#[test]
fn non_numeric_power_is_reported() {
    let body = "<LiveData><POWER>abc</POWER><VOLTAGE>120</VOLTAGE></LiveData>";
    let t = extract_texts(body).unwrap();
    let parsed: Vec<bool> = t.power.iter().map(|s| s.parse::<f64>().is_ok()).collect();
    match check_numbers(Field::Power, &t.power, &parsed) {
        Err(PollError::NumericParse { text, field }) => {
            assert_eq!(text, "abc");
            assert_eq!(field, Field::Power);
        }
        other => panic!("unexpected {:?}", other),
    }
}

#[test]
fn first_bad_sample_is_named() {
    let texts = strings(&["1", "x", "y"]);
    match check_numbers(Field::Voltage, &texts, &vec![true, false, false]) {
        Err(PollError::NumericParse { text, field }) => {
            assert_eq!(text, "x");
            assert_eq!(field, Field::Voltage);
        }
        other => panic!("unexpected {:?}", other),
    }
}

#[test]
fn all_numeric_samples_pass() {
    assert!(check_numbers(Field::Power, &strings(&["1", "2"]), &vec![true, true]).is_ok());
    assert!(check_numbers(Field::Power, &vec![], &vec![]).is_ok());
}

#[test]
fn empty_or_failed_query_is_missing_field() {
    assert!(matches!(
        field_values(Field::Power, None),
        Err(PollError::MissingField { field: Field::Power })
    ));
    assert!(matches!(
        field_values(Field::Voltage, Some(vec![])),
        Err(PollError::MissingField { field: Field::Voltage })
    ));
    assert_eq!(field_values(Field::Power, Some(strings(&["3"]))).unwrap(), strings(&["3"]));
}

#[test]
fn both_fields_combined() {
    let t = field_texts(Some(strings(&["1"])), Some(strings(&["2"]))).unwrap();
    assert_eq!(t.power, strings(&["1"]));
    assert_eq!(t.voltage, strings(&["2"]));
    assert!(matches!(
        field_texts(None, None),
        Err(PollError::MissingField { field: Field::Power })
    ));
    assert!(matches!(
        field_texts(Some(strings(&["1"])), None),
        Err(PollError::MissingField { field: Field::Voltage })
    ));
}

#[test]
fn field_names_and_queries() {
    assert_eq!(Field::Power.name(), "POWER");
    assert_eq!(Field::Voltage.name(), "VOLTAGE");
    assert_eq!(field_query(Field::Power), "//POWER/text()");
    assert_eq!(field_query(Field::Voltage), "//VOLTAGE/text()");
}
