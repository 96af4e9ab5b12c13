use std::collections::HashMap;

use questions_answers::errors::Error;
use questions_answers::text::{decimal_string, signed_decimal_string};
use questions_answers::types::answers::AnswerId;
use questions_answers::types::pagination::{extract_pagination, requested_page, Pagination};
use questions_answers::types::questions::QuestionId;

fn params(pairs: &[(&str, &str)]) -> HashMap<String, String> {
    let mut params = HashMap::new();
    for (key, value) in pairs {
        params.insert(key.to_string(), value.to_string());
    }
    params
}

#[test]
fn valid_pagination() {
    let mut params = HashMap::new();

    params.insert("limit".to_string(), String::from("1"));
    params.insert("offset".to_string(), String::from("1"));

    let result = extract_pagination(params);

    assert_eq!(
        result.unwrap(),
        Pagination {
            limit: Some(1),
            offset: 1
        }
    );
}

#[test]
fn missing_offset_parameter() {
    let mut params = HashMap::new();

    params.insert("limit".to_string(), String::from("1"));

    let result = extract_pagination(params);

    assert_eq!(
        format!("{}", result.unwrap_err().to_text()),
        format!("{}", Error::MissingParameters.to_text())
    );
}

#[test]
fn missing_limit_parameter() {
    let mut params = HashMap::new();

    params.insert("offset".to_string(), String::from("1"));

    let result = extract_pagination(params);

    assert_eq!(
        format!("{}", result.unwrap_err().to_text()),
        format!("{}", Error::MissingParameters.to_text())
    );
}

#[test]
fn parse_limit_parameter_error() {
    let mut params = HashMap::new();

    params.insert("limit".to_string(), String::from("a"));
    params.insert("offset".to_string(), String::from("5"));

    let result = extract_pagination(params);
    let parse_int_error = "a".parse::<u32>();

    assert_eq!(
        format!("{}", result.unwrap_err().to_text()),
        format!("{}", Error::ParseError(parse_int_error.unwrap_err()).to_text())
    );
}

#[test]
fn parse_offset_parameter_error() {
    let mut params = HashMap::new();

    params.insert("limit".to_string(), String::from("5"));
    params.insert("offset".to_string(), String::from("a"));

    let result = extract_pagination(params);
    let parse_int_error = "a".parse::<u32>();

    assert_eq!(
        format!("{}", result.unwrap_err().to_text()),
        format!("{}", Error::ParseError(parse_int_error.unwrap_err()).to_text())
    );
}

#[test]
fn parse_error_message_is_the_standard_one() {
    let result = extract_pagination(params(&[("limit", "a"), ("offset", "5")]));
    assert_eq!(
        result.unwrap_err().to_text(),
        "Cannot parse parameter: invalid digit found in string"
    );
}

#[test]
fn missing_parameters_message() {
    let result = extract_pagination(params(&[("limit", "1")]));
    let err = result.unwrap_err();
    assert!(matches!(err, Error::MissingParameters));
    assert_eq!(err.to_text(), "Missing parameters");
}

#[test]
fn pagination_round_trip_of_written_numbers() {
    for (limit, offset) in [(0u32, 0u32), (1, 10), (4294967295, 4294967295), (25, 100)] {
        let result = extract_pagination(params(&[
            ("limit", &decimal_string(limit as u64)),
            ("offset", &decimal_string(offset as u64)),
        ]));
        assert_eq!(
            result.unwrap(),
            Pagination {
                limit: Some(limit),
                offset
            }
        );
    }
}

#[test]
fn pagination_accepts_plus_sign_and_leading_zeros() {
    let result = extract_pagination(params(&[("limit", "+5"), ("offset", "007")]));
    assert_eq!(
        result.unwrap(),
        Pagination {
            limit: Some(5),
            offset: 7
        }
    );
}

#[test]
fn pagination_refuses_what_is_no_u32() {
    for bad in ["", "+", "-1", " 1", "1 ", "1_0", "4294967296", "1.5", "0x10"] {
        let result = extract_pagination(params(&[("limit", bad), ("offset", "0")]));
        assert!(
            matches!(result, Err(Error::ParseError(_))),
            "limit {:?}",
            bad
        );
        let result = extract_pagination(params(&[("limit", "0"), ("offset", bad)]));
        assert!(
            matches!(result, Err(Error::ParseError(_))),
            "offset {:?}",
            bad
        );
    }
}

#[test]
fn pagination_missing_wins_over_unreadable() {
    let result = extract_pagination(params(&[("limit", "a")]));
    assert!(matches!(result, Err(Error::MissingParameters)));
    let result = extract_pagination(params(&[("other", "1")]));
    assert!(matches!(result, Err(Error::MissingParameters)));
}

#[test]
fn pagination_ignores_other_parameters() {
    let result = extract_pagination(params(&[("limit", "2"), ("offset", "3"), ("sort", "x")]));
    assert_eq!(
        result.unwrap(),
        Pagination {
            limit: Some(2),
            offset: 3
        }
    );
}

#[test]
fn default_pagination_is_the_whole_listing() {
    assert_eq!(
        Pagination::default(),
        Pagination {
            limit: None,
            offset: 0
        }
    );
}

#[test]
fn requested_page_without_parameters_is_the_default() {
    assert_eq!(requested_page(HashMap::new()).unwrap(), Pagination::default());
}

#[test]
fn requested_page_with_parameters_reads_them() {
    assert_eq!(
        requested_page(params(&[("limit", "3"), ("offset", "4")])).unwrap(),
        Pagination {
            limit: Some(3),
            offset: 4
        }
    );
    assert!(matches!(
        requested_page(params(&[("limit", "3")])),
        Err(Error::MissingParameters)
    ));
    assert!(matches!(
        requested_page(params(&[("limit", "x"), ("offset", "4")])),
        Err(Error::ParseError(_))
    ));
}

#[test]
fn decimal_string_values() {
    assert_eq!(decimal_string(0), "0");
    assert_eq!(decimal_string(9), "9");
    assert_eq!(decimal_string(10), "10");
    assert_eq!(decimal_string(23505), "23505");
    assert_eq!(decimal_string(u64::MAX), "18446744073709551615");
}

#[test]
fn signed_decimal_string_values() {
    assert_eq!(signed_decimal_string(0), "0");
    assert_eq!(signed_decimal_string(42), "42");
    assert_eq!(signed_decimal_string(-42), "-42");
    assert_eq!(signed_decimal_string(i32::MAX), "2147483647");
    assert_eq!(signed_decimal_string(i32::MIN), "-2147483648");
}

#[test]
fn ids_as_text() {
    assert_eq!(QuestionId(7).to_text(), "id: 7");
    assert_eq!(AnswerId(-3).to_text(), "id: -3");
}
