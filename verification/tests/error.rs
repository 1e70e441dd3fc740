//! Tests of the checks on the inputs and of their messages.

use olfarve::{check_inputs, error_message, ErrorKind};

#[test]
fn non_negative_inputs_are_accepted() {
    assert_eq!(check_inputs(false, false), Ok(()));
}

#[test]
fn negative_absorption_is_rejected() {
    assert_eq!(check_inputs(true, false), Err(ErrorKind::NegativeAbsorption430));
}

#[test]
fn negative_path_length_is_rejected() {
    assert_eq!(check_inputs(false, true), Err(ErrorKind::NegativePathLength));
}

#[test]
fn absorption_is_reported_before_path_length() {
    assert_eq!(check_inputs(true, true), Err(ErrorKind::NegativeAbsorption430));
}

#[test]
fn messages_report_the_offending_value() {
    assert_eq!(
        error_message(ErrorKind::NegativeAbsorption430, "-0.1"),
        "absorption_430 must not be negative, got -0.1"
    );
    assert_eq!(
        error_message(ErrorKind::NegativePathLength, "-1"),
        "path_length_cm must not be negative, got -1"
    );
}

#[test]
fn message_with_rendered_float() {
    let value: f64 = -2.5;
    assert_eq!(
        error_message(ErrorKind::NegativePathLength, &format!("{value}")),
        "path_length_cm must not be negative, got -2.5"
    );
}
