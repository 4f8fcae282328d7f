//! Operand selection, the summary line, and the error descriptions.

use nine_eleven::errors::RunError;
use nine_eleven::inputs::{select_operands, summary_line, DEFAULT_LHS_BITS, DEFAULT_RHS_BITS};

#[test]
fn no_arguments_fall_back_to_both_defaults() {
    let parsed: Vec<u64> = Vec::new();
    assert_eq!(select_operands(&parsed), (DEFAULT_LHS_BITS, DEFAULT_RHS_BITS));
}

#[test]
fn one_argument_defaults_the_second_operand() {
    let parsed = vec![10.0f64.to_bits()];
    assert_eq!(select_operands(&parsed), (10.0f64.to_bits(), DEFAULT_RHS_BITS));
}

#[test]
fn two_arguments_are_taken_in_order() {
    let parsed = vec![10.0f64.to_bits(), 5.0f64.to_bits()];
    assert_eq!(select_operands(&parsed), (10.0f64.to_bits(), 5.0f64.to_bits()));
}

#[test]
fn further_arguments_are_ignored() {
    let parsed = vec![1.0f64.to_bits(), 2.0f64.to_bits(), 3.0f64.to_bits()];
    assert_eq!(select_operands(&parsed), (1.0f64.to_bits(), 2.0f64.to_bits()));
}

#[test]
fn summary_line_for_greater_pair() {
    let lhs = format!("{}", 10.0f64);
    let rhs = format!("{}", 5.0f64);
    assert_eq!(summary_line(&lhs, &rhs, true), "Is 10 larger than 5 ? true");
}

#[test]
fn summary_line_for_default_pair() {
    let lhs = format!("{}", f64::from_bits(DEFAULT_LHS_BITS));
    let rhs = format!("{}", f64::from_bits(DEFAULT_RHS_BITS));
    assert_eq!(summary_line(&lhs, &rhs, false), "Is 9.11 larger than 9.9 ? false");
}

#[test]
fn parse_error_description_names_the_argument() {
    let parse_message = match "abc".parse::<f64>() {
        Ok(_) => panic!("'abc' must not parse as a float"),
        Err(e) => e.to_string(),
    };
    let err = RunError::ArgumentParse {
        argument: String::from("abc"),
        message: parse_message.clone(),
    };
    let line = err.description();
    assert_eq!(line, format!("Error parsing 'abc': {}", parse_message));
    assert!(line.contains("abc"));
}

#[test]
fn stage_error_descriptions_name_their_stage() {
    assert_eq!(RunError::BuildFailure.description(), "generate comparison error");
    assert_eq!(
        RunError::MalformedRepresentation.description(),
        "malformed function representation"
    );
    assert_eq!(
        RunError::CompilationFailure.description(),
        "could not compile the function representation"
    );
    assert_eq!(RunError::SymbolNotFound.description(), "compiled entry point not found");
}
