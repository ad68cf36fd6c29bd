use indicato_rs::fin_error::{FinError, FinErrorType};

#[test]
fn test_fin_error() {
    let error = FinError::new(FinErrorType::InvalidInput, "Invalid input");
    assert_eq!(error.error_type, FinErrorType::InvalidInput);
    assert_eq!(error.message, "Invalid input");
    assert_eq!(error.describe(), "Error: InvalidInput - Invalid input");
    assert_eq!(
        format!("{:?}", error),
        "FinError { error_type: InvalidInput, message: \"Invalid input\" }"
    );
}

#[test]
fn divide_by_zero_kind_describes_itself() {
    let error = FinError::new(FinErrorType::DivideByZero, "zero divisor");
    assert_eq!(error.error_type, FinErrorType::DivideByZero);
    assert_eq!(error.describe(), "Error: DivideByZero - zero divisor");
}

#[test]
fn invalid_operation_kind_describes_itself() {
    let error = FinError::new(FinErrorType::InvalidOperation, "not now");
    assert_eq!(error.error_type, FinErrorType::InvalidOperation);
    assert_eq!(error.describe(), "Error: InvalidOperation - not now");
}

#[test]
fn empty_message_is_kept() {
    let error = FinError::new(FinErrorType::InvalidInput, "");
    assert_eq!(error.message, "");
    assert_eq!(error.describe(), "Error: InvalidInput - ");
}
