use vstd::prelude::*;
use vstd::string::StringExecFns;

verus! {

/// The kind of failure a signal constructor can report. Only `InvalidInput`
/// is produced by the current signals; the other kinds are reserved.
#[derive(Debug, PartialEq, Eq, Structural)]
pub enum FinErrorType {
    DivideByZero,
    InvalidInput,
    InvalidOperation,
}

/// An error value carrying a kind and a human-readable message.
///
/// Construction of a signal returns either a usable instance or a `FinError`
/// with kind `InvalidInput` when a required period argument is 0.
#[derive(Debug)]
pub struct FinError {
    pub error_type: FinErrorType,
    pub message: String,
}

/// The label under which each error kind is reported.
pub open spec fn kind_label(error_type: FinErrorType) -> Seq<char> {
    match error_type {
        FinErrorType::DivideByZero => "DivideByZero"@,
        FinErrorType::InvalidInput => "InvalidInput"@,
        FinErrorType::InvalidOperation => "InvalidOperation"@,
    }
}

impl FinError {
    pub fn new(error_type: FinErrorType, message: &str) -> (result: Self)
        ensures
            result.error_type == error_type,
            result.message@ == message@,
    {
        Self { error_type, message: message.to_string() }
    }

    /// Renders the error as `Error: <kind> - <message>`.
    pub fn describe(&self) -> (result: String)
        ensures
            result@ == "Error: "@ + kind_label(self.error_type) + " - "@ + self.message@,
    {
        let label: &str = match self.error_type {
            FinErrorType::DivideByZero => "DivideByZero",
            FinErrorType::InvalidInput => "InvalidInput",
            FinErrorType::InvalidOperation => "InvalidOperation",
        };
        let mut text = "Error: ".to_string();
        text.append(label);
        text.append(" - ");
        text.append(self.message.as_str());
        text
    }
}

} // verus!
