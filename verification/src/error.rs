//! The error model: one kind, two error values, a message and a detail mapping.

use crate::context::{Context, ValueModel};
use vstd::prelude::*;
use vstd::string::StringExecFns;

verus! {

/// The kind that every failure of this library falls under.
#[derive(Clone, Copy, Debug, PartialEq, Eq)]
pub enum ErrorKind {
    InvalidConfiguration,
}

impl ErrorKind {
    /// The kind's name.
    pub fn name(&self) -> (r: &'static str)
        ensures
            r@ == "InvalidConfiguration"@,
    {
        "InvalidConfiguration"
    }

    /// The kind's status code.
    pub fn code(&self) -> (r: u16)
        ensures
            r == 400,
    {
        400
    }

    /// The kind in words; it is the message of an error that was given none.
    pub fn description(&self) -> (r: &'static str)
        ensures
            r@ == "Invalid Configuration"@,
    {
        "Invalid Configuration"
    }

    /// Who is held to have caused it: the client below code 500, the server from there on.
    pub fn side(&self) -> (r: &'static str)
        ensures
            r@ == "Client"@,
    {
        if self.code() < 500 {
            "Client"
        } else {
            "Server"
        }
    }
}

/// The two error values.
#[derive(Clone, Copy, Debug, PartialEq, Eq)]
pub enum ErrorValue {
    /// A file could not be opened, created, read, written or understood.
    ConfigurationFileError,
    /// The vault holds no data, or none under the alias asked for.
    VaultSecretError,
}

/// The class of an error value: side, kind and value name, joined by `::`.
pub open spec fn class_text(value: ErrorValue) -> Seq<char> {
    "Client"@ + "::"@ + "InvalidConfiguration"@ + "::"@ + match value {
        ErrorValue::ConfigurationFileError => "ConfigurationFileError"@,
        ErrorValue::VaultSecretError => "VaultSecretError"@,
    }
}

/// The one line that describes an error: class, code and message.
pub open spec fn display_text(e: ErrorModel) -> Seq<char> {
    class_text(e.value) + " ("@ + "400"@ + ") - "@ + e.message
}

impl ErrorValue {
    /// The kind of the value.
    pub fn kind(&self) -> (r: ErrorKind)
        ensures
            r == ErrorKind::InvalidConfiguration,
    {
        ErrorKind::InvalidConfiguration
    }

    /// The value's name.
    pub fn name(&self) -> (r: &'static str)
        ensures
            r@ == match *self {
                ErrorValue::ConfigurationFileError => "ConfigurationFileError"@,
                ErrorValue::VaultSecretError => "VaultSecretError"@,
            },
    {
        match self {
            ErrorValue::ConfigurationFileError => "ConfigurationFileError",
            ErrorValue::VaultSecretError => "VaultSecretError",
        }
    }
}

/// What an `Error` stands for.
pub struct ErrorModel {
    pub value: ErrorValue,
    pub message: Seq<char>,
    pub details: Map<Seq<char>, ValueModel>,
}

/// A failure: which error value, a message for people, details for machines.
#[derive(Debug)]
pub struct Error {
    value: ErrorValue,
    message: String,
    details: Context,
}

impl View for Error {
    type V = ErrorModel;

    closed spec fn view(&self) -> ErrorModel {
        ErrorModel { value: self.value, message: self.message@, details: self.details@ }
    }
}

impl Clone for Error {
    fn clone(&self) -> (r: Self)
        ensures
            r@ == self@,
    {
        Error { value: self.value, message: self.message.clone(), details: self.details.clone() }
    }
}

impl Error {
    /// An error of the given value with the kind's description as its
    /// message and no details.
    pub fn new(value: ErrorValue) -> (e: Error)
        ensures
            e@ == (ErrorModel {
                value,
                message: "Invalid Configuration"@,
                details: Map::empty(),
            }),
    {
        Error {
            value,
            message: String::from_str(value.kind().description()),
            details: Context::new(),
        }
    }

    /// The same error with another message.
    pub fn with_message(self, message: String) -> (e: Error)
        ensures
            e@ == (ErrorModel { message: message@, ..self@ }),
    {
        Error { value: self.value, message, details: self.details }
    }

    /// The same error with other details.
    pub fn with_details(self, details: Context) -> (e: Error)
        ensures
            e@ == (ErrorModel { details: details@, ..self@ }),
    {
        Error { value: self.value, message: self.message, details }
    }

    /// Which of the two error values this is.
    pub fn value(&self) -> (r: ErrorValue)
        ensures
            r == self@.value,
    {
        self.value
    }

    /// The kind of the error.
    pub fn kind(&self) -> (r: ErrorKind)
        ensures
            r == ErrorKind::InvalidConfiguration,
    {
        self.value.kind()
    }

    /// The status code.
    pub fn code(&self) -> (r: u16)
        ensures
            r == 400,
    {
        self.value.kind().code()
    }

    /// The class: side, kind and value name, joined by `::`.
    pub fn class(&self) -> (r: String)
        ensures
            r@ == class_text(self@.value),
    {
        let kind = self.value.kind();
        let r = String::from_str(kind.side()).concat("::").concat(kind.name()).concat("::").concat(
            self.value.name(),
        );
        r
    }

    /// The message.
    pub fn message(&self) -> (r: &str)
        ensures
            r@ == self@.message,
    {
        self.message.as_str()
    }

    /// The details.
    pub fn details_ref(&self) -> (r: &Context)
        ensures
            r@ == self@.details,
    {
        &self.details
    }

    /// A copy of the details.
    pub fn details(&self) -> (r: Context)
        ensures
            r@ == self@.details,
    {
        self.details.clone()
    }

    /// The one line that describes the error: class, code and message.
    pub fn to_text(&self) -> (r: String)
        ensures
            r@ == display_text(self@),
    {
        self.class().concat(" (").concat("400").concat(") - ").concat(self.message.as_str())
    }
}

} // verus!
