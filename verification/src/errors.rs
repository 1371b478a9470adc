//! The error type of the integration.
use vstd::prelude::*;

use crate::text::{append_str, string_of};

verus! {

#[verifier::external_type_specification]
#[verifier::external_body]
pub struct ExModuleError(apcore::ModuleError);

#[verifier::external_type_specification]
#[verifier::external_body]
pub struct ExRegexError(regex::Error);

#[verifier::external_type_specification]
#[verifier::external_body]
pub struct ExJsonError(serde_json::Error);

/// Errors of the integration's operations.
#[derive(Debug)]
pub enum AxumApcoreError {
    /// Configuration error.
    Config(String),
    /// Scanner error.
    Scanner(String),
    /// Registration error.
    Registration(String),
    /// Context extraction error.
    Context(String),
    /// Module execution error.
    Execution(apcore::ModuleError),
    /// Invalid include or exclude pattern.
    Regex(regex::Error),
    /// JSON error.
    Json(serde_json::Error),
}

/// The message a module error carries (its `message` field).
pub uninterp spec fn module_error_message_of(e: apcore::ModuleError) -> Seq<char>;

/// The display text of a module error (`ModuleError`'s `Display`).
pub uninterp spec fn module_error_display(e: apcore::ModuleError) -> Seq<char>;

/// The display text of a pattern error (`regex::Error`'s `Display`).
pub uninterp spec fn regex_error_display(e: regex::Error) -> Seq<char>;

/// The display text of a JSON error (`serde_json::Error`'s `Display`).
pub uninterp spec fn json_error_display(e: serde_json::Error) -> Seq<char>;

/// Builds a module error with the general internal error code
/// (`apcore::ModuleError::new` with `ErrorCode::GeneralInternalError`),
/// which carries the message as it is given.
#[verifier::external_body]
pub(crate) fn internal_module_error(message: String) -> (r: apcore::ModuleError)
    ensures
        module_error_message_of(r) == message@,
{
    apcore::ModuleError::new(apcore::ErrorCode::GeneralInternalError, message)
}

/// The message of a module error (its `message` field).
#[verifier::external_body]
fn module_error_message(e: &apcore::ModuleError) -> (r: String)
    ensures
        r@ == module_error_message_of(*e),
{
    e.message.clone()
}

/// The display text of a module error (`ModuleError`'s `Display`).
#[verifier::external_body]
fn module_error_text(e: &apcore::ModuleError) -> (r: String)
    ensures
        r@ == module_error_display(*e),
{
    e.to_string()
}

/// The display text of a pattern error (`regex::Error`'s `Display`).
#[verifier::external_body]
fn regex_error_text(e: &regex::Error) -> (r: String)
    ensures
        r@ == regex_error_display(*e),
{
    e.to_string()
}

/// The display text of a JSON error (`serde_json::Error`'s `Display`).
#[verifier::external_body]
fn json_error_text(e: &serde_json::Error) -> (r: String)
    ensures
        r@ == json_error_display(*e),
{
    e.to_string()
}

/// The message an error is answered with: its own text, the module
/// error's message, or the display text of the pattern or JSON error.
pub open spec fn message_of(e: AxumApcoreError) -> Seq<char> {
    match e {
        AxumApcoreError::Config(m) => m@,
        AxumApcoreError::Scanner(m) => m@,
        AxumApcoreError::Registration(m) => m@,
        AxumApcoreError::Context(m) => m@,
        AxumApcoreError::Execution(x) => module_error_message_of(x),
        AxumApcoreError::Regex(x) => regex_error_display(x),
        AxumApcoreError::Json(x) => json_error_display(x),
    }
}

/// The detail that follows an error's heading in its text: its own text,
/// or the display text of the error it carries.
pub open spec fn detail_of(e: AxumApcoreError) -> Seq<char> {
    match e {
        AxumApcoreError::Execution(x) => module_error_display(x),
        _ => message_of(e),
    }
}

/// The HTTP status an error is answered with: 401 for a context error, 400
/// for a pattern or JSON error, 500 for the others.
pub open spec fn status_of(e: AxumApcoreError) -> u16 {
    match e {
        AxumApcoreError::Context(_) => 401,
        AxumApcoreError::Regex(_) | AxumApcoreError::Json(_) => 400,
        _ => 500,
    }
}

/// The heading an error's text starts with.
pub open spec fn heading_of(e: AxumApcoreError) -> Seq<char> {
    match e {
        AxumApcoreError::Config(_) => "Configuration error: "@,
        AxumApcoreError::Scanner(_) => "Scanner error: "@,
        AxumApcoreError::Registration(_) => "Registration error: "@,
        AxumApcoreError::Context(_) => "Context extraction error: "@,
        AxumApcoreError::Execution(_) => "Module execution error: "@,
        AxumApcoreError::Regex(_) => "Regex error: "@,
        AxumApcoreError::Json(_) => "JSON error: "@,
    }
}

impl AxumApcoreError {
    /// The HTTP status code the error is answered with.
    pub fn status_code(&self) -> (r: u16)
        ensures
            r == status_of(*self),
    {
        match self {
            AxumApcoreError::Context(_) => 401,
            AxumApcoreError::Regex(_) | AxumApcoreError::Json(_) => 400,
            _ => 500,
        }
    }

    /// The message an error is answered with: its own text, the module
    /// error's message, or the display text of the pattern or JSON error.
    pub fn message(&self) -> (r: String)
        ensures
            r@ == message_of(*self),
    {
        match self {
            AxumApcoreError::Config(m) => m.clone(),
            AxumApcoreError::Scanner(m) => m.clone(),
            AxumApcoreError::Registration(m) => m.clone(),
            AxumApcoreError::Context(m) => m.clone(),
            AxumApcoreError::Execution(e) => module_error_message(e),
            AxumApcoreError::Regex(e) => regex_error_text(e),
            AxumApcoreError::Json(e) => json_error_text(e),
        }
    }

    /// The error's text: its heading, then its own text or the display
    /// text of the error it carries.
    pub fn to_text(&self) -> (r: String)
        ensures
            r@ == heading_of(*self) + detail_of(*self),
    {
        let (mut r, detail) = match self {
            AxumApcoreError::Config(m) => (string_of("Configuration error: "), m.clone()),
            AxumApcoreError::Scanner(m) => (string_of("Scanner error: "), m.clone()),
            AxumApcoreError::Registration(m) => (string_of("Registration error: "), m.clone()),
            AxumApcoreError::Context(m) => (string_of("Context extraction error: "), m.clone()),
            AxumApcoreError::Execution(e) => (string_of("Module execution error: "), module_error_text(e)),
            AxumApcoreError::Regex(e) => (string_of("Regex error: "), regex_error_text(e)),
            AxumApcoreError::Json(e) => (string_of("JSON error: "), json_error_text(e)),
        };
        append_str(&mut r, detail.as_str());
        r
    }
}

} // verus!
