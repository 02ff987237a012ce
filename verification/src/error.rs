//! The gateway's error taxonomy and its mapping onto HTTP failure responses.
//!
//! Each variant carries an internal diagnostic that is never shown to the
//! caller; the response body built here holds only a fixed generic message
//! and a machine-readable type tag.

use vstd::prelude::*;

use crate::json::{view_entries, JsonValue, JsonView};

verus! {

/// A failure while handling one inbound request.
#[derive(Debug)]
pub enum AppError {
    /// The outbound call failed, the backend answered with a non-success
    /// status, or its body was not parseable structured data.
    BackendError(String),
    /// The backend body parsed but lacked fields the active provider needs.
    TransformError(String),
    /// The outbound call did not finish within the configured budget.
    TimeoutError,
    /// Any other internal failure.
    InternalError(String),
}

/// The generic message shown to callers for each failure kind.
pub open spec fn spec_display_message(e: AppError) -> Seq<char> {
    match e {
        AppError::BackendError(_) => "Backend service unavailable"@,
        AppError::TransformError(_) => "Failed to transform request/response"@,
        AppError::TimeoutError => "Request timeout"@,
        AppError::InternalError(_) => "Internal server error"@,
    }
}

/// The HTTP status each failure kind is surfaced as.
pub open spec fn spec_status_code(e: AppError) -> u16 {
    match e {
        AppError::BackendError(_) => 502,
        AppError::TransformError(_) => 500,
        AppError::TimeoutError => 504,
        AppError::InternalError(_) => 500,
    }
}

/// The machine-readable type tag for each failure kind.
pub open spec fn spec_error_type(e: AppError) -> Seq<char> {
    match e {
        AppError::BackendError(_) => "backend_error"@,
        AppError::TransformError(_) => "transform_error"@,
        AppError::TimeoutError => "timeout_error"@,
        AppError::InternalError(_) => "internal_error"@,
    }
}

/// The sanitized body returned to the caller: only the generic message and
/// the type tag, never the internal diagnostic.
pub open spec fn spec_error_body(e: AppError) -> JsonView {
    JsonView::Object(
        seq![
            (
                "error"@,
                JsonView::Object(
                    seq![
                        ("message"@, JsonView::Text(spec_display_message(e))),
                        ("type"@, JsonView::Text(spec_error_type(e))),
                    ],
                ),
            ),
        ],
    )
}

impl AppError {
    /// The generic, caller-facing message for this failure.
    pub fn display_message(&self) -> (s: String)
        ensures
            s@ == spec_display_message(*self),
    {
        match self {
            AppError::BackendError(_) => "Backend service unavailable".to_owned(),
            AppError::TransformError(_) => "Failed to transform request/response".to_owned(),
            AppError::TimeoutError => "Request timeout".to_owned(),
            AppError::InternalError(_) => "Internal server error".to_owned(),
        }
    }

    /// The HTTP status this failure is surfaced as.
    pub fn status_code(&self) -> (c: u16)
        ensures
            c == spec_status_code(*self),
    {
        match self {
            AppError::BackendError(_) => 502,
            AppError::TransformError(_) => 500,
            AppError::TimeoutError => 504,
            AppError::InternalError(_) => 500,
        }
    }

    /// The machine-readable type tag of this failure.
    pub fn error_type(&self) -> (s: String)
        ensures
            s@ == spec_error_type(*self),
    {
        match self {
            AppError::BackendError(_) => "backend_error".to_owned(),
            AppError::TransformError(_) => "transform_error".to_owned(),
            AppError::TimeoutError => "timeout_error".to_owned(),
            AppError::InternalError(_) => "internal_error".to_owned(),
        }
    }

    /// The internal diagnostic this failure carries, for logging only.
    pub fn detail(&self) -> (r: Option<&String>)
        ensures
            match *self {
                AppError::BackendError(d) => r matches Some(s) && s@ == d@,
                AppError::TransformError(d) => r matches Some(s) && s@ == d@,
                AppError::TimeoutError => r is None,
                AppError::InternalError(d) => r matches Some(s) && s@ == d@,
            },
    {
        match self {
            AppError::BackendError(d) => Some(d),
            AppError::TransformError(d) => Some(d),
            AppError::TimeoutError => None,
            AppError::InternalError(d) => Some(d),
        }
    }

    /// The sanitized failure body returned to the caller. The internal
    /// diagnostic carried by the variant does not appear in it.
    pub fn response_body(&self) -> (v: JsonValue)
        ensures
            v@ == spec_error_body(*self),
    {
        let inner: Vec<(String, JsonValue)> = vec![
            ("message".to_owned(), JsonValue::Text(self.display_message())),
            ("type".to_owned(), JsonValue::Text(self.error_type())),
        ];
        proof {
            crate::json::lemma_view_entries(inner@);
            assert(inner@.len() == 2);
            assert(inner@[0].0@ == "message"@);
            assert(inner@[0].1@ == JsonView::Text(spec_display_message(*self)));
            assert(view_entries(inner@)[0] == (inner@[0].0@, inner@[0].1@));
            assert(inner@[1].0@ == "type"@);
            assert(inner@[1].1@ == JsonView::Text(spec_error_type(*self)));
            assert(view_entries(inner@)[1] == (inner@[1].0@, inner@[1].1@));
            assert(view_entries(inner@) =~~= seq![
                ("message"@, JsonView::Text(spec_display_message(*self))),
                ("type"@, JsonView::Text(spec_error_type(*self))),
            ]);
        }
        let outer: Vec<(String, JsonValue)> = vec![
            ("error".to_owned(), JsonValue::Object(inner)),
        ];
        proof {
            crate::json::lemma_view_entries(outer@);
            assert(view_entries(outer@) =~~= seq![
                (
                    "error"@,
                    JsonView::Object(
                        seq![
                            ("message"@, JsonView::Text(spec_display_message(*self))),
                            ("type"@, JsonView::Text(spec_error_type(*self))),
                        ],
                    ),
                ),
            ]);
        }
        JsonValue::Object(outer)
    }
}

} // verus!
