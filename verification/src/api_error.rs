//! The uniform error taxonomy shared by the storage engine and the
//! remote storage client.
//!
//! An error is a closed kind together with optional diagnostic context:
//! a free-text message, a free-text info string (typically the store name)
//! and the name of the originating method. Context is attached after
//! construction through builder-style methods that return the enriched value.

use vstd::prelude::*;

verus! {

/// The closed set of failure kinds.
#[derive(Clone, Copy, Debug, PartialEq, Eq, Structural)]
pub enum ApiErrorKind {
    NotFound,
    Duplicate,
    Unauthorized,
    Unexpected,
}

/// A discriminated failure value carrying optional diagnostic context.
#[derive(Clone, Debug)]
pub struct ApiError {
    pub kind: ApiErrorKind,
    pub message: Option<String>,
    pub info: Option<String>,
    pub method_name: Option<String>,
}

/// True when the error has the given kind and no context attached yet.
pub open spec fn is_bare_error(e: ApiError, kind: ApiErrorKind) -> bool {
    &&& e.kind == kind
    &&& e.message is None
    &&& e.info is None
    &&& e.method_name is None
}

impl ApiError {
    /// A bare `NotFound` error.
    pub fn not_found() -> (e: Self)
        ensures
            is_bare_error(e, ApiErrorKind::NotFound),
    {
        ApiError { kind: ApiErrorKind::NotFound, message: None, info: None, method_name: None }
    }

    /// A bare `Duplicate` error.
    pub fn duplicate() -> (e: Self)
        ensures
            is_bare_error(e, ApiErrorKind::Duplicate),
    {
        ApiError { kind: ApiErrorKind::Duplicate, message: None, info: None, method_name: None }
    }

    /// A bare `Unauthorized` error.
    pub fn unauthorized() -> (e: Self)
        ensures
            is_bare_error(e, ApiErrorKind::Unauthorized),
    {
        ApiError { kind: ApiErrorKind::Unauthorized, message: None, info: None, method_name: None }
    }

    /// A bare `Unexpected` error.
    pub fn unexpected() -> (e: Self)
        ensures
            is_bare_error(e, ApiErrorKind::Unexpected),
    {
        ApiError { kind: ApiErrorKind::Unexpected, message: None, info: None, method_name: None }
    }

    /// The same error with the free-text message replaced.
    pub fn add_message(self, message: &str) -> (e: Self)
        ensures
            e.kind == self.kind,
            e.message matches Some(m) && m@ == message@,
            e.info == self.info,
            e.method_name == self.method_name,
    {
        ApiError { message: Some(String::from_str(message)), ..self }
    }

    /// The same error with the info string replaced.
    pub fn add_info(self, info: &str) -> (e: Self)
        ensures
            e.kind == self.kind,
            e.message == self.message,
            e.info matches Some(i) && i@ == info@,
            e.method_name == self.method_name,
    {
        ApiError { info: Some(String::from_str(info)), ..self }
    }

    /// The same error with the originating method name replaced.
    pub fn add_method_name(self, method_name: &str) -> (e: Self)
        ensures
            e.kind == self.kind,
            e.message == self.message,
            e.info == self.info,
            e.method_name matches Some(m) && m@ == method_name@,
    {
        ApiError { method_name: Some(String::from_str(method_name)), ..self }
    }

    /// A short text for the kind alone.
    pub fn kind_text(&self) -> (r: String)
        ensures
            r@ == kind_text_spec(self.kind),
    {
        match self.kind {
            ApiErrorKind::NotFound => String::from_str("not_found"),
            ApiErrorKind::Duplicate => String::from_str("duplicate"),
            ApiErrorKind::Unauthorized => String::from_str("unauthorized"),
            ApiErrorKind::Unexpected => String::from_str("unexpected"),
        }
    }

    /// A human-readable rendering: the kind text, followed by the message
    /// when one is attached.
    pub fn to_text(&self) -> (r: String)
        ensures
            r@ == to_text_spec(*self),
    {
        let mut out = self.kind_text();
        match &self.message {
            Some(m) => {
                out.append(": ");
                out.append(m.as_str());
            },
            None => {},
        }
        out
    }
}

/// The kind rendered as text.
pub open spec fn kind_text_spec(kind: ApiErrorKind) -> Seq<char> {
    match kind {
        ApiErrorKind::NotFound => "not_found"@,
        ApiErrorKind::Duplicate => "duplicate"@,
        ApiErrorKind::Unauthorized => "unauthorized"@,
        ApiErrorKind::Unexpected => "unexpected"@,
    }
}

/// The whole error rendered as text.
pub open spec fn to_text_spec(e: ApiError) -> Seq<char> {
    match e.message {
        Some(m) => kind_text_spec(e.kind) + ": "@ + m@,
        None => kind_text_spec(e.kind),
    }
}

/// The result type of every fallible operation in this crate.
pub type CanisterResult<T> = Result<T, ApiError>;

} // verus!
