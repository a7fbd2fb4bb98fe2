//! What can go wrong while a request is served, and what the caller is told.

use crate::types::{PaymentRequired, PaymentRequiredView};
use vstd::prelude::*;
use vstd::string::*;

verus! {

pub type ApiResult<T> = Result<T, ApiError>;

pub const STATUS_BAD_REQUEST: u16 = 400;

pub const STATUS_PAYMENT_REQUIRED: u16 = 402;

pub const STATUS_NOT_FOUND: u16 = 404;

pub const STATUS_PRECONDITION_REQUIRED: u16 = 428;

pub const STATUS_INTERNAL_SERVER_ERROR: u16 = 500;

pub const STATUS_BAD_GATEWAY: u16 = 502;

/// An outcome other than success. `PaymentRequired` is an expected outcome
/// that carries the challenge; the others are failures. `status` is an HTTP
/// status code.
#[derive(Clone, Debug)]
pub enum ApiError {
    PaymentRequired(PaymentRequired),
    Http { status: u16, code: String, message: String },
    Supabase { status: u16, message: String },
    Upstream { status: u16, message: String },
    Config { message: String },
    Internal { message: String },
}

pub enum ApiErrorView {
    PaymentRequired(PaymentRequiredView),
    Http { status: u16, code: Seq<char>, message: Seq<char> },
    Supabase { status: u16, message: Seq<char> },
    Upstream { status: u16, message: Seq<char> },
    Config { message: Seq<char> },
    Internal { message: Seq<char> },
}

impl View for ApiError {
    type V = ApiErrorView;

    open spec fn view(&self) -> ApiErrorView {
        match self {
            ApiError::PaymentRequired(p) => ApiErrorView::PaymentRequired(p@),
            ApiError::Http { status, code, message } => ApiErrorView::Http {
                status: *status,
                code: code@,
                message: message@,
            },
            ApiError::Supabase { status, message } => ApiErrorView::Supabase {
                status: *status,
                message: message@,
            },
            ApiError::Upstream { status, message } => ApiErrorView::Upstream {
                status: *status,
                message: message@,
            },
            ApiError::Config { message } => ApiErrorView::Config { message: message@ },
            ApiError::Internal { message } => ApiErrorView::Internal { message: message@ },
        }
    }
}

/// The body sent with a failure.
#[derive(Clone, Debug)]
pub struct ErrorBody {
    pub code: String,
    pub message: String,
}

impl ApiErrorView {
    /// The HTTP status code that goes with the outcome.
    pub open spec fn status_code(self) -> u16 {
        match self {
            ApiErrorView::PaymentRequired(_) => STATUS_PAYMENT_REQUIRED,
            ApiErrorView::Http { status, .. } => status,
            ApiErrorView::Supabase { status, .. } => status,
            ApiErrorView::Upstream { status, .. } => status,
            ApiErrorView::Config { .. } => STATUS_INTERNAL_SERVER_ERROR,
            ApiErrorView::Internal { .. } => STATUS_INTERNAL_SERVER_ERROR,
        }
    }

    /// The machine-readable code of the outcome.
    pub open spec fn code(self) -> Seq<char> {
        match self {
            ApiErrorView::PaymentRequired(_) => "payment_required"@,
            ApiErrorView::Http { code, .. } => code,
            ApiErrorView::Supabase { .. } => "supabase_error"@,
            ApiErrorView::Upstream { .. } => "upstream_error"@,
            ApiErrorView::Config { .. } => "config_error"@,
            ApiErrorView::Internal { .. } => "internal_error"@,
        }
    }

    /// The message sent in the body.
    pub open spec fn message(self) -> Seq<char> {
        match self {
            ApiErrorView::PaymentRequired(_) => "payment required"@,
            ApiErrorView::Http { message, .. } => message,
            ApiErrorView::Supabase { message, .. } => message,
            ApiErrorView::Upstream { message, .. } => message,
            ApiErrorView::Config { message } => message,
            ApiErrorView::Internal { message } => message,
        }
    }

    /// The outcome as one line of text, with the kind of failure in front.
    pub open spec fn text(self) -> Seq<char> {
        match self {
            ApiErrorView::PaymentRequired(_) => "payment required"@,
            ApiErrorView::Http { message, .. } => message,
            ApiErrorView::Supabase { message, .. } => "supabase error: "@ + message,
            ApiErrorView::Upstream { message, .. } => "upstream error: "@ + message,
            ApiErrorView::Config { message } => "config error: "@ + message,
            ApiErrorView::Internal { message } => "internal error: "@ + message,
        }
    }
}

impl ApiError {
    pub fn not_found(message: &str) -> (e: Self)
        ensures
            e@ == (ApiErrorView::Http {
                status: STATUS_NOT_FOUND,
                code: "not_found"@,
                message: message@,
            }),
    {
        ApiError::Http {
            status: STATUS_NOT_FOUND,
            code: String::from_str("not_found"),
            message: String::from_str(message),
        }
    }

    pub fn validation(message: &str) -> (e: Self)
        ensures
            e@ == (ApiErrorView::Http {
                status: STATUS_BAD_REQUEST,
                code: "validation_error"@,
                message: message@,
            }),
    {
        ApiError::Http {
            status: STATUS_BAD_REQUEST,
            code: String::from_str("validation_error"),
            message: String::from_str(message),
        }
    }

    pub fn precondition(message: &str) -> (e: Self)
        ensures
            e@ == (ApiErrorView::Http {
                status: STATUS_PRECONDITION_REQUIRED,
                code: "precondition_required"@,
                message: message@,
            }),
    {
        ApiError::Http {
            status: STATUS_PRECONDITION_REQUIRED,
            code: String::from_str("precondition_required"),
            message: String::from_str(message),
        }
    }

    pub fn supabase(status: u16, message: &str) -> (e: Self)
        ensures
            e@ == (ApiErrorView::Supabase { status, message: message@ }),
    {
        ApiError::Supabase { status, message: String::from_str(message) }
    }

    pub fn upstream(status: u16, message: &str) -> (e: Self)
        ensures
            e@ == (ApiErrorView::Upstream { status, message: message@ }),
    {
        ApiError::Upstream { status, message: String::from_str(message) }
    }

    pub fn config(message: &str) -> (e: Self)
        ensures
            e@ == (ApiErrorView::Config { message: message@ }),
    {
        ApiError::Config { message: String::from_str(message) }
    }

    pub fn internal(message: &str) -> (e: Self)
        ensures
            e@ == (ApiErrorView::Internal { message: message@ }),
    {
        ApiError::Internal { message: String::from_str(message) }
    }

    /// The HTTP status code that goes with the outcome.
    pub fn status_code(&self) -> (status: u16)
        ensures
            status == self@.status_code(),
    {
        match self {
            ApiError::PaymentRequired(_) => STATUS_PAYMENT_REQUIRED,
            ApiError::Http { status, .. } => *status,
            ApiError::Supabase { status, .. } => *status,
            ApiError::Upstream { status, .. } => *status,
            ApiError::Config { .. } => STATUS_INTERNAL_SERVER_ERROR,
            ApiError::Internal { .. } => STATUS_INTERNAL_SERVER_ERROR,
        }
    }

    /// The body sent with the outcome.
    pub fn body(&self) -> (b: ErrorBody)
        ensures
            b.code@ == self@.code(),
            b.message@ == self@.message(),
    {
        match self {
            ApiError::PaymentRequired(_) => ErrorBody {
                code: String::from_str("payment_required"),
                message: String::from_str("payment required"),
            },
            ApiError::Http { code, message, .. } => ErrorBody {
                code: code.clone(),
                message: message.clone(),
            },
            ApiError::Supabase { message, .. } => ErrorBody {
                code: String::from_str("supabase_error"),
                message: message.clone(),
            },
            ApiError::Upstream { message, .. } => ErrorBody {
                code: String::from_str("upstream_error"),
                message: message.clone(),
            },
            ApiError::Config { message } => ErrorBody {
                code: String::from_str("config_error"),
                message: message.clone(),
            },
            ApiError::Internal { message } => ErrorBody {
                code: String::from_str("internal_error"),
                message: message.clone(),
            },
        }
    }

    /// The outcome as one line of text, with the kind of failure in front.
    pub fn to_string(&self) -> (s: String)
        ensures
            s@ == self@.text(),
    {
        match self {
            ApiError::PaymentRequired(_) => String::from_str("payment required"),
            ApiError::Http { message, .. } => message.clone(),
            ApiError::Supabase { message, .. } => String::from_str("supabase error: ").concat(
                message.as_str(),
            ),
            ApiError::Upstream { message, .. } => String::from_str("upstream error: ").concat(
                message.as_str(),
            ),
            ApiError::Config { message } => String::from_str("config error: ").concat(
                message.as_str(),
            ),
            ApiError::Internal { message } => String::from_str("internal error: ").concat(
                message.as_str(),
            ),
        }
    }
}

} // verus!
