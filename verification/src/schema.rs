//! The response envelope shared by every operation, and the request bodies.

use vstd::prelude::*;

pub mod budget;
pub mod category;
pub mod expense;
pub mod notification;
pub mod user;

pub use budget::{CreateBudgetSchema, UpdateBudgetSchema};
pub use category::CreateCategorySchema;
pub use expense::{CreateExpenseSchema, UpdateExpenseSchema};
pub use notification::NotificationSchema;
pub use user::{CreateUserSchema, LoginUserSchema};

verus! {

/// A calendar day, counted in days from 1 January of year 1.
pub type DayNumber = i32;

/// An instant, counted in microseconds from the start of 1970 (UTC).
pub type Instant = i64;

/// Status of a successful request.
pub const STATUS_OK: u16 = 200;

/// Status of a request that created something.
pub const STATUS_CREATED: u16 = 201;

/// Status of a request whose input was refused.
pub const STATUS_BAD_REQUEST: u16 = 400;

/// Status of a request without a valid credential.
pub const STATUS_UNAUTHORIZED: u16 = 401;

/// Status of a request for something that does not exist, or is not the caller's.
pub const STATUS_NOT_FOUND: u16 = 404;

/// Status of a request that collides with what is stored.
pub const STATUS_CONFLICT: u16 = 409;

/// Status of a request that failed inside the service.
pub const STATUS_INTERNAL_SERVER_ERROR: u16 = 500;

/// `serde_json::Value`, a JSON document. The library carries such values and
/// never looks inside.
#[verifier::external_type_specification]
#[verifier::external_body]
pub struct ExJsonValue(serde_json::Value);

/// The envelope in which every answer leaves the service: either data with a
/// status, or a message with a status.
#[derive(Debug, Clone, PartialEq, Eq)]
pub struct ApiResponse<T> {
    pub success: bool,
    pub message: Option<String>,
    pub data: Option<T>,
    pub status: u16,
}

/// An error envelope: it carries no data.
pub type ApiError = ApiResponse<serde_json::Value>;

/// What an operation returns: the envelope of its data, or an error envelope.
pub type ApiResult<T> = Result<ApiResponse<T>, ApiResponse<serde_json::Value>>;

/// The mathematical value of an envelope.
pub struct Envelope<T> {
    pub success: bool,
    pub message: Option<Seq<char>>,
    pub data: Option<T>,
    pub status: u16,
}

impl<T> Envelope<T> {
    /// The success envelope for `data` under `status`.
    pub open spec fn of_data(data: T, status: u16) -> Self {
        Envelope { success: true, message: None, data: Some(data), status }
    }

    /// The error envelope for `message` under `status`.
    pub open spec fn of_error(message: Seq<char>, status: u16) -> Self {
        Envelope { success: false, message: Some(message), data: None, status }
    }
}

impl<T> View for ApiResponse<T> {
    type V = Envelope<T>;

    open spec fn view(&self) -> Envelope<T> {
        Envelope {
            success: self.success,
            message: match self.message {
                Some(m) => Some(m@),
                None => None,
            },
            data: self.data,
            status: self.status,
        }
    }
}

impl<T> ApiResponse<T> {
    /// The envelope is a success carrying `data` under `status`.
    pub open spec fn is_success_with(&self, data: T, status: u16) -> bool {
        self@ == Envelope::of_data(data, status)
    }

    /// The envelope is an error carrying `message` under `status`.
    pub open spec fn is_error_with(&self, message: Seq<char>, status: u16) -> bool {
        self@ == Envelope::<T>::of_error(message, status)
    }

    /// The status line the transport sends for a stored status: the status
    /// itself where it is a three-digit code, 200 otherwise.
    pub open spec fn transport_status(status: u16) -> u16 {
        if 100 <= status <= 999 {
            status
        } else {
            STATUS_OK
        }
    }

    /// A success with status 200.
    pub fn success(data: T) -> (r: Self)
        ensures
            r.is_success_with(data, STATUS_OK),
    {
        ApiResponse { success: true, message: None, data: Some(data), status: STATUS_OK }
    }

    /// An error with the given message and status.
    pub fn error(message: &str, status: u16) -> (r: Self)
        ensures
            r.is_error_with(message@, status),
    {
        ApiResponse {
            success: false,
            message: Some(message.to_owned()),
            data: None,
            status,
        }
    }

    /// A success with status 201.
    pub fn created(data: T) -> (r: Self)
        ensures
            r.is_success_with(data, STATUS_CREATED),
    {
        ApiResponse { success: true, message: None, data: Some(data), status: STATUS_CREATED }
    }

    /// A success with a status of the caller's choice.
    pub fn with_status(data: T, status: u16) -> (r: Self)
        ensures
            r.is_success_with(data, status),
    {
        ApiResponse { success: true, message: None, data: Some(data), status }
    }

    /// The status the transport answers with.
    pub fn http_status(&self) -> (code: u16)
        ensures
            code == Self::transport_status(self.status),
            100 <= code <= 999,
    {
        if 100 <= self.status && self.status <= 999 {
            self.status
        } else {
            STATUS_OK
        }
    }
}

impl From<String> for ApiResponse<serde_json::Value> {
    /// A bare message is the caller's mistake: status 400.
    fn from(err: String) -> (r: Self) {
        ApiResponse { success: false, message: Some(err), data: None, status: STATUS_BAD_REQUEST }
    }
}

impl vstd::std_specs::convert::FromSpecImpl<String> for ApiResponse<serde_json::Value> {
    open spec fn obeys_from_spec() -> bool {
        true
    }

    open spec fn from_spec(err: String) -> Self {
        ApiResponse { success: false, message: Some(err), data: None, status: STATUS_BAD_REQUEST }
    }
}

} // verus!
