//! The application's errors and the HTTP status that answers each.

use vstd::prelude::*;

verus! {

/// `sqlx::Error`, an error of the database driver.
#[verifier::external_type_specification]
#[verifier::external_body]
pub struct ExSqlxError(sqlx::Error);

/// `redis::RedisError`, an error of the key-value store client.
#[verifier::external_type_specification]
#[verifier::external_body]
pub struct ExRedisError(redis::RedisError);

/// `garde::Report`, the findings of a failed validation.
#[verifier::external_type_specification]
#[verifier::external_body]
pub struct ExGardeReport(garde::Report);

/// `bcrypt::BcryptError`, an error of password hashing.
#[verifier::external_type_specification]
#[verifier::external_body]
pub struct ExBcryptError(bcrypt::BcryptError);

/// Everything that can go wrong while serving a request.
#[derive(Debug)]
pub enum AppError {
    UnprocessableEntity(String),
    EntityNotFound(String),
    ValidationError(garde::Report),
    TransactionError(sqlx::Error),
    SpecificOperationError(sqlx::Error),
    NoRowsAffectedError(String),
    KeyValueStoreError(redis::RedisError),
    BcryptError(bcrypt::BcryptError),
    ConvertToUuidError(uuid::Error),
    UnauthenticatedError,
    UnauthorizedError,
    ForbiddenOperation,
    ConversionEntityError(String),
}

/// An `AppError` with its messages as character sequences.
pub enum AppErrorView {
    UnprocessableEntity(Seq<char>),
    EntityNotFound(Seq<char>),
    ValidationError(garde::Report),
    TransactionError(sqlx::Error),
    SpecificOperationError(sqlx::Error),
    NoRowsAffectedError(Seq<char>),
    KeyValueStoreError(redis::RedisError),
    BcryptError(bcrypt::BcryptError),
    ConvertToUuidError(uuid::Error),
    UnauthenticatedError,
    UnauthorizedError,
    ForbiddenOperation,
    ConversionEntityError(Seq<char>),
}

impl View for AppError {
    type V = AppErrorView;

    open spec fn view(&self) -> AppErrorView {
        match self {
            AppError::UnprocessableEntity(m) => AppErrorView::UnprocessableEntity(m@),
            AppError::EntityNotFound(m) => AppErrorView::EntityNotFound(m@),
            AppError::ValidationError(r) => AppErrorView::ValidationError(*r),
            AppError::TransactionError(e) => AppErrorView::TransactionError(*e),
            AppError::SpecificOperationError(e) => AppErrorView::SpecificOperationError(*e),
            AppError::NoRowsAffectedError(m) => AppErrorView::NoRowsAffectedError(m@),
            AppError::KeyValueStoreError(e) => AppErrorView::KeyValueStoreError(*e),
            AppError::BcryptError(e) => AppErrorView::BcryptError(*e),
            AppError::ConvertToUuidError(e) => AppErrorView::ConvertToUuidError(*e),
            AppError::UnauthenticatedError => AppErrorView::UnauthenticatedError,
            AppError::UnauthorizedError => AppErrorView::UnauthorizedError,
            AppError::ForbiddenOperation => AppErrorView::ForbiddenOperation,
            AppError::ConversionEntityError(m) => AppErrorView::ConversionEntityError(m@),
        }
    }
}

/// 400 Bad Request.
pub const BAD_REQUEST: u16 = 400;

/// 401 Unauthorized.
pub const UNAUTHORIZED: u16 = 401;

/// 403 Forbidden.
pub const FORBIDDEN: u16 = 403;

/// 404 Not Found.
pub const NOT_FOUND: u16 = 404;

/// 422 Unprocessable Entity.
pub const UNPROCESSABLE_ENTITY: u16 = 422;

/// 500 Internal Server Error.
pub const INTERNAL_SERVER_ERROR: u16 = 500;

impl AppErrorView {
    /// The status that answers a request which failed with this error.
    pub open spec fn status(self) -> u16 {
        match self {
            AppErrorView::UnprocessableEntity(_) => UNPROCESSABLE_ENTITY,
            AppErrorView::EntityNotFound(_) => NOT_FOUND,
            AppErrorView::ValidationError(_) | AppErrorView::ConvertToUuidError(_) => BAD_REQUEST,
            AppErrorView::UnauthenticatedError | AppErrorView::ForbiddenOperation => FORBIDDEN,
            AppErrorView::UnauthorizedError => UNAUTHORIZED,
            AppErrorView::TransactionError(_)
            | AppErrorView::SpecificOperationError(_)
            | AppErrorView::NoRowsAffectedError(_)
            | AppErrorView::KeyValueStoreError(_)
            | AppErrorView::BcryptError(_)
            | AppErrorView::ConversionEntityError(_) => INTERNAL_SERVER_ERROR,
        }
    }

    /// Errors that the request itself did not cause; they are logged
    /// before they are answered.
    pub open spec fn is_unexpected(self) -> bool {
        match self {
            AppErrorView::TransactionError(_)
            | AppErrorView::SpecificOperationError(_)
            | AppErrorView::NoRowsAffectedError(_)
            | AppErrorView::KeyValueStoreError(_)
            | AppErrorView::BcryptError(_)
            | AppErrorView::ConversionEntityError(_) => true,
            _ => false,
        }
    }
}

impl AppError {
    /// The HTTP status code that answers a request which failed with this
    /// error.
    pub fn status_code(&self) -> (code: u16)
        ensures
            code == self@.status(),
    {
        match self {
            AppError::UnprocessableEntity(_) => UNPROCESSABLE_ENTITY,
            AppError::EntityNotFound(_) => NOT_FOUND,
            AppError::ValidationError(_) | AppError::ConvertToUuidError(_) => BAD_REQUEST,
            AppError::UnauthenticatedError | AppError::ForbiddenOperation => FORBIDDEN,
            AppError::UnauthorizedError => UNAUTHORIZED,
            AppError::TransactionError(_)
            | AppError::SpecificOperationError(_)
            | AppError::NoRowsAffectedError(_)
            | AppError::KeyValueStoreError(_)
            | AppError::BcryptError(_)
            | AppError::ConversionEntityError(_) => INTERNAL_SERVER_ERROR,
        }
    }

    /// Whether the error is logged before it is answered: the errors that
    /// the request itself did not cause.
    pub fn is_unexpected(&self) -> (logged: bool)
        ensures
            logged == self@.is_unexpected(),
    {
        match self {
            AppError::TransactionError(_)
            | AppError::SpecificOperationError(_)
            | AppError::NoRowsAffectedError(_)
            | AppError::KeyValueStoreError(_)
            | AppError::BcryptError(_)
            | AppError::ConversionEntityError(_) => true,
            _ => false,
        }
    }
}

/// Every error is answered with a client-error or server-error status, and
/// exactly the unexpected errors, which are logged, are answered with 500
/// Internal Server Error.
pub proof fn lemma_error_status(e: AppErrorView)
    ensures
        400 <= e.status() < 600,
        e.is_unexpected() <==> e.status() == INTERNAL_SERVER_ERROR,
        !e.is_unexpected() ==> 400 <= e.status() < 500,
{
}

} // verus!
