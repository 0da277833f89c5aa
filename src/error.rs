use vstd::prelude::*;
use vstd::string::StringExecFns;

verus! {

/// The errors that the producer services report.
#[derive(Debug)]
pub enum SMSManagerError {
    /// A query against the store failed; the store's own description.
    DbError(String),
    /// No connection could be checked out of the pool; the pool's description.
    ConnError(String),
    /// A value could not be decoded, such as a malformed identifier.
    InvalidEncoding(String),
    /// A request was refused: a validation failure or a dispatch already running.
    GeneralException(String),
    /// A query that had to find a row found none.
    EmptyResult,
}

// The HTTP status codes that the errors are answered with.
pub const STATUS_BAD_REQUEST: u16 = 400;
pub const STATUS_NOT_FOUND: u16 = 404;
pub const STATUS_UNPROCESSABLE_ENTITY: u16 = 422;
pub const STATUS_INTERNAL_SERVER_ERROR: u16 = 500;

pub open spec fn conn_prefix() -> Seq<char> {
    "Could not connect to db: "@
}

pub open spec fn db_prefix() -> Seq<char> {
    "Misc query error: "@
}

pub open spec fn empty_result_reason() -> Seq<char> {
    "Fetched an empty result that should not be!"@
}

impl SMSManagerError {
    pub open spec fn spec_status_code(&self) -> u16 {
        match self {
            SMSManagerError::ConnError(_) => STATUS_INTERNAL_SERVER_ERROR,
            SMSManagerError::DbError(_) => STATUS_BAD_REQUEST,
            SMSManagerError::InvalidEncoding(_) => STATUS_UNPROCESSABLE_ENTITY,
            SMSManagerError::GeneralException(_) => STATUS_INTERNAL_SERVER_ERROR,
            SMSManagerError::EmptyResult => STATUS_NOT_FOUND,
        }
    }

    pub open spec fn spec_reason(&self) -> Seq<char> {
        match self {
            SMSManagerError::ConnError(e) => conn_prefix() + e@,
            SMSManagerError::DbError(e) => db_prefix() + e@,
            SMSManagerError::InvalidEncoding(r) => r@,
            SMSManagerError::GeneralException(e) => e@,
            SMSManagerError::EmptyResult => empty_result_reason(),
        }
    }

    /// The HTTP status with which the error is answered.
    pub fn status_code(&self) -> (r: u16)
        ensures
            r == self.spec_status_code(),
    {
        match self {
            SMSManagerError::ConnError(_) => STATUS_INTERNAL_SERVER_ERROR,
            SMSManagerError::DbError(_) => STATUS_BAD_REQUEST,
            SMSManagerError::InvalidEncoding(_) => STATUS_UNPROCESSABLE_ENTITY,
            SMSManagerError::GeneralException(_) => STATUS_INTERNAL_SERVER_ERROR,
            SMSManagerError::EmptyResult => STATUS_NOT_FOUND,
        }
    }

    /// The text with which the error is answered.
    pub fn reason(&self) -> (r: String)
        ensures
            r@ == self.spec_reason(),
    {
        match self {
            SMSManagerError::ConnError(e) => {
                let prefix = String::from_str("Could not connect to db: ");
                prefix.concat(e.as_str())
            },
            SMSManagerError::DbError(e) => {
                let prefix = String::from_str("Misc query error: ");
                prefix.concat(e.as_str())
            },
            SMSManagerError::InvalidEncoding(r) => r.clone(),
            SMSManagerError::GeneralException(e) => e.clone(),
            SMSManagerError::EmptyResult => String::from_str(
                "Fetched an empty result that should not be!",
            ),
        }
    }
}

} // verus!
