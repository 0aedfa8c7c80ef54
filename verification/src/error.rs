//! Error taxonomy: per-file processing errors, and the error type the
//! serving layer maps everything into.
//!
//! Per-file errors are values, caught at batch boundaries and recorded as a
//! file status; they never abort a whole scan.

use vstd::prelude::*;

verus! {

/// Why processing one media file failed.
#[derive(Debug, Clone, PartialEq, Eq)]
pub enum ProcessFileError {
    /// The container format is recognised but not supported on this path.
    UnsupportedFileType(String),
    /// The archive could not be opened at all.
    ArchiveOpenError,
    /// The archive opened but an entry could not be read.
    ArchiveReadError,
    /// Reading the file itself failed.
    IoError(String),
    /// A metadata payload was not valid text.
    Utf8ConversionError,
    /// The container format could not be determined.
    Unknown(String),
}

/// The message a processing error carries.
pub open spec fn spec_process_file_error_message(e: ProcessFileError) -> Seq<char> {
    match e {
        ProcessFileError::UnsupportedFileType(s) => "Unsupported file type: "@ + s@,
        ProcessFileError::ArchiveOpenError => "Could not open archive"@,
        ProcessFileError::ArchiveReadError => "Could not read archive entry"@,
        ProcessFileError::IoError(s) => "I/O error: "@ + s@,
        ProcessFileError::Utf8ConversionError => "Archive metadata was not valid UTF-8"@,
        ProcessFileError::Unknown(s) => "Unknown error: "@ + s@,
    }
}

impl ProcessFileError {
    /// Human-readable message for this error.
    pub fn message(&self) -> (r: String)
        ensures
            r@ == spec_process_file_error_message(*self),
    {
        match self {
            ProcessFileError::UnsupportedFileType(s) => {
                let mut m = String::new();
                m.append("Unsupported file type: ");
                m.append(s.as_str());
                m
            },
            ProcessFileError::ArchiveOpenError => {
                let mut m = String::new();
                m.append("Could not open archive");
                m
            },
            ProcessFileError::ArchiveReadError => {
                let mut m = String::new();
                m.append("Could not read archive entry");
                m
            },
            ProcessFileError::IoError(s) => {
                let mut m = String::new();
                m.append("I/O error: ");
                m.append(s.as_str());
                m
            },
            ProcessFileError::Utf8ConversionError => {
                let mut m = String::new();
                m.append("Archive metadata was not valid UTF-8");
                m
            },
            ProcessFileError::Unknown(s) => {
                let mut m = String::new();
                m.append("Unknown error: ");
                m.append(s.as_str());
                m
            },
        }
    }

    /// The file status a scan records for a file that failed with this
    /// error: an unsupported container marks the file unsupported, every
    /// other failure marks it errored.
    pub fn file_status(&self) -> (r: crate::enums::FileStatus)
        ensures
            r == spec_status_of_error(*self),
    {
        match self {
            ProcessFileError::UnsupportedFileType(_) => crate::enums::FileStatus::Unsupported,
            _ => crate::enums::FileStatus::Error,
        }
    }
}

/// The status recorded for a file whose processing failed.
pub open spec fn spec_status_of_error(e: ProcessFileError) -> crate::enums::FileStatus {
    match e {
        ProcessFileError::UnsupportedFileType(_) => crate::enums::FileStatus::Unsupported,
        _ => crate::enums::FileStatus::Error,
    }
}

/// Error surfaced to the serving layer.
#[derive(Debug, Clone, PartialEq, Eq)]
pub enum ApiError {
    BadRequest(String),
    NotFound(String),
    InternalServerError(String),
    Unauthorized(String),
    Forbidden(String),
    NotImplemented(String),
    ServiceUnavailable(String),
    BadGateway(String),
    Unknown(String),
    Redirect(String),
}

/// The HTTP status code an API error maps to.
pub open spec fn spec_api_error_code(e: ApiError) -> u16 {
    match e {
        ApiError::BadRequest(_) => 400,
        ApiError::NotFound(_) => 404,
        ApiError::InternalServerError(_) => 500,
        ApiError::Unauthorized(_) => 401,
        ApiError::Forbidden(_) => 403,
        ApiError::NotImplemented(_) => 501,
        ApiError::ServiceUnavailable(_) => 503,
        ApiError::BadGateway(_) => 502,
        ApiError::Unknown(_) => 500,
        ApiError::Redirect(_) => 308,
    }
}

impl ApiError {
    /// Numeric HTTP status code for this error.
    pub fn status_code(&self) -> (r: u16)
        ensures
            r == spec_api_error_code(*self),
    {
        match self {
            ApiError::BadRequest(_) => 400,
            ApiError::NotFound(_) => 404,
            ApiError::InternalServerError(_) => 500,
            ApiError::Unauthorized(_) => 401,
            ApiError::Forbidden(_) => 403,
            ApiError::NotImplemented(_) => 501,
            ApiError::ServiceUnavailable(_) => 503,
            ApiError::BadGateway(_) => 502,
            ApiError::Unknown(_) => 500,
            ApiError::Redirect(_) => 308,
        }
    }

    /// The message this error carries.
    pub fn message(&self) -> (r: &String)
        ensures
            r@ == spec_api_error_message(*self),
    {
        match self {
            ApiError::BadRequest(s) => s,
            ApiError::NotFound(s) => s,
            ApiError::InternalServerError(s) => s,
            ApiError::Unauthorized(s) => s,
            ApiError::Forbidden(s) => s,
            ApiError::NotImplemented(s) => s,
            ApiError::ServiceUnavailable(s) => s,
            ApiError::BadGateway(s) => s,
            ApiError::Unknown(s) => s,
            ApiError::Redirect(s) => s,
        }
    }

    /// A processing failure surfaces as an internal server error carrying
    /// the file error's message.
    pub fn from_process_file_error(e: &ProcessFileError) -> (r: ApiError)
        ensures
            r matches ApiError::InternalServerError(m) && m@ == spec_process_file_error_message(*e),
    {
        ApiError::InternalServerError(e.message())
    }
}

/// The message an API error carries.
pub open spec fn spec_api_error_message(e: ApiError) -> Seq<char> {
    match e {
        ApiError::BadRequest(s) => s@,
        ApiError::NotFound(s) => s@,
        ApiError::InternalServerError(s) => s@,
        ApiError::Unauthorized(s) => s@,
        ApiError::Forbidden(s) => s@,
        ApiError::NotImplemented(s) => s@,
        ApiError::ServiceUnavailable(s) => s@,
        ApiError::BadGateway(s) => s@,
        ApiError::Unknown(s) => s@,
        ApiError::Redirect(s) => s@,
    }
}

} // verus!
