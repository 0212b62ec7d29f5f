//! Import and export of bodies: STEP, IGES, STL and the native format.
use vstd::prelude::*;

pub mod step_model;
pub mod step_read;
pub mod formats;
pub mod iges;
pub mod stl;
pub mod nova_format;
pub mod clock;
pub mod step_write;
pub mod step_header;
pub mod step_import;

verus! {

/// I/O error types.
#[derive(Debug, Clone, PartialEq, Eq)]
pub enum IoError {
    /// File not found
    FileNotFound(String),
    /// Permission denied
    PermissionDenied(String),
    /// Parse error
    ParseError(String),
    /// Write error
    WriteError(String),
    /// Unsupported format
    UnsupportedFormat(String),
    /// Invalid data
    InvalidData(String),
    /// STEP specific error
    StepError(String),
    /// IGES specific error
    IgesError(String),
    /// Operation not supported
    NotSupported(String),
}

/// Result type for I/O operations.
pub type IoResult<T> = Result<T, IoError>;

} // verus!
