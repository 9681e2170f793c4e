//! The library's error taxonomy. Backend failures arrive as plain messages
//! from the trusted boundary and are classified here.

use vstd::prelude::*;

verus! {

/// Everything that can go wrong in one pipeline run.
#[derive(Debug, Clone)]
pub enum AppError {
    /// A file read, write, or directory-creation failure.
    Io(String),
    /// Unsupported or corrupt image bytes.
    Image(String),
    /// An invalid option combination, such as a filename without an
    /// extension during rename resolution.
    InvalidConfig(String),
    /// A resize or encode backend failure.
    Processing(String),
    /// A path that names no file.
    FileNotFound(String),
    /// An output format this library does not produce.
    UnsupportedFormat(String),
    /// A metadata handling failure.
    Metadata(String),
    /// The rename counter passed its bound without finding a free path.
    ConflictExhausted,
}

impl AppError {
    /// The text of each error: a kind prefix, then the cause.
    pub open spec fn message_spec(&self) -> Seq<char> {
        match self {
            AppError::Io(m) => "IO error: "@ + m@,
            AppError::Image(m) => "Image error: "@ + m@,
            AppError::InvalidConfig(m) => "Invalid configuration: "@ + m@,
            AppError::Processing(m) => "Processing error: "@ + m@,
            AppError::FileNotFound(m) => "File not found: "@ + m@,
            AppError::UnsupportedFormat(m) => "Unsupported format: "@ + m@,
            AppError::Metadata(m) => "Metadata error: "@ + m@,
            AppError::ConflictExhausted => "Too many conflicting files"@,
        }
    }

    /// A human-readable description, used where the error leaves the library.
    pub fn message(&self) -> (r: String)
        ensures
            r@ == self.message_spec(),
    {
        match self {
            AppError::Io(m) => String::from_str("IO error: ").concat(m.as_str()),
            AppError::Image(m) => String::from_str("Image error: ").concat(m.as_str()),
            AppError::InvalidConfig(m) => String::from_str("Invalid configuration: ").concat(m.as_str()),
            AppError::Processing(m) => String::from_str("Processing error: ").concat(m.as_str()),
            AppError::FileNotFound(m) => String::from_str("File not found: ").concat(m.as_str()),
            AppError::UnsupportedFormat(m) => String::from_str("Unsupported format: ").concat(m.as_str()),
            AppError::Metadata(m) => String::from_str("Metadata error: ").concat(m.as_str()),
            AppError::ConflictExhausted => String::from_str("Too many conflicting files"),
        }
    }
}

/// The library's result type.
pub type AppResult<T> = Result<T, AppError>;

} // verus!
