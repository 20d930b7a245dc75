//! Error types for capture, encoding, and buffer-pool operations.
//!
//! The variants mirror the failure taxonomy of the library: structural misuse
//! is returned to the caller, while per-frame failures are absorbed by the
//! stage that detects them.

use vstd::prelude::*;

verus! {

use crate::text::{dec_seq, dec_seq_signed, i64_to_string, join2, u64_to_string};

/// Main error type for screenshot capture operations.
#[derive(Debug)]
pub enum CaptureError {
    /// Display not found or invalid index.
    DisplayNotFound(usize),
    /// Display enumeration failed.
    DisplayEnumerationFailed(String),
    /// Capture operation failed.
    CaptureFailed(String),
    /// Permission denied for screen capture.
    PermissionDenied(String),
    /// Platform-specific error.
    PlatformError(String),
    /// Hardware acceleration not available.
    HardwareAccelerationUnavailable(String),
    /// Invalid configuration.
    InvalidConfiguration(String),
    /// Memory allocation failed.
    MemoryAllocationFailed { size: usize },
    /// Timeout occurred during capture.
    CaptureTimeout { timeout_ms: u64 },
    /// I/O error, carried as its description.
    IoError(String),
    /// Encoding error, carried as its description.
    EncodingError(String),
    /// Other errors.
    Other(String),
}

/// Error type for image encoding operations.
#[derive(Debug)]
pub enum EncodingError {
    /// Invalid image dimensions.
    InvalidDimensions { width: u32, height: u32 },
    /// Invalid pixel format.
    InvalidPixelFormat(String),
    /// Invalid configuration.
    InvalidConfiguration(String),
    /// Unsupported format.
    UnsupportedFormat(String),
    /// Encoding failed.
    EncodingFailed(String),
    /// Invalid quality parameter.
    InvalidQuality(u8),
    /// Invalid compression method.
    InvalidMethod(u8),
    /// Output buffer too small.
    BufferTooSmall { required: usize, provided: usize },
    /// Unsupported feature.
    UnsupportedFeature(String),
    /// Memory allocation failed during encoding.
    MemoryAllocationFailed,
    /// Other encoding errors.
    Other(String),
}

/// Error type for memory pool operations.
#[derive(Debug)]
pub enum MemoryPoolError {
    /// Pool is full.
    PoolFull { capacity: usize },
    /// Invalid buffer size.
    InvalidBufferSize { size: usize },
    /// Buffer not found in pool.
    BufferNotFound,
    /// Pool is poisoned (lock error).
    PoolPoisoned,
}

/// Combined result type for capture operations.
pub type CaptureResult<T> = Result<T, CaptureError>;

/// Combined result type for encoding operations.
pub type EncodingResult<T> = Result<T, EncodingError>;

/// Combined result type for memory pool operations.
pub type MemoryPoolResult<T> = Result<T, MemoryPoolError>;

impl CaptureError {
    /// The exact rendering of this error as text.
    pub open spec fn message_spec(self) -> Seq<char> {
        match self {
            CaptureError::DisplayNotFound(index) => "Display not found: index "@ + dec_seq(
                index as int,
            ),
            CaptureError::DisplayEnumerationFailed(msg) => "Failed to enumerate displays: "@
                + msg@,
            CaptureError::CaptureFailed(msg) => "Capture failed: "@ + msg@,
            CaptureError::PermissionDenied(msg) => "Permission denied: "@ + msg@,
            CaptureError::PlatformError(msg) => "Platform error: "@ + msg@,
            CaptureError::HardwareAccelerationUnavailable(msg) => {
                "Hardware acceleration not available: "@ + msg@
            },
            CaptureError::InvalidConfiguration(msg) => "Invalid configuration: "@ + msg@,
            CaptureError::MemoryAllocationFailed { size } => {
                "Memory allocation failed: requested "@ + dec_seq(size as int) + " bytes"@
            },
            CaptureError::CaptureTimeout { timeout_ms } => "Capture timeout: exceeded "@ + dec_seq(
                timeout_ms as int,
            ) + "ms"@,
            CaptureError::IoError(msg) => "IO error: "@ + msg@,
            CaptureError::EncodingError(msg) => "Encoding error: "@ + msg@,
            CaptureError::Other(msg) => msg@,
        }
    }

    /// Render this error as text.
    pub fn message(&self) -> (s: String)
        ensures
            s@ == self.message_spec(),
    {
        match self {
            CaptureError::DisplayNotFound(index) => {
                let digits = u64_to_string(*index as u64);
                join2("Display not found: index ", digits.as_str())
            },
            CaptureError::DisplayEnumerationFailed(msg) => {
                join2("Failed to enumerate displays: ", msg.as_str())
            },
            CaptureError::CaptureFailed(msg) => join2("Capture failed: ", msg.as_str()),
            CaptureError::PermissionDenied(msg) => join2("Permission denied: ", msg.as_str()),
            CaptureError::PlatformError(msg) => join2("Platform error: ", msg.as_str()),
            CaptureError::HardwareAccelerationUnavailable(msg) => {
                join2("Hardware acceleration not available: ", msg.as_str())
            },
            CaptureError::InvalidConfiguration(msg) => {
                join2("Invalid configuration: ", msg.as_str())
            },
            CaptureError::MemoryAllocationFailed { size } => {
                let digits = u64_to_string(*size as u64);
                let mut s = join2("Memory allocation failed: requested ", digits.as_str());
                s.append(" bytes");
                s
            },
            CaptureError::CaptureTimeout { timeout_ms } => {
                let digits = u64_to_string(*timeout_ms);
                let mut s = join2("Capture timeout: exceeded ", digits.as_str());
                s.append("ms");
                s
            },
            CaptureError::IoError(msg) => join2("IO error: ", msg.as_str()),
            CaptureError::EncodingError(msg) => join2("Encoding error: ", msg.as_str()),
            CaptureError::Other(msg) => msg.clone(),
        }
    }

    /// Check if the error is recoverable (worth retrying).
    pub fn is_recoverable(&self) -> (b: bool)
        ensures
            b == (self is CaptureTimeout || self is MemoryAllocationFailed),
    {
        matches!(
            self,
            CaptureError::CaptureTimeout { .. } | CaptureError::MemoryAllocationFailed { .. }
        )
    }

    /// The numeric code of each variant.
    pub open spec fn error_code_spec(self) -> int {
        match self {
            CaptureError::DisplayNotFound(_) => -1001,
            CaptureError::DisplayEnumerationFailed(_) => -1002,
            CaptureError::CaptureFailed(_) => -1003,
            CaptureError::PermissionDenied(_) => -1004,
            CaptureError::PlatformError(_) => -1005,
            CaptureError::HardwareAccelerationUnavailable(_) => -1006,
            CaptureError::InvalidConfiguration(_) => -1007,
            CaptureError::MemoryAllocationFailed { .. } => -1008,
            CaptureError::CaptureTimeout { .. } => -1009,
            CaptureError::IoError(_) => -1010,
            CaptureError::EncodingError(_) => -1012,
            CaptureError::Other(_) => -1999,
        }
    }

    /// Get the numeric error code for this error.
    pub fn to_error_code(&self) -> (code: i32)
        ensures
            code == self.error_code_spec(),
    {
        match self {
            CaptureError::DisplayNotFound(_) => -1001,
            CaptureError::DisplayEnumerationFailed(_) => -1002,
            CaptureError::CaptureFailed(_) => -1003,
            CaptureError::PermissionDenied(_) => -1004,
            CaptureError::PlatformError(_) => -1005,
            CaptureError::HardwareAccelerationUnavailable(_) => -1006,
            CaptureError::InvalidConfiguration(_) => -1007,
            CaptureError::MemoryAllocationFailed { .. } => -1008,
            CaptureError::CaptureTimeout { .. } => -1009,
            CaptureError::IoError(_) => -1010,
            CaptureError::EncodingError(_) => -1012,
            CaptureError::Other(_) => -1999,
        }
    }
}

impl EncodingError {
    /// The exact rendering of this error as text.
    pub open spec fn message_spec(self) -> Seq<char> {
        match self {
            EncodingError::InvalidDimensions { width, height } => {
                "Invalid image dimensions: "@ + dec_seq(width as int) + "x"@ + dec_seq(
                    height as int,
                )
            },
            EncodingError::InvalidPixelFormat(msg) => "Invalid pixel format: "@ + msg@,
            EncodingError::InvalidConfiguration(msg) => "Invalid configuration: "@ + msg@,
            EncodingError::UnsupportedFormat(msg) => "Unsupported format: "@ + msg@,
            EncodingError::EncodingFailed(msg) => "WebP encoding failed: "@ + msg@,
            EncodingError::InvalidQuality(quality) => "Invalid quality parameter: "@ + dec_seq(
                quality as int,
            ) + " (must be 0-100)"@,
            EncodingError::InvalidMethod(method) => "Invalid compression method: "@ + dec_seq(
                method as int,
            ) + " (must be 0-6)"@,
            EncodingError::BufferTooSmall { required, provided } => {
                "Output buffer too small: need "@ + dec_seq(required as int) + " bytes, got "@
                    + dec_seq(provided as int)
            },
            EncodingError::UnsupportedFeature(msg) => "Unsupported feature: "@ + msg@,
            EncodingError::MemoryAllocationFailed => "Memory allocation failed during encoding"@,
            EncodingError::Other(msg) => msg@,
        }
    }

    /// Render this error as text.
    pub fn message(&self) -> (s: String)
        ensures
            s@ == self.message_spec(),
    {
        match self {
            EncodingError::InvalidDimensions { width, height } => {
                let w_digits = u64_to_string(*width as u64);
                let h_digits = u64_to_string(*height as u64);
                let mut s = join2("Invalid image dimensions: ", w_digits.as_str());
                s.append("x");
                s.append(h_digits.as_str());
                s
            },
            EncodingError::InvalidPixelFormat(msg) => join2("Invalid pixel format: ", msg.as_str()),
            EncodingError::InvalidConfiguration(msg) => {
                join2("Invalid configuration: ", msg.as_str())
            },
            EncodingError::UnsupportedFormat(msg) => join2("Unsupported format: ", msg.as_str()),
            EncodingError::EncodingFailed(msg) => join2("WebP encoding failed: ", msg.as_str()),
            EncodingError::InvalidQuality(quality) => {
                let digits = u64_to_string(*quality as u64);
                let mut s = join2("Invalid quality parameter: ", digits.as_str());
                s.append(" (must be 0-100)");
                s
            },
            EncodingError::InvalidMethod(method) => {
                let digits = u64_to_string(*method as u64);
                let mut s = join2("Invalid compression method: ", digits.as_str());
                s.append(" (must be 0-6)");
                s
            },
            EncodingError::BufferTooSmall { required, provided } => {
                let r_digits = u64_to_string(*required as u64);
                let p_digits = u64_to_string(*provided as u64);
                let mut s = join2("Output buffer too small: need ", r_digits.as_str());
                s.append(" bytes, got ");
                s.append(p_digits.as_str());
                s
            },
            EncodingError::UnsupportedFeature(msg) => join2("Unsupported feature: ", msg.as_str()),
            EncodingError::MemoryAllocationFailed => {
                "Memory allocation failed during encoding".to_owned()
            },
            EncodingError::Other(msg) => msg.clone(),
        }
    }

    /// Check if the error is related to invalid parameters.
    pub fn is_parameter_error(&self) -> (b: bool)
        ensures
            b == (self is InvalidDimensions || self is InvalidPixelFormat || self is InvalidQuality
                || self is InvalidMethod),
    {
        matches!(
            self,
            EncodingError::InvalidDimensions { .. }
                | EncodingError::InvalidPixelFormat(_)
                | EncodingError::InvalidQuality(_)
                | EncodingError::InvalidMethod(_)
        )
    }

    /// The numeric code of each variant.
    pub open spec fn error_code_spec(self) -> int {
        match self {
            EncodingError::InvalidDimensions { .. } => -2001,
            EncodingError::InvalidPixelFormat(_) => -2002,
            EncodingError::InvalidConfiguration(_) => -2003,
            EncodingError::UnsupportedFormat(_) => -2004,
            EncodingError::EncodingFailed(_) => -2005,
            EncodingError::InvalidQuality(_) => -2006,
            EncodingError::InvalidMethod(_) => -2007,
            EncodingError::BufferTooSmall { .. } => -2008,
            EncodingError::UnsupportedFeature(_) => -2009,
            EncodingError::MemoryAllocationFailed => -2010,
            EncodingError::Other(_) => -2999,
        }
    }

    /// Get the numeric error code for this error.
    pub fn to_error_code(&self) -> (code: i32)
        ensures
            code == self.error_code_spec(),
    {
        match self {
            EncodingError::InvalidDimensions { .. } => -2001,
            EncodingError::InvalidPixelFormat(_) => -2002,
            EncodingError::InvalidConfiguration(_) => -2003,
            EncodingError::UnsupportedFormat(_) => -2004,
            EncodingError::EncodingFailed(_) => -2005,
            EncodingError::InvalidQuality(_) => -2006,
            EncodingError::InvalidMethod(_) => -2007,
            EncodingError::BufferTooSmall { .. } => -2008,
            EncodingError::UnsupportedFeature(_) => -2009,
            EncodingError::MemoryAllocationFailed => -2010,
            EncodingError::Other(_) => -2999,
        }
    }
}

impl MemoryPoolError {
    /// The exact rendering of this error as text.
    pub open spec fn message_spec(self) -> Seq<char> {
        match self {
            MemoryPoolError::PoolFull { capacity } => "Memory pool is full: max capacity "@
                + dec_seq(capacity as int) + " reached"@,
            MemoryPoolError::InvalidBufferSize { size } => "Invalid buffer size: "@ + dec_seq(
                size as int,
            ),
            MemoryPoolError::BufferNotFound => "Buffer not found in pool"@,
            MemoryPoolError::PoolPoisoned => "Memory pool is poisoned"@,
        }
    }

    /// Render this error as text.
    pub fn message(&self) -> (s: String)
        ensures
            s@ == self.message_spec(),
    {
        match self {
            MemoryPoolError::PoolFull { capacity } => {
                let digits = u64_to_string(*capacity as u64);
                let mut s = join2("Memory pool is full: max capacity ", digits.as_str());
                s.append(" reached");
                s
            },
            MemoryPoolError::InvalidBufferSize { size } => {
                let digits = u64_to_string(*size as u64);
                join2("Invalid buffer size: ", digits.as_str())
            },
            MemoryPoolError::BufferNotFound => "Buffer not found in pool".to_owned(),
            MemoryPoolError::PoolPoisoned => "Memory pool is poisoned".to_owned(),
        }
    }
}

impl CaptureError {
    /// Wrap an encoding failure as a capture error carrying its rendered text.
    pub fn from_encoding(err: &EncodingError) -> (r: CaptureError)
        ensures
            r is EncodingError,
            r->EncodingError_0@ == err.message_spec(),
    {
        CaptureError::EncodingError(err.message())
    }
}

/// Convert a numeric error code to a human-readable string.
pub fn error_code_to_string(code: i32) -> (s: String)
    ensures
        s@ == error_code_string_spec(code as int),
{
    if code == -1 {
        "Generic error".to_owned()
    } else if code == -2 {
        "Invalid parameter".to_owned()
    } else if code == -3 {
        "Out of memory".to_owned()
    } else if code == -4 {
        "Not supported".to_owned()
    } else if code == -5 {
        "Permission denied".to_owned()
    } else if code == -6 {
        "Timeout".to_owned()
    } else {
        let digits = i64_to_string(code as i64);
        join2("Unknown error code: ", digits.as_str())
    }
}

/// The exact text for each numeric error code.
pub open spec fn error_code_string_spec(code: int) -> Seq<char> {
    if code == -1 {
        "Generic error"@
    } else if code == -2 {
        "Invalid parameter"@
    } else if code == -3 {
        "Out of memory"@
    } else if code == -4 {
        "Not supported"@
    } else if code == -5 {
        "Permission denied"@
    } else if code == -6 {
        "Timeout"@
    } else {
        "Unknown error code: "@ + dec_seq_signed(code)
    }
}

} // verus!
