//! The failures that the library reports.

use vstd::prelude::*;
use vstd::string::to_string_from_display_ensures_for_str;

verus! {

broadcast use to_string_from_display_ensures_for_str;

/// Why the engine could not be initialised.
#[derive(Clone, Copy, Debug, PartialEq, Eq, Structural)]
pub enum InitError {
    /// The resource path holds a zero byte, so the engine cannot take it.
    BadPath,
    /// An engine has been initialised before; there is no second one.
    AlreadyInitialized,
}

/// Why a formula was not compiled.
#[derive(Clone, Copy, Debug, PartialEq, Eq, Structural)]
pub enum CompileError {
    /// The engine behind the handle has been released.
    NotInitialized,
    /// The engine could not lay the markup out.
    InvalidMarkup,
    /// The markup holds a zero byte, so the engine cannot take it.
    EncodingError,
}

/// Why no pixels were extracted.
#[derive(Clone, Copy, Debug, PartialEq, Eq, Structural)]
pub enum RenderError {
    /// The destination holds fewer bytes than the rectangle needs.
    BufferTooSmall,
}

/// Why an image was not encoded for the terminal.
#[derive(Clone, Copy, Debug, PartialEq, Eq, Structural)]
pub enum EncodeError {
    /// The pixel bytes do not match the dimensions and the format.
    Invalid,
    /// The encoder took the image and gave no sequence for it.
    Encoder,
}

impl InitError {
    /// The text of each failure.
    pub open spec fn message_spec(self) -> Seq<char> {
        match self {
            InitError::BadPath => "Failed to create C string: the path holds a nul byte"@,
            InitError::AlreadyInitialized => "MicroTeX already initialized"@,
        }
    }

    /// The failure in words.
    pub fn message(&self) -> (text: String)
        ensures
            text@ == self.message_spec(),
    {
        match self {
            InitError::BadPath => "Failed to create C string: the path holds a nul byte".to_string(),
            InitError::AlreadyInitialized => "MicroTeX already initialized".to_string(),
        }
    }
}

impl CompileError {
    /// The text of each failure.
    pub open spec fn message_spec(self) -> Seq<char> {
        match self {
            CompileError::NotInitialized => "MicroTeX not initialized"@,
            CompileError::InvalidMarkup => "Failed to parse LaTeX"@,
            CompileError::EncodingError =>
                "Failed to create C string: the markup holds a nul byte"@,
        }
    }

    /// The failure in words.
    pub fn message(&self) -> (text: String)
        ensures
            text@ == self.message_spec(),
    {
        match self {
            CompileError::NotInitialized => "MicroTeX not initialized".to_string(),
            CompileError::InvalidMarkup => "Failed to parse LaTeX".to_string(),
            CompileError::EncodingError => {
                "Failed to create C string: the markup holds a nul byte".to_string()
            },
        }
    }
}

impl RenderError {
    /// The failure in words.
    pub fn message(&self) -> (text: String)
        ensures
            text@ == "Buffer too small"@,
    {
        "Buffer too small".to_string()
    }
}

impl EncodeError {
    /// The text of each failure.
    pub open spec fn message_spec(self) -> Seq<char> {
        match self {
            EncodeError::Invalid => "Pixel bytes do not match the image dimensions"@,
            EncodeError::Encoder => "Failed to generate sixel"@,
        }
    }

    /// The failure in words.
    pub fn message(&self) -> (text: String)
        ensures
            text@ == self.message_spec(),
    {
        match self {
            EncodeError::Invalid => "Pixel bytes do not match the image dimensions".to_string(),
            EncodeError::Encoder => "Failed to generate sixel".to_string(),
        }
    }
}

} // verus!
