//! What can go wrong, and the message that says so.

use vstd::prelude::*;

verus! {

/// Why a browser was not created or a frame not captured.
#[derive(Debug)]
pub enum RenderError {
    /// The browser could not be created.
    BrowserCreation,
    /// The lock of the render handler is poisoned; holds the text of the error.
    HandlerLock(String),
    /// No frame has been drawn yet.
    NoTexture,
    /// The result of mapping the buffer never arrived; holds the text of the error.
    MapResultLost(String),
    /// The buffer could not be mapped; holds the text of the error.
    BufferMapping(String),
}

impl RenderError {
    /// The message that a user is shown.
    pub open spec fn text(self) -> Seq<char> {
        match self {
            RenderError::BrowserCreation => "Failed to create CEF browser"@,
            RenderError::HandlerLock(cause) => "Failed to lock render handler: "@ + cause@,
            RenderError::NoTexture => "No texture available"@,
            RenderError::MapResultLost(cause) => "Failed to receive map result: "@ + cause@,
            RenderError::BufferMapping(cause) => "Failed to map buffer: "@ + cause@,
        }
    }

    /// Writes the message down.
    pub fn message(&self) -> (r: String)
        ensures
            r@ == self.text(),
    {
        match self {
            RenderError::BrowserCreation => "Failed to create CEF browser".to_owned(),
            RenderError::HandlerLock(cause) => with_cause("Failed to lock render handler: ", cause),
            RenderError::NoTexture => "No texture available".to_owned(),
            RenderError::MapResultLost(cause) => with_cause(
                "Failed to receive map result: ",
                cause,
            ),
            RenderError::BufferMapping(cause) => with_cause("Failed to map buffer: ", cause),
        }
    }
}

/// Why a painted frame was not taken over.
#[derive(Debug)]
pub enum PaintError {
    /// The platform has no textures to share.
    Unsupported,
    /// The shared texture could not be imported; holds the text of the error.
    Import(String),
}

impl PaintError {
    /// The message that is logged.
    pub open spec fn text(self) -> Seq<char> {
        match self {
            PaintError::Unsupported => "Platform does not support accelerated painting"@,
            PaintError::Import(cause) => "Failed to import shared texture: "@ + cause@,
        }
    }

    /// Writes the message down.
    pub fn message(&self) -> (r: String)
        ensures
            r@ == self.text(),
    {
        match self {
            PaintError::Unsupported => "Platform does not support accelerated painting".to_owned(),
            PaintError::Import(cause) => with_cause("Failed to import shared texture: ", cause),
        }
    }
}

/// A message followed by its cause.
fn with_cause(message: &str, cause: &String) -> (r: String)
    ensures
        r@ == message@ + cause@,
{
    message.to_owned().concat(cause.as_str())
}

} // verus!
