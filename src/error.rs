use vstd::prelude::*;
use vstd::string::StringExecFns;

verus! {

/// The ways an export can fail. Every kind is reported to the caller as a
/// human-readable message; none of them is fatal to the host process.
#[derive(Clone, Debug, PartialEq, Eq)]
pub enum ExportError {
    /// The build has no native export capability; no native call was made.
    UnsupportedPlatform,
    /// Issuing the native call failed before any completion was registered.
    NativeRegistrationFailed(String),
    /// The native subsystem reported an error, with this description.
    NativeCallbackError(String),
    /// The native subsystem signalled success but handed back no bytes.
    EmptyPayload,
    /// The delivery side went away without ever delivering an outcome.
    ChannelClosed,
    /// Writing the payload to its destination failed, with this description.
    PersistenceFailed(String),
}

/// What a finished export hands back: the document's bytes, or why there are none.
pub type ExportOutcome = Result<Vec<u8>, ExportError>;

/// What precedes the native description in a callback error's message.
pub open spec fn callback_error_prefix() -> Seq<char> {
    "PDF generation failed: "@
}

impl ExportError {
    /// The text reported to the caller for this error.
    pub open spec fn message_view(&self) -> Seq<char> {
        match self {
            ExportError::UnsupportedPlatform => "export not supported on this platform"@,
            ExportError::NativeRegistrationFailed(m) => m@,
            ExportError::NativeCallbackError(d) => callback_error_prefix() + d@,
            ExportError::EmptyPayload => "PDF generation returned no data"@,
            ExportError::ChannelClosed => "PDF generation channel closed"@,
            ExportError::PersistenceFailed(m) => m@,
        }
    }

    /// Renders the error as the message the caller presents.
    pub fn message(&self) -> (r: String)
        ensures
            r@ == self.message_view(),
    {
        match self {
            ExportError::UnsupportedPlatform => String::from_str(
                "export not supported on this platform",
            ),
            ExportError::NativeRegistrationFailed(m) => String::from_str(m.as_str()),
            ExportError::NativeCallbackError(d) => String::from_str(
                "PDF generation failed: ",
            ).concat(d.as_str()),
            ExportError::EmptyPayload => String::from_str("PDF generation returned no data"),
            ExportError::ChannelClosed => String::from_str("PDF generation channel closed"),
            ExportError::PersistenceFailed(m) => String::from_str(m.as_str()),
        }
    }
}

} // verus!
