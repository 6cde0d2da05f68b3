//! The ways a device tool call can fail, and the message reported for each.
use vstd::prelude::*;

verus! {

/// Why a tool call failed.
#[derive(Debug)]
pub enum DeviceError {
    /// `DEVICE_PLATFORM` named neither platform; `setting` is its lowercased value.
    UnsupportedPlatform { setting: String },
    /// A screenshot name that is empty, `.`, `..` or holds a path separator.
    InvalidScreenshotName,
    /// Text to type was empty.
    EmptyText,
    /// `program` ran and ended unsuccessfully with `status`; `output` is what it printed.
    CommandFailed { program: String, status: String, output: String },
    /// No line of `wm size` output held a display size.
    UnknownDisplaySize,
    /// The display size `dimensions` is not of the form `<width>x<height>`.
    InvalidDisplaySize { dimensions: String },
    /// The preview URL is not of the form `http://host:port`.
    InvalidPreviewUrl,
    /// The preview at `url` did not become reachable in time.
    PreviewUnavailable { url: String },
    /// The Android Emulator did not become ready in time.
    EmulatorNotReady,
    /// Work done on the library's behalf (running a program, reading a file,
    /// reading a number) failed with this message.
    Reported { message: String },
    /// An event arrived that the current step of a tool call does not await.
    UnexpectedEvent,
}

/// The message reported for `error`.
pub open spec fn error_message(error: DeviceError) -> Seq<char> {
    match error {
        DeviceError::UnsupportedPlatform { setting } => "unsupported DEVICE_PLATFORM '"@ + setting@
            + "'; use ios or android"@,
        DeviceError::InvalidScreenshotName => "name must be a non-empty file name without path separators"@,
        DeviceError::EmptyText => "text must not be empty"@,
        DeviceError::CommandFailed { program, status, output } => program@ + " failed with "@
            + status@ + ": "@ + output@,
        DeviceError::UnknownDisplaySize => "could not determine Android display size"@,
        DeviceError::InvalidDisplaySize { dimensions } => "invalid Android display size: "@
            + dimensions@,
        DeviceError::InvalidPreviewUrl => "preview URL must use http://host:port"@,
        DeviceError::PreviewUnavailable { url } => "preview did not become available at "@ + url@,
        DeviceError::EmulatorNotReady => "Android Emulator did not become ready"@,
        DeviceError::Reported { message } => message@,
        DeviceError::UnexpectedEvent => "unexpected event for the current step of the tool call"@,
    }
}

impl DeviceError {
    /// The message reported for this error.
    pub fn message(&self) -> (m: String)
        ensures
            m@ == error_message(*self),
    {
        match self {
            DeviceError::UnsupportedPlatform { setting } => {
                let mut m = String::from_str("unsupported DEVICE_PLATFORM '");
                m.append(setting.as_str());
                m.append("'; use ios or android");
                m
            },
            DeviceError::InvalidScreenshotName => String::from_str(
                "name must be a non-empty file name without path separators",
            ),
            DeviceError::EmptyText => String::from_str("text must not be empty"),
            DeviceError::CommandFailed { program, status, output } => {
                let mut m = program.clone();
                m.append(" failed with ");
                m.append(status.as_str());
                m.append(": ");
                m.append(output.as_str());
                m
            },
            DeviceError::UnknownDisplaySize => String::from_str(
                "could not determine Android display size",
            ),
            DeviceError::InvalidDisplaySize { dimensions } => {
                let mut m = String::from_str("invalid Android display size: ");
                m.append(dimensions.as_str());
                m
            },
            DeviceError::InvalidPreviewUrl => String::from_str("preview URL must use http://host:port"),
            DeviceError::PreviewUnavailable { url } => {
                let mut m = String::from_str("preview did not become available at ");
                m.append(url.as_str());
                m
            },
            DeviceError::EmulatorNotReady => String::from_str("Android Emulator did not become ready"),
            DeviceError::Reported { message } => message.clone(),
            DeviceError::UnexpectedEvent => String::from_str(
                "unexpected event for the current step of the tool call",
            ),
        }
    }
}

} // verus!
