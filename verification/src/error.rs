//! Error type of the library, with user hints and context chaining.

use vstd::prelude::*;
use crate::text::{owned, push_text};

verus! {

/// Main error type for Nitrogen operations.
#[derive(Debug)]
pub enum NitrogenError {
    /// Portal/D-Bus communication error
    Portal(String),
    /// PipeWire error
    PipeWire(String),
    /// Encoder error
    Encoder(String),
    /// NVENC-specific error
    Nvenc(String),
    /// Configuration error
    Config(String),
    /// Source not found
    SourceNotFound(String),
    /// Capture session not active
    NoActiveSession,
    /// Session already running
    SessionAlreadyRunning,
    /// Unsupported operation
    Unsupported(String),
    /// I/O error, with the text of the underlying error
    Io(String),
    /// An error with context added in front of it
    WithContext { context: String, source: Box<NitrogenError> },
}

/// Result type alias using `NitrogenError`.
pub type Result<T> = core::result::Result<T, NitrogenError>;

/// The text that an error displays.
pub open spec fn error_text(e: NitrogenError) -> Seq<char>
    decreases e,
{
    match e {
        NitrogenError::Portal(m) => "Portal error: "@ + m@,
        NitrogenError::PipeWire(m) => "PipeWire error: "@ + m@,
        NitrogenError::Encoder(m) => "Encoder error: "@ + m@,
        NitrogenError::Nvenc(m) => "NVENC error: "@ + m@,
        NitrogenError::Config(m) => "Configuration error: "@ + m@,
        NitrogenError::SourceNotFound(m) => "Source not found: "@ + m@,
        NitrogenError::NoActiveSession => "No active capture session"@,
        NitrogenError::SessionAlreadyRunning => "Capture session already running"@,
        NitrogenError::Unsupported(m) => "Unsupported: "@ + m@,
        NitrogenError::Io(m) => "I/O error: "@ + m@,
        NitrogenError::WithContext { context, source } => context@ + ": "@ + error_text(*source),
    }
}

/// The error beneath all context layers.
pub open spec fn root_error(e: NitrogenError) -> NitrogenError
    decreases e,
{
    match e {
        NitrogenError::WithContext { context, source } => root_error(*source),
        _ => e,
    }
}

/// The hint shown to the user for an error without context.
pub open spec fn base_hint(e: NitrogenError) -> Option<Seq<char>> {
    match e {
        NitrogenError::Portal(_) => Some(PORTAL_HINT@),
        NitrogenError::PipeWire(_) => Some(PIPEWIRE_HINT@),
        NitrogenError::Nvenc(_) => Some(NVENC_HINT@),
        NitrogenError::Config(_) => Some(CONFIG_HINT@),
        NitrogenError::SourceNotFound(_) => Some(SOURCE_HINT@),
        NitrogenError::NoActiveSession => Some(NO_SESSION_HINT@),
        NitrogenError::SessionAlreadyRunning => Some(RUNNING_HINT@),
        _ => None,
    }
}

/// Whether the user can fix an error without context themselves.
pub open spec fn base_recoverable(e: NitrogenError) -> bool {
    match e {
        NitrogenError::Portal(_) | NitrogenError::PipeWire(_) | NitrogenError::Config(_)
        | NitrogenError::SourceNotFound(_) | NitrogenError::NoActiveSession
        | NitrogenError::SessionAlreadyRunning => true,
        _ => false,
    }
}

pub const PORTAL_HINT: &'static str =
    "Make sure xdg-desktop-portal and a portal backend for your compositor are installed and running";
pub const PIPEWIRE_HINT: &'static str =
    "Make sure PipeWire is installed and running (systemctl --user status pipewire)";
pub const NVENC_HINT: &'static str =
    "Make sure an NVIDIA GPU with NVENC support and the NVIDIA driver are installed";
pub const CONFIG_HINT: &'static str = "Check your configuration file (~/.config/nitrogen/config.toml)";
pub const SOURCE_HINT: &'static str = "Run 'nitrogen list' to see the available sources";
pub const NO_SESSION_HINT: &'static str = "Start a capture session with 'nitrogen cast'";
pub const RUNNING_HINT: &'static str = "Run 'nitrogen stop' to stop the running session first";

impl NitrogenError {
    /// Create a portal error
    pub fn portal(msg: &str) -> (e: Self)
        ensures
            e matches NitrogenError::Portal(m) && m@ == msg@,
    {
        NitrogenError::Portal(owned(msg))
    }

    /// Create a PipeWire error
    pub fn pipewire(msg: &str) -> (e: Self)
        ensures
            e matches NitrogenError::PipeWire(m) && m@ == msg@,
    {
        NitrogenError::PipeWire(owned(msg))
    }

    /// Create an encoder error
    pub fn encoder(msg: &str) -> (e: Self)
        ensures
            e matches NitrogenError::Encoder(m) && m@ == msg@,
    {
        NitrogenError::Encoder(owned(msg))
    }

    /// Create an NVENC error
    pub fn nvenc(msg: &str) -> (e: Self)
        ensures
            e matches NitrogenError::Nvenc(m) && m@ == msg@,
    {
        NitrogenError::Nvenc(owned(msg))
    }

    /// Create a config error
    pub fn config(msg: &str) -> (e: Self)
        ensures
            e matches NitrogenError::Config(m) && m@ == msg@,
    {
        NitrogenError::Config(owned(msg))
    }

    /// Create an I/O error from the text of the underlying error
    pub fn io(msg: &str) -> (e: Self)
        ensures
            e matches NitrogenError::Io(m) && m@ == msg@,
    {
        NitrogenError::Io(owned(msg))
    }

    /// Add context to an error
    pub fn with_context(self, context: &str) -> (e: Self)
        ensures
            e matches NitrogenError::WithContext { context: c, source: s } && c@ == context@
                && *s == self,
    {
        NitrogenError::WithContext { context: owned(context), source: Box::new(self) }
    }

    /// The text of the error, as it is displayed.
    pub fn message(&self) -> (r: String)
        ensures
            r@ == error_text(*self),
        decreases self,
    {
        let mut r = String::new();
        match self {
            NitrogenError::Portal(m) => {
                push_text(&mut r, "Portal error: ");
                push_text(&mut r, m.as_str());
            },
            NitrogenError::PipeWire(m) => {
                push_text(&mut r, "PipeWire error: ");
                push_text(&mut r, m.as_str());
            },
            NitrogenError::Encoder(m) => {
                push_text(&mut r, "Encoder error: ");
                push_text(&mut r, m.as_str());
            },
            NitrogenError::Nvenc(m) => {
                push_text(&mut r, "NVENC error: ");
                push_text(&mut r, m.as_str());
            },
            NitrogenError::Config(m) => {
                push_text(&mut r, "Configuration error: ");
                push_text(&mut r, m.as_str());
            },
            NitrogenError::SourceNotFound(m) => {
                push_text(&mut r, "Source not found: ");
                push_text(&mut r, m.as_str());
            },
            NitrogenError::NoActiveSession => {
                push_text(&mut r, "No active capture session");
            },
            NitrogenError::SessionAlreadyRunning => {
                push_text(&mut r, "Capture session already running");
            },
            NitrogenError::Unsupported(m) => {
                push_text(&mut r, "Unsupported: ");
                push_text(&mut r, m.as_str());
            },
            NitrogenError::Io(m) => {
                push_text(&mut r, "I/O error: ");
                push_text(&mut r, m.as_str());
            },
            NitrogenError::WithContext { context, source } => {
                push_text(&mut r, context.as_str());
                push_text(&mut r, ": ");
                let inner = source.message();
                push_text(&mut r, inner.as_str());
            },
        }
        r
    }

    /// A hint telling the user how to fix the error, if there is one.
    /// Context layers keep the hint of the error beneath them.
    pub fn user_hint(&self) -> (r: Option<&'static str>)
        ensures
            r matches Some(h) ==> base_hint(root_error(*self)) == Some(h@),
            r is None ==> base_hint(root_error(*self)) is None,
        decreases self,
    {
        match self {
            NitrogenError::Portal(_) => Some(PORTAL_HINT),
            NitrogenError::PipeWire(_) => Some(PIPEWIRE_HINT),
            NitrogenError::Nvenc(_) => Some(NVENC_HINT),
            NitrogenError::Config(_) => Some(CONFIG_HINT),
            NitrogenError::SourceNotFound(_) => Some(SOURCE_HINT),
            NitrogenError::NoActiveSession => Some(NO_SESSION_HINT),
            NitrogenError::SessionAlreadyRunning => Some(RUNNING_HINT),
            NitrogenError::WithContext { context: _, source } => source.user_hint(),
            _ => None,
        }
    }

    /// Whether the user can fix the error themselves (by installing, starting
    /// or stopping something, or by changing the configuration).
    pub fn is_user_recoverable(&self) -> (r: bool)
        ensures
            r == base_recoverable(root_error(*self)),
        decreases self,
    {
        match self {
            NitrogenError::Portal(_) | NitrogenError::PipeWire(_) | NitrogenError::Config(_)
            | NitrogenError::SourceNotFound(_) | NitrogenError::NoActiveSession
            | NitrogenError::SessionAlreadyRunning => true,
            NitrogenError::WithContext { context: _, source } => source.is_user_recoverable(),
            _ => false,
        }
    }
}

/// Extension trait for adding context to results.
pub trait ResultExt<T>: Sized {
    /// Add context to an error; a success passes through unchanged.
    fn context(self, context: &str) -> (r: core::result::Result<T, NitrogenError>);
}

impl<T> ResultExt<T> for core::result::Result<T, NitrogenError> {
    fn context(self, context: &str) -> (r: core::result::Result<T, NitrogenError>)
        ensures
            self matches Ok(v) ==> r == Ok::<T, NitrogenError>(v),
            self matches Err(e) ==> (r matches Err(NitrogenError::WithContext { context: c, source: s })
                && c@ == context@ && *s == e),
    {
        match self {
            Ok(v) => Ok(v),
            Err(e) => Err(e.with_context(context)),
        }
    }
}

} // verus!
