//! Application error type producing user-friendly messages.

use vstd::prelude::*;
use crate::text::{opt_view, owned, copy_opt};

verus! {

/// An error with a machine code, a human message and optional technical details.
pub struct ZenouError {
    pub code: String,
    pub message: String,
    pub details: Option<String>,
}

/// The kinds of I/O failure the application tells apart.
#[derive(Debug, Clone, Copy, PartialEq, Eq, Structural)]
pub enum IoKind {
    PermissionDenied,
    NotFound,
    Other,
}

pub open spec fn io_friendly(k: IoKind) -> Seq<char> {
    match k {
        IoKind::PermissionDenied => "Administrator permission is required for this action. Approve the permission prompt (or run Zenou Tweaks as administrator) and try again."@,
        IoKind::NotFound => "A required file or folder could not be found."@,
        IoKind::Other => "An unexpected error occurred while accessing the system."@,
    }
}

/// The error has the given code, message and details.
pub open spec fn error_is(e: ZenouError, code: Seq<char>, message: Seq<char>, details: Option<Seq<char>>) -> bool {
    e.code@ == code && e.message@ == message && opt_view(e.details) == details
}

impl ZenouError {
    pub fn new(code: &str, message: String, details: Option<String>) -> (e: ZenouError)
        ensures
            error_is(e, code@, message@, opt_view(details)),
    {
        ZenouError { code: owned(code), message, details }
    }

    pub fn io(message: String) -> (e: ZenouError)
        ensures
            error_is(e, "io"@, message@, None),
    {
        Self::new("io", message, None)
    }

    pub fn registry(message: String, details: Option<String>) -> (e: ZenouError)
        ensures
            error_is(e, "registry"@, message@, opt_view(details)),
    {
        Self::new("registry", message, details)
    }

    pub fn command(message: String, details: Option<String>) -> (e: ZenouError)
        ensures
            error_is(e, "command"@, message@, opt_view(details)),
    {
        Self::new("command", message, details)
    }

    pub fn permission(message: String, details: Option<String>) -> (e: ZenouError)
        ensures
            error_is(e, "permission"@, message@, opt_view(details)),
    {
        Self::new("permission", message, details)
    }

    pub fn unsupported(message: String) -> (e: ZenouError)
        ensures
            error_is(e, "unsupported"@, message@, None),
    {
        Self::new("unsupported", message, None)
    }

    pub fn cancelled(message: String) -> (e: ZenouError)
        ensures
            error_is(e, "cancelled"@, message@, None),
    {
        Self::new("cancelled", message, None)
    }

    pub fn state(message: String) -> (e: ZenouError)
        ensures
            error_is(e, "state"@, message@, None),
    {
        Self::new("state", message, None)
    }

    /// Replaces the technical details.
    pub fn set_details(self, details: String) -> (e: ZenouError)
        ensures
            error_is(e, self.code@, self.message@, Some(details@)),
    {
        ZenouError { code: self.code, message: self.message, details: Some(details) }
    }

    /// The friendly error for a failed file or system access of kind `kind`;
    /// `detail` is the technical description of the failure.
    pub fn from_io(kind: IoKind, detail: String) -> (e: ZenouError)
        ensures
            error_is(e, "io"@, io_friendly(kind), Some(detail@)),
    {
        let friendly = match kind {
            IoKind::PermissionDenied => "Administrator permission is required for this action. Approve the permission prompt (or run Zenou Tweaks as administrator) and try again.",
            IoKind::NotFound => "A required file or folder could not be found.",
            IoKind::Other => "An unexpected error occurred while accessing the system.",
        };
        Self::new("io", owned(friendly), Some(detail))
    }

    /// The error for application data that could not be read or written;
    /// `detail` describes the failure.
    pub fn data(detail: String) -> (e: ZenouError)
        ensures
            error_is(e, "io"@, "Could not read or write application data."@, Some(detail@)),
    {
        Self::io(owned("Could not read or write application data.")).set_details(detail)
    }

    /// A copy holding the same data.
    pub fn duplicate(&self) -> (e: ZenouError)
        ensures
            error_is(e, self.code@, self.message@, opt_view(self.details)),
    {
        ZenouError { code: self.code.clone(), message: self.message.clone(), details: copy_opt(&self.details) }
    }
}

} // verus!
