//! The error taxonomy of the library.

use vstd::prelude::*;

use crate::text::spec_decimal;
use crate::text::u32_to_string;

verus! {

/// Everything that can go wrong while validating a request or driving the
/// sandbox lifecycle.
///
/// Failures of the sandboxed program itself are not errors: they are reported
/// through `ExecutionResult`.
#[derive(Debug, PartialEq)]
pub enum Error {
    /// `initialize` was called on a sandbox that is already initialized.
    AlreadyInitialized,
    /// A sandbox id was outside `0..=max`; carries the id and the maximum.
    BoxIdOutOfRange(u32, u32),
    /// Bad or contradictory settings.
    Config(String),
    /// A directory rule broke a construction rule.
    DirRule(String),
    /// An underlying filesystem operation failed.
    Io(String),
    /// A mount declaration broke a construction rule.
    Mount(String),
    /// `execute` or `cleanup` was called before `initialize`.
    NotInitialized,
    /// The effective uid at construction was not root.
    NotRoot,
    /// A privilege transition or filesystem permission check failed.
    Permission(String),
}

/// The human-readable message for each error.
pub open spec fn spec_error_message(e: Error) -> Seq<char> {
    match e {
        Error::AlreadyInitialized => "sandbox has already been initialized"@,
        Error::BoxIdOutOfRange(id, max) => "box id "@ + spec_decimal(id as nat)
            + " out of range (allowed: 0-"@ + spec_decimal(max as nat) + ")"@,
        Error::Config(s) => "configuration error: "@ + s@,
        Error::DirRule(s) => "invalid directory rule: "@ + s@,
        Error::Io(s) => "io error: "@ + s@,
        Error::Mount(s) => "invalid mount: "@ + s@,
        Error::NotInitialized => "sandbox has not been initialized"@,
        Error::NotRoot => "operation requires root privileges"@,
        Error::Permission(s) => "permission error: "@ + s@,
    }
}

impl Error {
    /// Renders the error as human-readable text.
    pub fn message(&self) -> (r: String)
        ensures
            r@ == spec_error_message(*self),
    {
        match self {
            Error::AlreadyInitialized => "sandbox has already been initialized".to_owned(),
            Error::BoxIdOutOfRange(id, max) => {
                let mut m = "box id ".to_owned();
                m.append(u32_to_string(*id).as_str());
                m.append(" out of range (allowed: 0-");
                m.append(u32_to_string(*max).as_str());
                m.append(")");
                proof {
                    assert(m@ =~= spec_error_message(*self));
                }
                m
            },
            Error::Config(s) => {
                let mut m = "configuration error: ".to_owned();
                m.append(s.as_str());
                m
            },
            Error::DirRule(s) => {
                let mut m = "invalid directory rule: ".to_owned();
                m.append(s.as_str());
                m
            },
            Error::Io(s) => {
                let mut m = "io error: ".to_owned();
                m.append(s.as_str());
                m
            },
            Error::Mount(s) => {
                let mut m = "invalid mount: ".to_owned();
                m.append(s.as_str());
                m
            },
            Error::NotInitialized => "sandbox has not been initialized".to_owned(),
            Error::NotRoot => "operation requires root privileges".to_owned(),
            Error::Permission(s) => {
                let mut m = "permission error: ".to_owned();
                m.append(s.as_str());
                m
            },
        }
    }
}

} // verus!
