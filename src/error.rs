//! The common error type of the sensors.
use vstd::prelude::*;
use crate::text::{decimal, push_decimal};

verus! {

/// The kind of an I/O failure, as far as the sensors tell kinds apart.
#[derive(Debug, Clone, Copy, PartialEq, Eq, Structural)]
pub enum IoErrorKind {
    NotFound,
    PermissionDenied,
    Interrupted,
    TimedOut,
    UnexpectedEof,
    Other,
}

/// A parse error carrying exactly the message `msg`.
pub open spec fn is_parse_error(e: SensorError, msg: Seq<char>) -> bool {
    e matches SensorError::Parse { message, source: None } && message@ == msg
}

/// `r` is a parse error carrying exactly the message `msg`.
pub open spec fn fails_with<T>(r: Result<T, SensorError>, msg: Seq<char>) -> bool {
    r matches Err(e) && is_parse_error(e, msg)
}

/// Common error type of sensor operations.
#[derive(Debug, Clone)]
pub enum SensorError {
    /// Reading sensor data failed.
    Io { kind: IoErrorKind, message: String },
    /// Sensor data could not be parsed; `source` describes an underlying error.
    Parse { message: String, source: Option<String> },
    /// Invalid configuration, with the offending value where known.
    Config { message: String, value: Option<String> },
    /// Nothing to read on this system, for now or for good.
    Unavailable { reason: String, is_temporary: bool },
    /// Access to a resource was refused.
    PermissionDenied { resource: String },
    /// An operation took longer than `duration_ms` milliseconds.
    Timeout { duration_ms: u64, operation: String },
    /// Data was read but holds unexpected values.
    InvalidData { message: String, data: Option<String> },
}

impl SensorError {
    /// An I/O error of the given kind.
    pub fn io(kind: IoErrorKind, message: &str) -> (r: Self)
        ensures
            r matches SensorError::Io { kind: k, message: m } && k == kind && m@ == message@,
    {
        SensorError::Io { kind, message: String::from_str(message) }
    }

    /// A parse error with a plain message.
    pub fn parse(message: &str) -> (r: Self)
        ensures
            r matches SensorError::Parse { message: m, source: None } && m@ == message@,
    {
        SensorError::Parse { message: String::from_str(message), source: None }
    }

    /// A parse error caused by another error, described by `source`.
    pub fn parse_with_source(message: &str, source: &str) -> (r: Self)
        ensures
            r matches SensorError::Parse { message: m, source: Some(s) } && m@ == message@
                && s@ == source@,
    {
        SensorError::Parse {
            message: String::from_str(message),
            source: Some(String::from_str(source)),
        }
    }

    /// A configuration error.
    pub fn config(message: &str) -> (r: Self)
        ensures
            r matches SensorError::Config { message: m, value: None } && m@ == message@,
    {
        SensorError::Config { message: String::from_str(message), value: None }
    }

    /// A configuration error naming the invalid value.
    pub fn config_with_value(message: &str, value: &str) -> (r: Self)
        ensures
            r matches SensorError::Config { message: m, value: Some(v) } && m@ == message@
                && v@ == value@,
    {
        SensorError::Config {
            message: String::from_str(message),
            value: Some(String::from_str(value)),
        }
    }

    /// A permanent unavailability.
    pub fn unavailable(reason: &str) -> (r: Self)
        ensures
            r matches SensorError::Unavailable { reason: m, is_temporary: false } && m@
                == reason@,
    {
        SensorError::Unavailable { reason: String::from_str(reason), is_temporary: false }
    }

    /// A temporary unavailability.
    pub fn temporarily_unavailable(reason: &str) -> (r: Self)
        ensures
            r matches SensorError::Unavailable { reason: m, is_temporary: true } && m@
                == reason@,
    {
        SensorError::Unavailable { reason: String::from_str(reason), is_temporary: true }
    }

    /// Access to `resource` was denied.
    pub fn permission_denied(resource: &str) -> (r: Self)
        ensures
            r matches SensorError::PermissionDenied { resource: m } && m@ == resource@,
    {
        SensorError::PermissionDenied { resource: String::from_str(resource) }
    }

    /// `operation` timed out after `duration_ms` milliseconds.
    pub fn timeout(duration_ms: u64, operation: &str) -> (r: Self)
        ensures
            r matches SensorError::Timeout { duration_ms: d, operation: m } && d == duration_ms
                && m@ == operation@,
    {
        SensorError::Timeout { duration_ms, operation: String::from_str(operation) }
    }

    /// Invalid data.
    pub fn invalid_data(message: &str) -> (r: Self)
        ensures
            r matches SensorError::InvalidData { message: m, data: None } && m@ == message@,
    {
        SensorError::InvalidData { message: String::from_str(message), data: None }
    }

    /// Invalid data, with the data itself.
    pub fn invalid_data_with_value(message: &str, data: &str) -> (r: Self)
        ensures
            r matches SensorError::InvalidData { message: m, data: Some(d) } && m@ == message@
                && d@ == data@,
    {
        SensorError::InvalidData {
            message: String::from_str(message),
            data: Some(String::from_str(data)),
        }
    }

    /// Whether the condition may go away by itself.
    pub open spec fn spec_is_temporary(&self) -> bool {
        match self {
            SensorError::Unavailable { is_temporary, .. } => *is_temporary,
            SensorError::Timeout { .. } => true,
            SensorError::Io { kind, .. } => *kind == IoErrorKind::Interrupted || *kind
                == IoErrorKind::TimedOut,
            _ => false,
        }
    }

    /// Whether the condition may go away by itself: a temporary unavailability, a
    /// timeout, or an interrupted or timed-out read.
    pub fn is_temporary(&self) -> (r: bool)
        ensures
            r == self.spec_is_temporary(),
    {
        match self {
            SensorError::Unavailable { is_temporary, .. } => *is_temporary,
            SensorError::Timeout { .. } => true,
            SensorError::Io { kind, .. } => match kind {
                IoErrorKind::Interrupted => true,
                IoErrorKind::TimedOut => true,
                _ => false,
            },
            _ => false,
        }
    }

    /// The error as a line of text for a tooltip or a log.
    pub open spec fn spec_text(&self) -> Seq<char> {
        match self {
            SensorError::Io { message, .. } => "I/O error: "@ + message@,
            SensorError::Parse { message, .. } => "Parse error: "@ + message@,
            SensorError::Config { message, .. } => "Configuration error: "@ + message@,
            SensorError::Unavailable { reason, .. } => "Sensor unavailable: "@ + reason@,
            SensorError::PermissionDenied { resource } => "Permission denied: "@ + resource@,
            SensorError::Timeout { duration_ms, operation } => "Timeout after "@ + decimal(
                *duration_ms as nat,
            ) + "ms while "@ + operation@,
            SensorError::InvalidData { message, .. } => "Invalid data: "@ + message@,
        }
    }

    /// The error as a line of text for a tooltip or a log.
    pub fn to_string(&self) -> (r: String)
        ensures
            r@ == self.spec_text(),
    {
        let (head, body) = match self {
            SensorError::Io { message, .. } => ("I/O error: ", message.as_str()),
            SensorError::Parse { message, .. } => ("Parse error: ", message.as_str()),
            SensorError::Config { message, .. } => ("Configuration error: ", message.as_str()),
            SensorError::Unavailable { reason, .. } => ("Sensor unavailable: ", reason.as_str()),
            SensorError::PermissionDenied { resource } => ("Permission denied: ", resource.as_str()),
            SensorError::Timeout { duration_ms, operation } => {
                let mut s = String::from_str("Timeout after ");
                push_decimal(&mut s, *duration_ms);
                s.append("ms while ");
                s.append(operation.as_str());
                return s;
            },
            SensorError::InvalidData { message, .. } => ("Invalid data: ", message.as_str()),
        };
        let mut s = String::from_str(head);
        s.append(body);
        s
    }
}

} // verus!
