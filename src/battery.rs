//! Errors of battery monitoring and how they are handled.
use vstd::prelude::*;

verus! {

/// `std::io::Error`, carried opaquely into the conversion below.
#[verifier::external_type_specification]
#[verifier::external_body]
pub struct ExIoError(std::io::Error);

/// Failures of battery monitoring.
#[derive(Debug, Clone)]
pub enum BatteryError {
    /// Reading battery data failed.
    Io { message: String },
    /// No battery of that name.
    BatteryNotFound { battery_id: String },
    /// A configuration field is invalid.
    Config { field: String, reason: String },
    /// Battery data could not be parsed.
    Parse { data_type: String, reason: String },
    /// An operation was refused.
    Permission { operation: String },
    /// A system resource is unavailable.
    Resource { resource: String },
    /// Battery discovery failed.
    Discovery { reason: String },
    /// An analytics computation failed.
    Analytics { computation: String, reason: String },
    /// An operation timed out after `duration_ms` milliseconds.
    Timeout { operation: String, duration_ms: u64 },
    /// The battery reports an impossible state.
    InvalidState { state: String, reason: String },
    /// A monitoring service failed.
    Service { service: String, reason: String },
    /// Thermal protection tripped.
    Thermal { reason: String },
    /// A power-management operation failed.
    PowerManagement { operation: String, reason: String },
    /// Health analysis failed.
    Health { reason: String },
    /// A prediction model failed.
    Prediction { model: String, reason: String },
}

/// Recoverable failures: all but a missing battery, bad configuration, a refused
/// operation and thermal protection.
pub open spec fn recoverable(e: BatteryError) -> bool {
    !(e is BatteryNotFound || e is Config || e is Permission || e is Thermal)
}

/// The retry delay in milliseconds of a recoverable failure.
pub open spec fn spec_retry_delay(e: BatteryError) -> Option<u64> {
    if !recoverable(e) {
        None
    } else if e is Timeout {
        Some(500)
    } else if e is Resource {
        Some(1000)
    } else if e is Service {
        Some(2000)
    } else if e is Analytics {
        Some(100)
    } else {
        Some(250)
    }
}

impl BatteryError {
    /// A `Io` failure.
    pub fn io(message: &str) -> (r: Self)
        ensures
            r matches BatteryError::Io { message: x0 } && x0@ == message@,
    {
        BatteryError::Io { message: String::from_str(message) }
    }

    /// A `BatteryNotFound` failure.
    pub fn battery_not_found(battery_id: &str) -> (r: Self)
        ensures
            r matches BatteryError::BatteryNotFound { battery_id: x0 } && x0@ == battery_id@,
    {
        BatteryError::BatteryNotFound { battery_id: String::from_str(battery_id) }
    }

    /// A `Config` failure.
    pub fn config(field: &str, reason: &str) -> (r: Self)
        ensures
            r matches BatteryError::Config { field: x0, reason: x1 } && x0@ == field@ && x1@ == reason@,
    {
        BatteryError::Config { field: String::from_str(field), reason: String::from_str(reason) }
    }

    /// A `Parse` failure.
    pub fn parse(data_type: &str, reason: &str) -> (r: Self)
        ensures
            r matches BatteryError::Parse { data_type: x0, reason: x1 } && x0@ == data_type@ && x1@ == reason@,
    {
        BatteryError::Parse { data_type: String::from_str(data_type), reason: String::from_str(reason) }
    }

    /// A `Permission` failure.
    pub fn permission(operation: &str) -> (r: Self)
        ensures
            r matches BatteryError::Permission { operation: x0 } && x0@ == operation@,
    {
        BatteryError::Permission { operation: String::from_str(operation) }
    }

    /// A `Resource` failure.
    pub fn resource(resource: &str) -> (r: Self)
        ensures
            r matches BatteryError::Resource { resource: x0 } && x0@ == resource@,
    {
        BatteryError::Resource { resource: String::from_str(resource) }
    }

    /// A `Discovery` failure.
    pub fn discovery(reason: &str) -> (r: Self)
        ensures
            r matches BatteryError::Discovery { reason: x0 } && x0@ == reason@,
    {
        BatteryError::Discovery { reason: String::from_str(reason) }
    }

    /// A `Analytics` failure.
    pub fn analytics(computation: &str, reason: &str) -> (r: Self)
        ensures
            r matches BatteryError::Analytics { computation: x0, reason: x1 } && x0@ == computation@ && x1@ == reason@,
    {
        BatteryError::Analytics { computation: String::from_str(computation), reason: String::from_str(reason) }
    }

    /// A `Timeout` failure.
    pub fn timeout(operation: &str, duration_ms: u64) -> (r: Self)
        ensures
            r matches BatteryError::Timeout { operation: x0, duration_ms: x } && x0@ == operation@ && x == duration_ms,
    {
        BatteryError::Timeout { operation: String::from_str(operation), duration_ms }
    }

    /// A `InvalidState` failure.
    pub fn invalid_state(state: &str, reason: &str) -> (r: Self)
        ensures
            r matches BatteryError::InvalidState { state: x0, reason: x1 } && x0@ == state@ && x1@ == reason@,
    {
        BatteryError::InvalidState { state: String::from_str(state), reason: String::from_str(reason) }
    }

    /// A `Service` failure.
    pub fn service(service: &str, reason: &str) -> (r: Self)
        ensures
            r matches BatteryError::Service { service: x0, reason: x1 } && x0@ == service@ && x1@ == reason@,
    {
        BatteryError::Service { service: String::from_str(service), reason: String::from_str(reason) }
    }

    /// A `Thermal` failure.
    pub fn thermal(reason: &str) -> (r: Self)
        ensures
            r matches BatteryError::Thermal { reason: x0 } && x0@ == reason@,
    {
        BatteryError::Thermal { reason: String::from_str(reason) }
    }

    /// A `PowerManagement` failure.
    pub fn power_management(operation: &str, reason: &str) -> (r: Self)
        ensures
            r matches BatteryError::PowerManagement { operation: x0, reason: x1 } && x0@ == operation@ && x1@ == reason@,
    {
        BatteryError::PowerManagement { operation: String::from_str(operation), reason: String::from_str(reason) }
    }

    /// A `Health` failure.
    pub fn health(reason: &str) -> (r: Self)
        ensures
            r matches BatteryError::Health { reason: x0 } && x0@ == reason@,
    {
        BatteryError::Health { reason: String::from_str(reason) }
    }

    /// A `Prediction` failure.
    pub fn prediction(model: &str, reason: &str) -> (r: Self)
        ensures
            r matches BatteryError::Prediction { model: x0, reason: x1 } && x0@ == model@ && x1@ == reason@,
    {
        BatteryError::Prediction { model: String::from_str(model), reason: String::from_str(reason) }
    }

    /// Whether retrying may help.
    pub fn is_recoverable(&self) -> (r: bool)
        ensures
            r == recoverable(*self),
    {
        match self {
            BatteryError::Io { .. } => true,
            BatteryError::BatteryNotFound { .. } => false,
            BatteryError::Config { .. } => false,
            BatteryError::Parse { .. } => true,
            BatteryError::Permission { .. } => false,
            BatteryError::Resource { .. } => true,
            BatteryError::Discovery { .. } => true,
            BatteryError::Analytics { .. } => true,
            BatteryError::Timeout { .. } => true,
            BatteryError::InvalidState { .. } => true,
            BatteryError::Service { .. } => true,
            BatteryError::Thermal { .. } => false,
            BatteryError::PowerManagement { .. } => true,
            BatteryError::Health { .. } => true,
            BatteryError::Prediction { .. } => true,
        }
    }

    /// The category name used in logs.
    pub fn category(&self) -> (r: &'static str)
        ensures
            r@ == match self {
                BatteryError::Io { .. } => "io"@,
                BatteryError::BatteryNotFound { .. } => "not_found"@,
                BatteryError::Config { .. } => "config"@,
                BatteryError::Parse { .. } => "parse"@,
                BatteryError::Permission { .. } => "permission"@,
                BatteryError::Resource { .. } => "resource"@,
                BatteryError::Discovery { .. } => "discovery"@,
                BatteryError::Analytics { .. } => "analytics"@,
                BatteryError::Timeout { .. } => "timeout"@,
                BatteryError::InvalidState { .. } => "state"@,
                BatteryError::Service { .. } => "service"@,
                BatteryError::Thermal { .. } => "thermal"@,
                BatteryError::PowerManagement { .. } => "power"@,
                BatteryError::Health { .. } => "health"@,
                BatteryError::Prediction { .. } => "prediction"@,
            },
    {
        match self {
            BatteryError::Io { .. } => "io",
            BatteryError::BatteryNotFound { .. } => "not_found",
            BatteryError::Config { .. } => "config",
            BatteryError::Parse { .. } => "parse",
            BatteryError::Permission { .. } => "permission",
            BatteryError::Resource { .. } => "resource",
            BatteryError::Discovery { .. } => "discovery",
            BatteryError::Analytics { .. } => "analytics",
            BatteryError::Timeout { .. } => "timeout",
            BatteryError::InvalidState { .. } => "state",
            BatteryError::Service { .. } => "service",
            BatteryError::Thermal { .. } => "thermal",
            BatteryError::PowerManagement { .. } => "power",
            BatteryError::Health { .. } => "health",
            BatteryError::Prediction { .. } => "prediction",
        }
    }

    /// The suggested delay before a retry, in milliseconds; `None` when retrying
    /// does not help.
    pub fn retry_delay(&self) -> (r: Option<u64>)
        ensures
            r == spec_retry_delay(*self),
    {
        if !self.is_recoverable() {
            return None;
        }
        match self {
            BatteryError::Timeout { .. } => Some(500),
            BatteryError::Resource { .. } => Some(1000),
            BatteryError::Service { .. } => Some(2000),
            BatteryError::Analytics { .. } => Some(100),
            _ => Some(250),
        }
    }

    /// Whether the failure is a safety condition (thermal protection).
    pub fn is_safety_critical(&self) -> (r: bool)
        ensures
            r == (*self is Thermal),
    {
        match self {
            BatteryError::Thermal { .. } => true,
            _ => false,
        }
    }
}

impl From<std::io::Error> for BatteryError {
    /// An I/O failure carrying the error's text.
    fn from(e: std::io::Error) -> (r: BatteryError)
        ensures
            r is Io,
    {
        BatteryError::Io { message: e.to_string() }
    }
}

impl vstd::std_specs::convert::FromSpecImpl<std::io::Error> for BatteryError {
    open spec fn obeys_from_spec() -> bool {
        false
    }

    open spec fn from_spec(e: std::io::Error) -> BatteryError {
        arbitrary()
    }
}

} // verus!
