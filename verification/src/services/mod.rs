//! What every backend service reports about itself.
use vstd::prelude::*;

verus! {

/// A backend service, known by name. Starting, stopping and probing a
/// service run on the async runtime around this library.
pub trait Service {
    /// The name used in logs.
    fn name(&self) -> &'static str;
}

/// How well a service runs.
#[derive(Debug, Clone, PartialEq)]
pub enum ServiceHealth {
    Healthy,
    /// Working, but impaired for the reason given.
    Degraded { reason: String },
    /// Not working, for the reason given.
    Unhealthy { reason: String },
}

impl ServiceHealth {
    /// Whether the service is healthy.
    pub fn is_healthy(&self) -> (r: bool)
        ensures
            r == (self is Healthy),
    {
        match self {
            ServiceHealth::Healthy => true,
            _ => false,
        }
    }

    /// The reason a service is degraded or unhealthy.
    pub fn reason(&self) -> (r: Option<&str>)
        ensures
            match self {
                ServiceHealth::Healthy => r is None,
                ServiceHealth::Degraded { reason } => r matches Some(s) && s@ == reason@,
                ServiceHealth::Unhealthy { reason } => r matches Some(s) && s@ == reason@,
            },
    {
        match self {
            ServiceHealth::Healthy => None,
            ServiceHealth::Degraded { reason } => Some(reason.as_str()),
            ServiceHealth::Unhealthy { reason } => Some(reason.as_str()),
        }
    }
}

} // verus!
