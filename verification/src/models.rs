use vstd::prelude::*;

verus! {

/// The body that answers the health check at `/`.
#[derive(Debug, Clone)]
pub struct HealthCheck {
    pub name: String,
    pub version: String,
    pub status: String,
}

/// The service's health report: its name, its version and that it is running.
pub fn health_check() -> (h: HealthCheck)
    ensures
        h.name@ == "Nullith API"@,
        h.version@ == "1.0.0"@,
        h.status@ == "running"@,
{
    HealthCheck {
        name: String::from_str("Nullith API"),
        version: String::from_str("1.0.0"),
        status: String::from_str("running"),
    }
}

} // verus!
