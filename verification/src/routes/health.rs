use vstd::prelude::*;
use vstd::string::StringExecFns;

verus! {

/// The answer of the health check.
#[derive(Debug)]
pub struct HealthRespPayload {
    pub message: String,
}

/// The health check: the service is up.
pub fn health() -> (payload: HealthRespPayload)
    ensures
        payload.message@ == "Health is good"@,
{
    HealthRespPayload { message: String::from_str("Health is good") }
}

} // verus!
