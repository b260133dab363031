use vstd::prelude::*;

verus! {

/// HTTP status "No Content": the only answer that counts as a live heartbeat.
pub const NO_CONTENT: u16 = 204;

/// Whether an HTTP status code lies in the success class 2xx.
pub open spec fn is_success_status(status: u16) -> bool {
    200 <= status && status <= 299
}

/// Whether an HTTP status code lies in the success class 2xx.
pub fn is_success(status: u16) -> (r: bool)
    ensures
        r == is_success_status(status),
{
    200 <= status && status <= 299
}

/// How a heartbeat that got an answer is reported.
#[derive(Clone, Copy, Debug, PartialEq, Eq, Structural)]
pub enum HeartbeatOutcome {
    Received,
    Failed,
}

/// The outcome for a heartbeat answered with `status`: exact match on 204,
/// not on the status class.
pub open spec fn heartbeat_outcome(status: u16) -> HeartbeatOutcome {
    if status == NO_CONTENT {
        HeartbeatOutcome::Received
    } else {
        HeartbeatOutcome::Failed
    }
}

pub fn classify_heartbeat(status: u16) -> (r: HeartbeatOutcome)
    ensures
        r == heartbeat_outcome(status),
{
    if status == NO_CONTENT {
        HeartbeatOutcome::Received
    } else {
        HeartbeatOutcome::Failed
    }
}

} // verus!
