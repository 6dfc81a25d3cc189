//! The deadline of a transfer.
use vstd::prelude::*;

use crate::clock::Moment;
use crate::protocol::message::ProtocolError;

verus! {

pub open spec fn deadline_verdict(now: Moment, deadline: Moment) -> Result<(), ProtocolError> {
    if now.reached(deadline) {
        Err(ProtocolError::Timeout)
    } else {
        Ok(())
    }
}

/// A transfer has time left exactly before its deadline; from the deadline on it
/// has timed out.
pub proof fn law_deadline_is_a_timeout(now: Moment, deadline: Moment)
    ensures
        deadline_verdict(now, deadline) is Ok <==> now.nanos < deadline.nanos,
        deadline_verdict(now, deadline) matches Err(error) ==> error == ProtocolError::Timeout,
{
}

/// Fails once the deadline has been reached.
pub fn check_deadline(now: Moment, deadline: Moment) -> (checked: Result<(), ProtocolError>)
    ensures
        checked == deadline_verdict(now, deadline),
{
    if now.has_reached(deadline) {
        Err(ProtocolError::Timeout)
    } else {
        Ok(())
    }
}

} // verus!
