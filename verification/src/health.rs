//! The liveness probe.

use vstd::prelude::*;

use crate::reply::{Payload, PayloadView, Reply, ReplyView, STATUS_OK};

verus! {

/// The body of every answer to the liveness probe.
pub const HEALTH_BODY: &'static str = "Service is running";

/// The reply of the liveness probe.
pub open spec fn health_reply() -> ReplyView {
    ReplyView { status: STATUS_OK as int, payload: PayloadView::Text(HEALTH_BODY@) }
}

/// Answers the liveness probe: status 200 and the text [`HEALTH_BODY`].
///
/// The probe takes no input and cannot fail.
pub fn health_check() -> (reply: Reply)
    ensures
        reply@ == health_reply(),
{
    Reply { status: STATUS_OK, payload: Payload::Text(HEALTH_BODY.to_owned()) }
}

} // verus!
