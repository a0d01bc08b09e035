//! Event subject patterns

use vstd::prelude::*;

verus! {

/// Call events
pub const CALL_STARTED: &'static str = "voip.call.started";

pub const CALL_ENDED: &'static str = "voip.call.ended";

pub const CALL_FAILED: &'static str = "voip.call.failed";

/// Registration events
pub const REGISTRATION_SUCCESS: &'static str = "voip.registration.success";

pub const REGISTRATION_FAILED: &'static str = "voip.registration.failed";

/// Service events
pub const SERVICE_HEALTH: &'static str = "voip.service.health";

pub const SERVICE_STARTED: &'static str = "voip.service.started";

pub const SERVICE_STOPPED: &'static str = "voip.service.stopped";

/// Media events
pub const MEDIA_STARTED: &'static str = "voip.media.started";

pub const MEDIA_STOPPED: &'static str = "voip.media.stopped";

} // verus!
