use vstd::prelude::*;

verus! {

/// The service's own priority type, whose variants are read as declared.
#[verifier::external_type_specification]
pub struct ExServicePriority(pushover::Priority);

/// Seconds between the service's repeated alerts for an emergency notification.
pub const EMERGENCY_RETRY: u32 = 30;

/// Seconds after which the service stops repeating an emergency notification.
pub const EMERGENCY_EXPIRE: u32 = 10800;

/// The urgency of a notification, from the quietest to the one that is
/// repeated until acknowledged.
#[derive(Clone, Copy, Debug, PartialEq, Eq, Structural)]
pub enum PriorityLevel {
    Lowest,
    Low,
    Normal,
    High,
    Emergency,
}

/// The service-level priority that a priority level stands for.
pub open spec fn spec_service_priority(p: PriorityLevel) -> pushover::Priority {
    match p {
        PriorityLevel::Lowest => pushover::Priority::Lowest,
        PriorityLevel::Low => pushover::Priority::Low,
        PriorityLevel::Normal => pushover::Priority::Normal,
        PriorityLevel::High => pushover::Priority::High,
        PriorityLevel::Emergency => pushover::Priority::Emergency {
            retry: EMERGENCY_RETRY,
            expire: EMERGENCY_EXPIRE,
            callback_url: None,
        },
    }
}

/// Maps a priority level onto the service's representation. Only the
/// emergency level carries retry and expiry parameters, fixed at 30 s and
/// 10800 s, and it never names a callback URL.
pub fn service_priority(p: PriorityLevel) -> (r: pushover::Priority)
    ensures
        r == spec_service_priority(p),
        p != PriorityLevel::Emergency ==> !(r is Emergency),
        p == PriorityLevel::Emergency ==> (r matches pushover::Priority::Emergency { retry, expire, callback_url }
            && retry == 30 && expire == 10800 && callback_url is None),
{
    match p {
        PriorityLevel::Lowest => pushover::Priority::Lowest,
        PriorityLevel::Low => pushover::Priority::Low,
        PriorityLevel::Normal => pushover::Priority::Normal,
        PriorityLevel::High => pushover::Priority::High,
        PriorityLevel::Emergency => pushover::Priority::Emergency {
            retry: EMERGENCY_RETRY,
            expire: EMERGENCY_EXPIRE,
            callback_url: None,
        },
    }
}

} // verus!
