//! When the pupil value goes out to VRChat.
//!
//! A value is sent when it moved enough to be visible on the avatar, and the
//! current value is repeated at least once per heartbeat, so that an avatar
//! that just loaded picks up the pupil instead of sitting at its default until
//! the light changes. Everything that is not a move goes unsent: VRChat is
//! happier without the traffic.

use vstd::prelude::*;

verus! {

/// Repeat the current value at least this often, in nanoseconds (one second).
pub const HEARTBEAT_NANOS: u128 = 1_000_000_000;

/// What is known about the last packet that went out, at the moment a new
/// value is offered.
#[derive(Clone, Copy, Debug, PartialEq, Eq, Structural)]
pub struct LastSend {
    /// The offered value differs from the last one sent by at least the
    /// smallest step an avatar can show.
    pub moved: bool,
    /// Nanoseconds since the last packet went out.
    pub elapsed_nanos: u128,
}

/// Whether a value is due to be sent, given what is known of the last packet
/// (`None` when nothing has been sent yet).
pub open spec fn due(last: Option<LastSend>) -> bool {
    match last {
        None => true,
        Some(l) => l.moved || l.elapsed_nanos >= HEARTBEAT_NANOS,
    }
}

/// Decides whether the offered value goes out: always the first one, then
/// any that moved, and a steady one once the heartbeat has run out.
pub fn is_due(last: Option<LastSend>) -> (res: bool)
    ensures
        res == due(last),
{
    match last {
        None => true,
        Some(l) => l.moved || l.elapsed_nanos >= HEARTBEAT_NANOS,
    }
}

/// A steady value is quiet within the heartbeat, and repeated once it has
/// run out; a value that moved always goes out.
pub proof fn lemma_steady_values_wait_for_the_heartbeat(elapsed_nanos: u128)
    ensures
        due(Some(LastSend { moved: false, elapsed_nanos })) <==> elapsed_nanos >= HEARTBEAT_NANOS,
        due(Some(LastSend { moved: true, elapsed_nanos })),
        due(None),
{
}

} // verus!
