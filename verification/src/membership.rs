//! A participant's relationship to a room.

use vstd::prelude::*;

verus! {

/// The membership that a membership event declares for a participant.
///
/// Any declared state is taken as it comes: which transitions are legal is
/// decided where events are validated, not here.
#[derive(Clone, Copy, Debug, PartialEq, Eq, Structural)]
pub enum MembershipState {
    /// The participant was invited to the room.
    Invite,
    /// The participant has joined the room.
    Join,
    /// The participant has left the room.
    Leave,
    /// The participant was banned from the room.
    Ban,
    /// The participant asked to be let into the room.
    Knock,
}

} // verus!
