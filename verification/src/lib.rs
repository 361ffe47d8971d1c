//! State of a single room participant, kept up to date from room state events.
//!
//! A [`RoomMember`] is built from the first membership event seen for a
//! participant and then updated in place by later membership and power-levels
//! events. Every update reports whether it altered the value it assigns.

pub mod events;
pub mod membership;
pub mod power;
pub mod room_member;
pub mod safe_int;

pub use events::{Event, MemberEvent, MemberEventContent, PowerLevelsEvent, PowerLevelsEventContent};
pub use membership::MembershipState;
pub use room_member::{RoomMember, User};
