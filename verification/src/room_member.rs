//! A participant of a room, as the room's state events describe it.

use crate::events::{Event, MemberEvent, PowerLevelsEvent};
use crate::membership::MembershipState;
use crate::power::{
    can_scale, is_scalable, lemma_normalized_power_range, normalize_power, normalized_power,
};
use crate::safe_int::is_safe_int;
use vstd::prelude::*;

verus! {

/// What is known of the person behind a room member.
#[derive(Debug)]
pub struct User {
    /// The name that the person goes by.
    pub name: String,
}

impl User {
    /// The user that the membership event `event` introduces, named by the
    /// state key of the event.
    pub fn new(event: &MemberEvent) -> (user: User)
        ensures
            user.name == event.state_key,
    {
        User { name: event.state_key.clone() }
    }
}

/// A member of a room.
#[derive(Debug)]
pub struct RoomMember {
    /// The unique id of the participant.
    pub user_id: String,
    /// The unique id of the room, where it is known.
    pub room_id: Option<String>,
    /// Whether the member is typing, where that is known.
    pub typing: Option<bool>,
    /// The user data of this room member.
    pub user: User,
    /// The power level of the member, once a power-levels event was applied.
    pub power_level: Option<i64>,
    /// The power level as a percentage of the largest power of the room.
    pub power_level_norm: Option<i64>,
    /// The membership of this room member.
    pub membership: MembershipState,
    /// The human readable name of this room member.
    pub name: String,
    /// The events that made this room member what it is, oldest first.
    pub events: Vec<Event>,
}

impl RoomMember {
    /// The member is well formed: the log holds an event, a percentage is
    /// there only beside a power level, and both powers lie in the range of a
    /// `js_int::Int`.
    pub open spec fn wf(&self) -> bool {
        &&& self.events@.len() >= 1
        &&& self.power_level_norm is Some ==> self.power_level is Some
        &&& self.power_level matches Some(power) ==> is_safe_int(power as int)
        &&& self.power_level_norm matches Some(norm) ==> is_safe_int(norm as int)
    }

    /// The member after the membership event `event` was applied to it.
    pub open spec fn member_applied(self, event: &MemberEvent) -> RoomMember {
        RoomMember { membership: event.content.membership, ..self }
    }

    /// Whether applying the membership event `event` alters the membership.
    pub open spec fn member_changes(self, event: &MemberEvent) -> bool {
        self.membership != event.content.membership
    }

    /// The percentage that the member has once the power-levels event `event`
    /// was applied: computed anew where the largest power of the event is
    /// positive, kept as it was otherwise.
    pub open spec fn norm_applied(self, event: &PowerLevelsEvent) -> Option<i64> {
        if event.spec_max_power() > 0 {
            Some(
                normalized_power(
                    event.spec_power_of(self.user_id@) as int,
                    event.spec_max_power() as int,
                ) as i64,
            )
        } else {
            self.power_level_norm
        }
    }

    /// The member after the power-levels event `event` was applied to it.
    pub open spec fn power_applied(self, event: &PowerLevelsEvent) -> RoomMember {
        RoomMember {
            power_level: Some(event.spec_power_of(self.user_id@)),
            power_level_norm: self.norm_applied(event),
            ..self
        }
    }

    /// Whether applying the power-levels event `event` alters the power level.
    pub open spec fn power_changes(self, event: &PowerLevelsEvent) -> bool {
        self.power_level != Some(event.spec_power_of(self.user_id@))
    }

    /// Whether the power-levels event `event` can be applied to the member:
    /// the event is well formed and, where a percentage is to be computed,
    /// the member's power can be scaled.
    pub open spec fn accepts(self, event: &PowerLevelsEvent) -> bool {
        &&& event.wf()
        &&& event.spec_max_power() > 0 ==> is_scalable(event.spec_power_of(self.user_id@) as int)
    }

    /// The member that the membership event `event` introduces.
    ///
    /// It has the membership that the event declares and no power yet, and
    /// its log holds the event alone.
    pub fn new(event: &MemberEvent) -> (member: RoomMember)
        ensures
            member.user_id == event.sender,
            member.room_id == event.room_id,
            member.typing is None,
            member.user.name == event.state_key,
            member.power_level is None,
            member.power_level_norm is None,
            member.membership == event.content.membership,
            member.name == event.state_key,
            member.events@ == seq![Event::RoomMember(*event)],
            member.wf(),
    {
        let user = User::new(event);
        let room_id = match &event.room_id {
            Some(id) => Some(id.clone()),
            None => None,
        };
        let mut events: Vec<Event> = Vec::new();
        events.push(Event::RoomMember(event.clone()));
        RoomMember {
            room_id,
            user_id: event.sender.clone(),
            typing: None,
            user,
            power_level: None,
            power_level_norm: None,
            membership: event.content.membership,
            name: event.state_key.clone(),
            events,
        }
    }

    /// Applies the membership event `event`: the member takes the membership
    /// that the event declares, whatever it had before.
    ///
    /// Returns whether the membership is another than before the call.
    pub fn update_member(&mut self, event: &MemberEvent) -> (changed: bool)
        ensures
            *final(self) == old(self).member_applied(event),
            changed == old(self).member_changes(event),
            final(self).membership == event.content.membership,
            changed == (old(self).membership != event.content.membership),
            old(self).wf() ==> final(self).wf(),
    {
        let changed = self.membership != event.content.membership;
        self.membership = event.content.membership;
        changed
    }

    /// Applies the power-levels event `event`: the member takes the power
    /// that the event gives it and, where the largest power of the event is
    /// positive, that power as a percentage of the largest. Where the largest
    /// power is not positive, the percentage stays as it was.
    ///
    /// Returns whether the power level is another than before the call.
    pub fn update_power(&mut self, event: &PowerLevelsEvent) -> (changed: bool)
        requires
            old(self).accepts(event),
        ensures
            *final(self) == old(self).power_applied(event),
            changed == old(self).power_changes(event),
            final(self).power_level == Some(event.spec_power_of(old(self).user_id@)),
            event.spec_max_power() > 0 ==> (final(self).power_level_norm matches Some(norm)
                && norm == normalized_power(
                event.spec_power_of(old(self).user_id@) as int,
                event.spec_max_power() as int,
            )),
            event.spec_max_power() <= 0 ==> final(self).power_level_norm == old(
                self,
            ).power_level_norm,
            changed == (old(self).power_level != Some(event.spec_power_of(old(self).user_id@))),
            old(self).wf() ==> final(self).wf(),
    {
        let max_power: i64 = event.max_power();
        let power: i64 = event.power_of(&self.user_id);
        proof {
            event.lemma_power_of_bounds(self.user_id@);
        }
        let changed = match self.power_level {
            Some(before) => before != power,
            None => true,
        };
        self.power_level = Some(power);
        if max_power > 0 {
            self.power_level_norm = Some(normalize_power(power, max_power));
        }
        changed
    }

    /// Applies the power-levels event `event` where the member accepts it,
    /// as `update_power` does, and leaves the member as it is otherwise.
    ///
    /// Returns whether the power level is another than before the call, or
    /// `None` where the event was not applied.
    pub fn checked_update_power(&mut self, event: &PowerLevelsEvent) -> (changed: Option<bool>)
        ensures
            old(self).accepts(event) ==> *final(self) == old(self).power_applied(event) && changed
                == Some(old(self).power_changes(event)),
            !old(self).accepts(event) ==> *final(self) == *old(self) && changed is None,
    {
        if !event.is_valid() {
            return None;
        }
        if event.max_power() > 0 && !can_scale(event.power_of(&self.user_id)) {
            return None;
        }
        Some(self.update_power(event))
    }

    /// Applying a membership event sets the declared membership; applying it
    /// once more alters nothing and reports no change. The first application
    /// reports a change where the member had another membership before.
    pub proof fn lemma_update_member_twice(self, event: &MemberEvent)
        ensures
            self.membership != event.content.membership ==> self.member_changes(event),
            self.member_applied(event).membership == event.content.membership,
            !self.member_applied(event).member_changes(event),
            self.member_applied(event).member_applied(event) == self.member_applied(event),
    {
    }

    /// Applying a power-levels event a second time alters nothing and
    /// reports no change.
    pub proof fn lemma_update_power_twice(self, event: &PowerLevelsEvent)
        ensures
            !self.power_applied(event).power_changes(event),
            self.power_applied(event).power_applied(event) == self.power_applied(event),
    {
    }

    /// No update touches the identity of the member, its room or its log.
    pub proof fn lemma_updates_keep_identity(
        self,
        member_event: &MemberEvent,
        power_event: &PowerLevelsEvent,
    )
        ensures
            self.member_applied(member_event).user_id == self.user_id,
            self.member_applied(member_event).room_id == self.room_id,
            self.member_applied(member_event).events == self.events,
            self.power_applied(power_event).user_id == self.user_id,
            self.power_applied(power_event).room_id == self.room_id,
            self.power_applied(power_event).events == self.events,
    {
    }

    /// Where the largest power of the event is positive and the event gives
    /// the member a power that is not negative, the member's percentage after
    /// the event is `power * 100 / max` rounded down, between 0 and 100.
    pub proof fn lemma_update_power_normalizes(self, event: &PowerLevelsEvent)
        requires
            event.spec_max_power() > 0,
            event.spec_power_of(self.user_id@) >= 0,
        ensures
            self.power_applied(event).power_level_norm == Some(
                ((event.spec_power_of(self.user_id@) * 100) / (event.spec_max_power() as int)) as i64,
            ),
            0 <= (event.spec_power_of(self.user_id@) * 100) / (event.spec_max_power() as int)
                <= 100,
            event.spec_power_of(self.user_id@) <= event.spec_max_power(),
    {
        event.lemma_power_of_bounds(self.user_id@);
        lemma_normalized_power_range(
            event.spec_power_of(self.user_id@) as int,
            event.spec_max_power() as int,
        );
    }

    /// Where neither the default nor any listed power of the event is
    /// positive, the largest power is not positive either, and the event
    /// leaves the member's percentage as it was.
    pub proof fn lemma_update_power_keeps_norm(self, event: &PowerLevelsEvent)
        requires
            event.content.users_default <= 0,
            forall|i: int|
                0 <= i < event.content.users@.len() ==> (#[trigger] event.content.users@[i]).1
                    <= 0,
        ensures
            event.spec_max_power() <= 0,
            self.power_applied(event).power_level_norm == self.power_level_norm,
    {
        event.lemma_max_power();
    }
}

} // verus!
