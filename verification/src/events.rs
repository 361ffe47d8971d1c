//! The room state events that a room member is built and updated from.

use crate::membership::MembershipState;
use crate::safe_int::{fits_safe_int, is_safe_int};
use vstd::prelude::*;

verus! {

/// What a membership event says about its participant.
#[derive(Debug)]
pub struct MemberEventContent {
    /// The membership that the event declares.
    pub membership: MembershipState,
}

/// A membership event of one participant in one room.
#[derive(Debug)]
pub struct MemberEvent {
    /// The participant that the event is about.
    pub sender: String,
    /// The room of the event, where the event names one.
    pub room_id: Option<String>,
    /// The declared membership.
    pub content: MemberEventContent,
    /// The state key of the event.
    pub state_key: String,
}

impl Clone for MemberEvent {
    fn clone(&self) -> (copy: Self)
        ensures
            copy == *self,
    {
        let room_id = match &self.room_id {
            Some(id) => Some(id.clone()),
            None => None,
        };
        MemberEvent {
            sender: self.sender.clone(),
            room_id,
            content: MemberEventContent { membership: self.content.membership },
            state_key: self.state_key.clone(),
        }
    }
}

/// The power levels that a room assigns to its participants.
#[derive(Debug)]
pub struct PowerLevelsEventContent {
    /// The power of every participant without an entry in `users`.
    pub users_default: i64,
    /// The participants with a power of their own, each listed once.
    pub users: Vec<(String, i64)>,
}

/// A power-levels event of one room.
#[derive(Debug)]
pub struct PowerLevelsEvent {
    /// The power levels that the event sets.
    pub content: PowerLevelsEventContent,
}

/// An event that a room member keeps in its log.
#[derive(Debug)]
pub enum Event {
    /// A membership event.
    RoomMember(MemberEvent),
    /// A power-levels event.
    RoomPowerLevels(PowerLevelsEvent),
}

/// The larger of two powers.
pub open spec fn larger(a: i64, b: i64) -> i64 {
    if a >= b {
        a
    } else {
        b
    }
}

impl PowerLevelsEvent {
    /// Whether entry `i` of `users` is about the participant `user_id`.
    pub open spec fn entry_is(&self, i: int, user_id: Seq<char>) -> bool {
        0 <= i < self.content.users@.len() && self.content.users@[i].0@ == user_id
    }

    /// The event is well formed: every power lies in the range of a
    /// `js_int::Int`, and no participant is listed twice.
    pub open spec fn wf(&self) -> bool {
        &&& is_safe_int(self.content.users_default as int)
        &&& forall|i: int|
            0 <= i < self.content.users@.len() ==> is_safe_int(
                (#[trigger] self.content.users@[i]).1 as int,
            )
        &&& forall|i: int, j: int|
            0 <= i < j < self.content.users@.len() ==> (#[trigger] self.content.users@[i]).0@
                != (#[trigger] self.content.users@[j]).0@
    }

    /// The powers that the event gives to participants by name.
    pub open spec fn overrides(&self) -> Map<Seq<char>, i64> {
        Map::new(
            |user_id: Seq<char>| exists|i: int| self.entry_is(i, user_id),
            |user_id: Seq<char>| self.content.users@[choose|i: int| self.entry_is(i, user_id)].1,
        )
    }

    /// The power that the event gives to `user_id`: the participant's own
    /// entry where there is one, the default otherwise.
    pub open spec fn spec_power_of(&self, user_id: Seq<char>) -> i64 {
        if self.overrides().contains_key(user_id) {
            self.overrides()[user_id]
        } else {
            self.content.users_default
        }
    }

    /// The largest power among the default and the first `n` entries.
    pub open spec fn max_of_first(&self, n: int) -> i64
        decreases n,
    {
        if n <= 0 {
            self.content.users_default
        } else {
            larger(self.max_of_first(n - 1), self.content.users@[n - 1].1)
        }
    }

    /// The largest power that the event mentions, the default included.
    pub open spec fn spec_max_power(&self) -> i64 {
        self.max_of_first(self.content.users@.len() as int)
    }

    /// The largest power among the default and the first `n` entries is at
    /// least each of them, and is one of them.
    pub proof fn lemma_max_of_first(&self, n: int)
        requires
            0 <= n <= self.content.users@.len(),
        ensures
            self.max_of_first(n) >= self.content.users_default,
            forall|i: int| 0 <= i < n ==> self.max_of_first(n) >= (#[trigger] self.content.users@[i]).1,
            self.max_of_first(n) == self.content.users_default || exists|i: int|
                0 <= i < n && self.max_of_first(n) == (#[trigger] self.content.users@[i]).1,
        decreases n,
    {
        if n > 0 {
            self.lemma_max_of_first(n - 1);
            let prev = self.max_of_first(n - 1);
            if prev != self.content.users_default && self.max_of_first(n) == prev {
                let i = choose|i: int|
                    0 <= i < n - 1 && prev == (#[trigger] self.content.users@[i]).1;
                assert(0 <= i < n && self.max_of_first(n) == self.content.users@[i].1);
            } else if self.max_of_first(n) != prev {
                assert(self.max_of_first(n) == self.content.users@[n - 1].1);
            }
        }
    }

    /// The largest power of the event is at least the default and every
    /// listed power, and is one of them.
    pub proof fn lemma_max_power(&self)
        ensures
            self.spec_max_power() >= self.content.users_default,
            forall|i: int|
                0 <= i < self.content.users@.len() ==> self.spec_max_power() >= (
                #[trigger] self.content.users@[i]).1,
            self.spec_max_power() == self.content.users_default || exists|i: int|
                0 <= i < self.content.users@.len() && self.spec_max_power() == (
                #[trigger] self.content.users@[i]).1,
    {
        self.lemma_max_of_first(self.content.users@.len() as int);
    }

    /// The power of a participant is the default or a listed power, so it
    /// never exceeds the largest power of the event, and in a well-formed
    /// event both lie in the range of a `js_int::Int`.
    pub proof fn lemma_power_of_bounds(&self, user_id: Seq<char>)
        ensures
            self.spec_power_of(user_id) <= self.spec_max_power(),
            self.wf() ==> is_safe_int(self.spec_power_of(user_id) as int),
            self.wf() ==> is_safe_int(self.spec_max_power() as int),
    {
        self.lemma_max_power();
        if self.overrides().contains_key(user_id) {
            let i = choose|i: int| self.entry_is(i, user_id);
            assert(self.entry_is(i, user_id));
            assert(self.spec_power_of(user_id) == self.content.users@[i].1);
        }
    }

    /// Whether the event is well formed.
    pub fn is_valid(&self) -> (ok: bool)
        ensures
            ok == self.wf(),
    {
        if !fits_safe_int(self.content.users_default) {
            return false;
        }
        let n = self.content.users.len();
        let mut i: usize = 0;
        while i < n
            invariant
                n == self.content.users@.len(),
                0 <= i <= n,
                is_safe_int(self.content.users_default as int),
                forall|k: int| 0 <= k < i ==> is_safe_int((#[trigger] self.content.users@[k]).1 as int),
                forall|a: int, b: int|
                    0 <= a < b < i ==> (#[trigger] self.content.users@[a]).0@ != (
                    #[trigger] self.content.users@[b]).0@,
            decreases n - i,
        {
            if !fits_safe_int(self.content.users[i].1) {
                assert(!is_safe_int(self.content.users@[i as int].1 as int));
                return false;
            }
            let mut j: usize = 0;
            while j < i
                invariant
                    n == self.content.users@.len(),
                    0 <= j <= i < n,
                    forall|a: int|
                        0 <= a < j ==> (#[trigger] self.content.users@[a]).0@
                            != self.content.users@[i as int].0@,
                decreases i - j,
            {
                if self.content.users[j].0 == self.content.users[i].0 {
                    assert(self.content.users@[j as int].0@ == self.content.users@[i as int].0@);
                    return false;
                }
                j += 1;
            }
            i += 1;
        }
        true
    }

    /// The largest power that the event mentions, the default included.
    pub fn max_power(&self) -> (max: i64)
        ensures
            max == self.spec_max_power(),
    {
        let mut max: i64 = self.content.users_default;
        let mut i: usize = 0;
        while i < self.content.users.len()
            invariant
                0 <= i <= self.content.users@.len(),
                max == self.max_of_first(i as int),
            decreases self.content.users@.len() - i,
        {
            let power: i64 = self.content.users[i].1;
            if power > max {
                max = power;
            }
            i += 1;
        }
        max
    }

    /// The power that the event gives to `user_id`.
    pub fn power_of(&self, user_id: &String) -> (power: i64)
        requires
            self.wf(),
        ensures
            power == self.spec_power_of(user_id@),
    {
        let mut i: usize = 0;
        while i < self.content.users.len()
            invariant
                self.wf(),
                0 <= i <= self.content.users@.len(),
                forall|k: int| 0 <= k < i ==> !self.entry_is(k, user_id@),
            decreases self.content.users@.len() - i,
        {
            if self.content.users[i].0 == *user_id {
                proof {
                    assert(self.entry_is(i as int, user_id@));
                    let c = choose|c: int| self.entry_is(c, user_id@);
                    assert(self.entry_is(c, user_id@));
                    assert(c == i) by {
                        if i < c {
                            assert(self.content.users@[i as int].0@ != self.content.users@[c].0@);
                        }
                    }
                }
                return self.content.users[i].1;
            }
            i += 1;
        }
        proof {
            assert(!self.overrides().contains_key(user_id@));
        }
        self.content.users_default
    }
}

} // verus!
