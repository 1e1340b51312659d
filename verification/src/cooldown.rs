//! The cooldown filter: when each user was last notified in each channel.

use std::collections::HashMap;
use vstd::prelude::*;

verus! {

broadcast use vstd::std_specs::hash::group_hash_axioms;

/// The slot of a user in a channel: both ids side by side in one key.
pub open spec fn slot(user: u64, channel: u64) -> u128 {
    (user * 0x1_0000_0000_0000_0000 + channel) as u128
}

/// Whether `user` may be notified in `channel` at `now`: nothing is on record
/// for the two, or more than `interval` has passed since.
pub open spec fn due(
    last: Map<(u64, u64), u64>,
    interval: u64,
    user: u64,
    channel: u64,
    now: u64,
) -> bool {
    last.contains_key((user, channel)) ==> now - last[(user, channel)] > interval
}

/// The time of the last notification of each user in each channel, and the
/// interval that must pass before the next one. Times and the interval are in
/// one unit, which the caller chooses.
pub struct Cooldowns {
    interval: u64,
    last: HashMap<u128, u64>,
}

impl View for Cooldowns {
    type V = Map<(u64, u64), u64>;

    closed spec fn view(&self) -> Map<(u64, u64), u64> {
        Map::new(
            |key: (u64, u64)| self.last@.contains_key(slot(key.0, key.1)),
            |key: (u64, u64)| self.last@[slot(key.0, key.1)],
        )
    }
}

impl Cooldowns {
    /// The interval that must pass between two notifications.
    pub closed spec fn spec_interval(&self) -> u64 {
        self.interval
    }

    /// A filter with nothing on record.
    pub fn new(interval: u64) -> (filter: Cooldowns)
        ensures
            filter@ == Map::<(u64, u64), u64>::empty(),
            filter.interval() == interval,
    {
        let filter = Cooldowns { interval, last: HashMap::new() };
        proof {
            assert(filter@ =~= Map::<(u64, u64), u64>::empty());
        }
        filter
    }

    /// The interval that must pass between two notifications.
    #[verifier::when_used_as_spec(spec_interval)]
    pub fn interval(&self) -> (interval: u64)
        ensures
            interval == self.interval(),
    {
        self.interval
    }

    /// When `user` was last notified in `channel`, if ever.
    pub fn last_notified(&self, user: u64, channel: u64) -> (at: Option<u64>)
        ensures
            at == (if self@.contains_key((user, channel)) {
                Some(self@[(user, channel)])
            } else {
                None
            }),
    {
        let key: u128 = (user as u128) * 0x1_0000_0000_0000_0000u128 + (channel as u128);
        match self.last.get(&key) {
            Some(at) => Some(*at),
            None => None,
        }
    }

    /// Whether `user` may be notified in `channel` at `now`.
    pub fn should_notify(&self, user: u64, channel: u64, now: u64) -> (ok: bool)
        ensures
            ok == due(self@, self.interval(), user, channel, now),
    {
        match self.last_notified(user, channel) {
            Some(at) => now > at && now - at > self.interval,
            None => true,
        }
    }

    /// Puts on record that `user` was notified in `channel` at `now`, in place
    /// of what was on record for the two.
    pub fn record(&mut self, user: u64, channel: u64, now: u64)
        ensures
            final(self)@ == old(self)@.insert((user, channel), now),
            final(self).interval() == old(self).interval(),
    {
        let key: u128 = (user as u128) * 0x1_0000_0000_0000_0000u128 + (channel as u128);
        self.last.insert(key, now);
        proof {
            assert(key == slot(user, channel));
            assert forall|other: (u64, u64)| other != (user, channel) implies slot(other.0, other.1)
                != key by {}
            assert(final(self)@ =~= old(self)@.insert((user, channel), now));
        }
    }
}

} // verus!
