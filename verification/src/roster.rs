//! The mathematical model of one chat: who is on the call list, who is barred
//! from it, and which verification challenges are outstanding.
//!
//! Every operation of the store is a function on this model; the executable
//! code in [`crate::call_map`] is proved to compute exactly these functions.

use vstd::prelude::*;
use crate::seq_facts::lemma_filter_member;
use crate::user::{Member, Timestamp, UserId, UserView};

verus! {

/// How long a challenge stays answerable, in nanoseconds (thirty seconds).
pub const CAPTCHA_TTL: Timestamp = 30_000_000_000u128;

/// The outcome of a registration.
#[derive(Clone, Copy, Debug, PartialEq, Eq, Structural)]
pub enum CallResult {
    AlreadyRegistered,
    Registered,
    InBlacklist,
}

/// The outcome of leaving the call list.
#[derive(Clone, Copy, Debug, PartialEq, Eq, Structural)]
pub enum LeaveResult {
    NotRegistered,
    Left,
}

/// The outcome of barring a user.
#[derive(Clone, Copy, Debug, PartialEq, Eq, Structural)]
pub enum BlacklistResult {
    AlreadyBlacklisted,
    Blacklisted,
}

/// The outcome of lifting a bar.
#[derive(Clone, Copy, Debug, PartialEq, Eq, Structural)]
pub enum UnblacklistResult {
    NotInBlacklist,
    Unblacklisted,
}

/// An outstanding challenge: who must answer, the answer expected of them, and
/// the first instant at which the challenge no longer counts.
pub struct Challenge {
    pub user: UserId,
    pub answer: bool,
    pub expiry: int,
}

impl Challenge {
    /// A challenge is live strictly before its expiry.
    pub open spec fn live_at(self, now: Timestamp) -> bool {
        self.expiry > now
    }
}

/// Holds of every roster entry but those of `id`.
pub open spec fn other_than(id: UserId) -> spec_fn(Member) -> bool {
    |m: Member| m.user.id != id
}

/// Holds of every identity but `id`.
pub open spec fn not_id(id: UserId) -> spec_fn(UserId) -> bool {
    |other: UserId| other != id
}

/// Holds of the challenges that are live at `now`.
pub open spec fn still_live(now: Timestamp) -> spec_fn(Challenge) -> bool {
    |c: Challenge| c.live_at(now)
}

/// The state of one chat.
#[verifier::ext_equal]
pub struct Roster {
    /// The call list, in order of registration.
    pub members: Seq<Member>,
    /// The users barred from the call list.
    pub blacklist: Set<UserId>,
    /// The outstanding challenges, oldest first.
    pub pending: Seq<Challenge>,
}

impl Roster {
    /// The state of a chat nobody has touched.
    pub open spec fn empty() -> Roster {
        Roster { members: Seq::empty(), blacklist: Set::empty(), pending: Seq::empty() }
    }

    /// The identities on the call list, in order.
    pub open spec fn ids(self) -> Seq<UserId> {
        self.members.map_values(|m: Member| m.user.id)
    }

    /// The identities with an outstanding challenge, oldest first.
    pub open spec fn challenged(self) -> Seq<UserId> {
        self.pending.map_values(|c: Challenge| c.user)
    }

    /// Whether `id` is on the call list.
    pub open spec fn has_user(self, id: UserId) -> bool {
        self.ids().contains(id)
    }

    /// How many entries of the call list are entries of `id`.
    pub open spec fn times_listed(self, id: UserId) -> nat {
        self.ids().to_multiset().count(id)
    }

    /// Whether `id` is barred.
    pub open spec fn is_blacklisted(self, id: UserId) -> bool {
        self.blacklist.contains(id)
    }

    /// The users on the call list, in order.
    pub open spec fn call_list(self) -> Seq<UserView> {
        self.members.map_values(|m: Member| m.user)
    }

    /// The sponsor recorded for `id`: none where `id` is not listed, and none
    /// where the registration was anonymised.
    pub open spec fn sponsor_of(self, id: UserId) -> Option<UserView> {
        match self.ids().index_of_first(id) {
            Some(i) => self.members[i].sponsor,
            None => None,
        }
    }

    /// A barred user is turned away, a listed user is left alone, and anyone
    /// else joins the end of the list.
    pub open spec fn register(self, entry: Member) -> (Roster, CallResult) {
        if self.is_blacklisted(entry.user.id) {
            (self, CallResult::InBlacklist)
        } else if self.has_user(entry.user.id) {
            (self, CallResult::AlreadyRegistered)
        } else {
            (Roster { members: self.members.push(entry), ..self }, CallResult::Registered)
        }
    }

    /// Every entry of `id` leaves the list; the others keep their order.
    pub open spec fn leave(self, id: UserId) -> (Roster, LeaveResult) {
        (
            Roster { members: self.members.filter(other_than(id)), ..self },
            if self.has_user(id) {
                LeaveResult::Left
            } else {
                LeaveResult::NotRegistered
            },
        )
    }

    /// Barring touches the blacklist alone: a listed user stays listed.
    pub open spec fn blacklist(self, id: UserId) -> (Roster, BlacklistResult) {
        (
            Roster { blacklist: self.blacklist.insert(id), ..self },
            if self.is_blacklisted(id) {
                BlacklistResult::AlreadyBlacklisted
            } else {
                BlacklistResult::Blacklisted
            },
        )
    }

    /// Lifting a bar touches the blacklist alone.
    pub open spec fn unblacklist(self, id: UserId) -> (Roster, UnblacklistResult) {
        (
            Roster { blacklist: self.blacklist.remove(id), ..self },
            if self.is_blacklisted(id) {
                UnblacklistResult::Unblacklisted
            } else {
                UnblacklistResult::NotInBlacklist
            },
        )
    }

    /// A challenge issued at `now` expires thirty seconds later.
    pub open spec fn push_captcha(self, id: UserId, answer: bool, now: Timestamp) -> Roster {
        Roster {
            pending: self.pending.push(Challenge { user: id, answer, expiry: now + CAPTCHA_TTL }),
            ..self
        }
    }

    /// Whether `id` has a challenge to answer at `now`: one that is on record
    /// and live. A challenge whose thirty seconds are over counts as absent,
    /// whether or not it has been dropped from the record yet.
    pub open spec fn has_live_captcha(self, id: UserId, now: Timestamp) -> bool {
        self.live(now).map_values(|c: Challenge| c.user).contains(id)
    }

    /// The challenges that are still live at `now`.
    pub open spec fn live(self, now: Timestamp) -> Seq<Challenge> {
        self.pending.filter(still_live(now))
    }

    /// Expired challenges are dropped first; then the oldest live challenge
    /// of `id`, if there is one, is taken off the record and its expected
    /// answer handed out.
    pub open spec fn pop_captcha(self, id: UserId, now: Timestamp) -> (Roster, Option<bool>) {
        let swept = Roster { pending: self.live(now), ..self };
        match swept.challenged().index_of_first(id) {
            Some(i) => (
                Roster { pending: swept.pending.remove(i), ..self },
                Some(swept.pending[i].answer),
            ),
            None => (swept, None),
        }
    }

    /// Nobody is listed twice.
    pub open spec fn wf(self) -> bool {
        self.ids().no_duplicates()
    }

    /// Nobody is listed twice, nobody is both barred and listed, and nobody
    /// has two challenges that are live at `now`.
    pub open spec fn sound_at(self, now: Timestamp) -> bool {
        &&& self.wf()
        &&& forall|id: UserId| #[trigger] self.is_blacklisted(id) ==> !self.has_user(id)
        &&& self.live(now).map_values(|c: Challenge| c.user).no_duplicates()
    }
}

/// A user has a challenge to answer at `now` exactly when some challenge on
/// record is theirs and is live at `now`.
pub proof fn lemma_live_captcha(roster: Roster, id: UserId, now: Timestamp)
    ensures
        roster.has_live_captcha(id, now) <==> exists|i: int|
            0 <= i < roster.pending.len() && (#[trigger] roster.pending[i]).user == id
                && roster.pending[i].live_at(now),
{
    broadcast use vstd::seq_lib::group_filter_ensures;

    let live = roster.live(now);
    let owners = live.map_values(|c: Challenge| c.user);
    if owners.contains(id) {
        let j = choose|j: int| 0 <= j < owners.len() && owners[j] == id;
        lemma_filter_member(roster.pending, still_live(now), j);
        let i = choose|i: int| 0 <= i < roster.pending.len() && roster.pending[i] == live[j];
        assert(roster.pending[i].user == id && roster.pending[i].live_at(now));
    }
    if exists|i: int|
        0 <= i < roster.pending.len() && (#[trigger] roster.pending[i]).user == id
            && roster.pending[i].live_at(now) {
        let i = choose|i: int|
            0 <= i < roster.pending.len() && (#[trigger] roster.pending[i]).user == id
                && roster.pending[i].live_at(now);
        assert(still_live(now)(roster.pending[i]));
        assert(live.contains(roster.pending[i]));
        let j = choose|j: int| 0 <= j < live.len() && live[j] == roster.pending[i];
        assert(owners[j] == id);
    }
}

} // verus!
