//! The membership store: one roster per chat, created on first use.

use std::collections::HashMap;
use vstd::prelude::*;
use crate::clock::Clock;
use crate::roster::{
    lemma_live_captcha, not_id, other_than, still_live, BlacklistResult, CallResult, Challenge,
    LeaveResult, Roster, UnblacklistResult, CAPTCHA_TTL,
};
use crate::seq_facts::{
    lemma_filter_keeps_all, lemma_filter_to_set, lemma_first_index, lemma_retain_done,
    lemma_retain_drop, lemma_retain_keep,
};
use crate::user::{
    members_view, user_view, users_view, ChatId, Timestamp, User, UserId, UserRegister,
};

verus! {

/// The values of the challenges on record. Each is kept with the instant it
/// was issued at; its expiry lies [`CAPTCHA_TTL`] later.
pub open spec fn challenges_view(s: Seq<(UserId, bool, Timestamp)>) -> Seq<Challenge> {
    s.map_values(
        |c: (UserId, bool, Timestamp)|
            Challenge { user: c.0, answer: c.1, expiry: c.2 + CAPTCHA_TTL },
    )
}

/// Whether `id` occurs in `ids`.
fn holds_id(ids: &Vec<UserId>, id: UserId) -> (r: bool)
    ensures
        r == ids@.contains(id),
{
    let mut i: usize = 0;
    while i < ids.len()
        invariant
            i <= ids.len(),
            forall|j: int| 0 <= j < i ==> ids[j] != id,
        decreases ids.len() - i,
    {
        if ids[i] == id {
            return true;
        }
        i += 1;
    }
    false
}

/// The state of one chat as the store keeps it.
pub struct CallMapInner {
    /// The call list, in order of registration.
    pub user_register_list: Vec<UserRegister>,
    /// The barred users.
    pub blacklist: Vec<UserId>,
    /// The challenges on record, oldest first, each with the instant it was
    /// issued at.
    pub waiting_captcha: Vec<(UserId, bool, Timestamp)>,
}

impl View for CallMapInner {
    type V = Roster;

    open spec fn view(&self) -> Roster {
        Roster {
            members: members_view(self.user_register_list@),
            blacklist: self.blacklist@.to_set(),
            pending: challenges_view(self.waiting_captcha@),
        }
    }
}

impl CallMapInner {
    /// The state of a chat nobody has touched.
    pub fn new() -> (r: Self)
        ensures
            r@ == Roster::empty(),
    {
        let r = CallMapInner {
            user_register_list: Vec::new(),
            blacklist: Vec::new(),
            waiting_captcha: Vec::new(),
        };
        assert(r@.members =~= Seq::empty());
        assert(r@.blacklist =~= Set::empty());
        assert(r@.pending =~= Seq::empty());
        r
    }

    /// The index of the entry of `id` on the call list, if `id` is listed.
    fn position(&self, id: UserId) -> (r: Option<usize>)
        ensures
            r is None ==> !self@.has_user(id) && self@.ids().index_of_first(id) is None,
            r matches Some(i) ==> i < self.user_register_list.len() && self@.ids()[i as int] == id
                && self@.ids().index_of_first(id) == Some(i as int),
    {
        let mut i: usize = 0;
        while i < self.user_register_list.len()
            invariant
                i <= self.user_register_list.len(),
                forall|j: int| 0 <= j < i ==> self@.ids()[j] != id,
            decreases self.user_register_list.len() - i,
        {
            if self.user_register_list[i].user.id == id {
                proof {
                    lemma_first_index(self@.ids(), id, i as int);
                }
                return Some(i);
            }
            i += 1;
        }
        proof {
            self@.ids().index_of_first_ensures(id);
        }
        None
    }

    /// Whether `id` is on the call list.
    pub fn has_user(&self, id: UserId) -> (r: bool)
        ensures
            r == self@.has_user(id),
    {
        self.position(id).is_some()
    }

    /// Whether `id` is barred.
    pub fn is_blacklisted(&self, id: UserId) -> (r: bool)
        ensures
            r == self@.is_blacklisted(id),
    {
        holds_id(&self.blacklist, id)
    }

    /// The index of the oldest challenge of `id` on record, if there is one.
    fn challenge_position(&self, id: UserId) -> (r: Option<usize>)
        ensures
            r is None ==> !self@.challenged().contains(id) && self@.challenged().index_of_first(id)
                is None,
            r matches Some(i) ==> i < self.waiting_captcha.len() && self@.challenged()[i as int]
                == id && self@.challenged().index_of_first(id) == Some(i as int),
    {
        let mut i: usize = 0;
        while i < self.waiting_captcha.len()
            invariant
                i <= self.waiting_captcha.len(),
                forall|j: int| 0 <= j < i ==> self@.challenged()[j] != id,
            decreases self.waiting_captcha.len() - i,
        {
            if self.waiting_captcha[i].0 == id {
                proof {
                    lemma_first_index(self@.challenged(), id, i as int);
                }
                return Some(i);
            }
            i += 1;
        }
        proof {
            self@.challenged().index_of_first_ensures(id);
        }
        None
    }

    /// Whether `id` has a challenge to answer at `now`: one that is on record
    /// and still live. An expired challenge counts as absent.
    pub fn has_captcha_at(&self, id: UserId, now: Timestamp) -> (r: bool)
        ensures
            r == self@.has_live_captcha(id, now),
    {
        let mut i: usize = 0;
        while i < self.waiting_captcha.len()
            invariant
                i <= self.waiting_captcha.len(),
                forall|j: int|
                    0 <= j < i ==> !((#[trigger] self@.pending[j]).user == id
                        && self@.pending[j].live_at(now)),
            decreases self.waiting_captcha.len() - i,
        {
            let c = self.waiting_captcha[i];
            if c.0 == id && (now < c.2 || now - c.2 < CAPTCHA_TTL) {
                proof {
                    lemma_live_captcha(self@, id, now);
                    assert(self@.pending[i as int].user == id && self@.pending[i as int].live_at(
                        now,
                    ));
                }
                return true;
            }
            i += 1;
        }
        proof {
            lemma_live_captcha(self@, id, now);
        }
        false
    }

    /// The users on the call list, in order of registration.
    pub fn get_call_list(&self) -> (r: Vec<User>)
        ensures
            users_view(r@) == self@.call_list(),
    {
        let mut list: Vec<User> = Vec::new();
        let mut i: usize = 0;
        while i < self.user_register_list.len()
            invariant
                i <= self.user_register_list.len(),
                list.len() == i,
                forall|j: int| 0 <= j < i ==> list[j] == self.user_register_list[j].user,
            decreases self.user_register_list.len() - i,
        {
            list.push(self.user_register_list[i].user.clone());
            i += 1;
        }
        assert(users_view(list@) =~= self@.call_list());
        list
    }

    /// The sponsor recorded for `id`: none where `id` is not listed, and none
    /// where the registration was anonymous.
    pub fn get_register(&self, id: UserId) -> (r: Option<User>)
        ensures
            user_view(r) == self@.sponsor_of(id),
    {
        match self.position(id) {
            Some(i) => match &self.user_register_list[i].register {
                Some(sponsor) => Some(sponsor.clone()),
                None => None,
            },
            None => None,
        }
    }

    /// Puts the entry at the end of the call list, unless its user is barred
    /// or listed already, and reports which it was.
    pub fn register(&mut self, user: UserRegister) -> (r: CallResult)
        ensures
            (final(self)@, r) == old(self)@.register(user@),
    {
        if self.is_blacklisted(user.user.id) {
            return CallResult::InBlacklist;
        }
        if self.has_user(user.user.id) {
            return CallResult::AlreadyRegistered;
        }
        self.user_register_list.push(user);
        assert(self@.members =~= old(self)@.members.push(user@));
        assert(self@.ids() =~= old(self)@.ids().push(user.user.id));
        CallResult::Registered
    }

    /// Takes every entry of `id` off the call list, and reports whether there
    /// was one.
    pub fn leave(&mut self, id: UserId) -> (r: LeaveResult)
        ensures
            (final(self)@, r) == old(self)@.leave(id),
    {
        let ghost before = self@.members;
        if !self.has_user(id) {
            proof {
                assert forall|j: int| 0 <= j < before.len() implies other_than(id)(
                    #[trigger] before[j],
                ) by {
                    assert(self@.ids()[j] != id);
                }
                lemma_filter_keeps_all(before, other_than(id));
            }
            return LeaveResult::NotRegistered;
        }
        let mut i: usize = 0;
        let ghost mut k: int = 0;
        while i < self.user_register_list.len()
            invariant
                i <= self.user_register_list.len(),
                0 <= k <= before.len(),
                members_view(self.user_register_list@).take(i as int) == before.take(k).filter(
                    other_than(id),
                ),
                members_view(self.user_register_list@).skip(i as int) == before.skip(k),
                self.blacklist == old(self).blacklist,
                self.waiting_captcha == old(self).waiting_captcha,
            decreases self.user_register_list.len() - i,
        {
            let ghost cur = members_view(self.user_register_list@);
            if self.user_register_list[i].user.id == id {
                proof {
                    lemma_retain_drop(before, cur, other_than(id), i as int, k);
                }
                self.user_register_list.remove(i);
                assert(members_view(self.user_register_list@) =~= cur.remove(i as int));
            } else {
                proof {
                    lemma_retain_keep(before, cur, other_than(id), i as int, k);
                }
                i += 1;
            }
            proof {
                k = k + 1;
            }
        }
        proof {
            lemma_retain_done(before, members_view(self.user_register_list@), other_than(id), k);
        }
        LeaveResult::Left
    }

    /// Bars `id`, and reports whether they were barred already. The call list
    /// is left as it is.
    pub fn blacklist(&mut self, id: UserId) -> (r: BlacklistResult)
        ensures
            (final(self)@, r) == old(self)@.blacklist(id),
    {
        if self.is_blacklisted(id) {
            assert(self@.blacklist.insert(id) =~= self@.blacklist);
            return BlacklistResult::AlreadyBlacklisted;
        }
        proof {
            self.blacklist@.lemma_push_to_set_commute(id);
        }
        self.blacklist.push(id);
        BlacklistResult::Blacklisted
    }

    /// Lifts the bar on `id`, and reports whether there was one.
    pub fn unblacklist(&mut self, id: UserId) -> (r: UnblacklistResult)
        ensures
            (final(self)@, r) == old(self)@.unblacklist(id),
    {
        let ghost before = self.blacklist@;
        if !self.is_blacklisted(id) {
            assert(self@.blacklist.remove(id) =~= self@.blacklist);
            return UnblacklistResult::NotInBlacklist;
        }
        let mut i: usize = 0;
        let ghost mut k: int = 0;
        while i < self.blacklist.len()
            invariant
                i <= self.blacklist.len(),
                0 <= k <= before.len(),
                self.blacklist@.take(i as int) == before.take(k).filter(not_id(id)),
                self.blacklist@.skip(i as int) == before.skip(k),
                self.user_register_list == old(self).user_register_list,
                self.waiting_captcha == old(self).waiting_captcha,
            decreases self.blacklist.len() - i,
        {
            if self.blacklist[i] == id {
                proof {
                    lemma_retain_drop(before, self.blacklist@, not_id(id), i as int, k);
                }
                self.blacklist.remove(i);
            } else {
                proof {
                    lemma_retain_keep(before, self.blacklist@, not_id(id), i as int, k);
                }
                i += 1;
            }
            proof {
                k = k + 1;
            }
        }
        proof {
            lemma_retain_done(before, self.blacklist@, not_id(id), k);
            lemma_filter_to_set(before, not_id(id));
            assert(before.to_set().filter(not_id(id)) =~= before.to_set().remove(id));
        }
        UnblacklistResult::Unblacklisted
    }

    /// Puts a challenge for `id` on record, issued at `now`.
    pub fn push_captcha_at(&mut self, id: UserId, answer: bool, now: Timestamp)
        ensures
            final(self)@ == old(self)@.push_captcha(id, answer, now),
    {
        self.waiting_captcha.push((id, answer, now));
        assert(self@.pending =~= old(self)@.push_captcha(id, answer, now).pending);
    }

    /// Drops the challenges that have expired by `now`.
    fn sweep(&mut self, now: Timestamp)
        ensures
            final(self)@ == (Roster { pending: old(self)@.live(now), ..old(self)@ }),
    {
        let ghost all = self@.pending;
        let mut kept: Vec<(UserId, bool, Timestamp)> = Vec::new();
        let mut i: usize = 0;
        while i < self.waiting_captcha.len()
            invariant
                i <= self.waiting_captcha.len(),
                all == challenges_view(self.waiting_captcha@),
                challenges_view(kept@) == all.take(i as int).filter(still_live(now)),
            decreases self.waiting_captcha.len() - i,
        {
            let c = self.waiting_captcha[i];
            proof {
                all.lemma_take_succ_push(i as int);
                all.take(i as int).lemma_filter_push(all[i as int], still_live(now));
            }
            if now < c.2 || now - c.2 < CAPTCHA_TTL {
                let ghost before = kept@;
                kept.push(c);
                assert(challenges_view(kept@) =~= challenges_view(before).push(all[i as int]));
            }
            i += 1;
        }
        proof {
            all.lemma_take_len();
        }
        self.waiting_captcha = kept;
    }

    /// Drops the challenges that have expired by `now`, then takes the oldest
    /// remaining challenge of `id` off the record and hands out the answer it
    /// expects.
    pub fn pop_captcha_at(&mut self, id: UserId, now: Timestamp) -> (r: Option<bool>)
        ensures
            (final(self)@, r) == old(self)@.pop_captcha(id, now),
    {
        self.sweep(now);
        let ghost swept = self@;
        match self.challenge_position(id) {
            Some(i) => {
                let c = self.waiting_captcha.remove(i);
                assert(self@.pending =~= swept.pending.remove(i as int));
                Some(c.1)
            },
            None => None,
        }
    }
}

impl Default for CallMapInner {
    fn default() -> (r: Self)
        ensures
            r@ == Roster::empty(),
    {
        CallMapInner::new()
    }
}

/// The state of a store nobody has touched: every chat is empty.
pub open spec fn empty_store() -> Map<ChatId, Roster> {
    Map::total(|chat: ChatId| Roster::empty())
}

/// A step taken in one chat, seen from the store: that chat moves to the
/// step's new state, every other chat stays as it is, and the step's outcome
/// is handed on.
pub open spec fn in_chat<R>(store: Map<ChatId, Roster>, chat: ChatId, step: (Roster, R)) -> (
    Map<ChatId, Roster>,
    R,
) {
    (store.insert(chat, step.0), step.1)
}

/// The store after a challenge was issued at `now`.
pub open spec fn issued_at(
    store: Map<ChatId, Roster>,
    chat: ChatId,
    id: UserId,
    answer: bool,
    now: Timestamp,
) -> Map<ChatId, Roster> {
    store.insert(chat, store[chat].push_captcha(id, answer, now))
}

/// The store and the answer handed out after a challenge was asked for at `now`.
pub open spec fn resolved_at(store: Map<ChatId, Roster>, chat: ChatId, id: UserId, now: Timestamp) -> (
    Map<ChatId, Roster>,
    Option<bool>,
) {
    in_chat(store, chat, store[chat].pop_captcha(id, now))
}

/// The membership store: the state of every chat, and the clock by which
/// challenges expire.
pub struct CallMap {
    chats: HashMap<ChatId, CallMapInner>,
    clock: Clock,
}

impl View for CallMap {
    type V = Map<ChatId, Roster>;

    /// The state of every chat. A chat that was never touched is empty.
    open spec fn view(&self) -> Map<ChatId, Roster> {
        Map::total(|chat: ChatId| self.roster(chat))
    }
}

impl CallMap {
    /// The state of one chat.
    pub closed spec fn roster(&self, chat: ChatId) -> Roster {
        if self.chats@.contains_key(chat) {
            self.chats@[chat]@
        } else {
            Roster::empty()
        }
    }

    /// A store in which every chat is empty, with its clock started now.
    pub fn new() -> (r: Self)
        ensures
            r@ == empty_store(),
    {
        let r = CallMap { chats: HashMap::new(), clock: Clock::start() };
        assert(r@ =~= empty_store());
        r
    }

    /// The present reading of the store's clock.
    pub fn now(&self) -> Timestamp {
        self.clock.now()
    }

    /// Puts the entry at the end of the call list of the chat, unless its user
    /// is barred there or listed already, and reports which it was.
    pub fn register(&mut self, chat_id: ChatId, user: UserRegister) -> (r: CallResult)
        ensures
            (final(self)@, r) == in_chat(old(self)@, chat_id, old(self)@[chat_id].register(user@)),
    {
        broadcast use vstd::std_specs::hash::group_hash_axioms;

        let entry = self.chats.entry(chat_id).or_insert(CallMapInner::new());
        let r = entry.register(user);
        assert(self@ =~= old(self)@.insert(chat_id, old(self)@[chat_id].register(user@).0));
        r
    }

    /// Takes the user off the call list of the chat, and reports whether they
    /// were on it.
    pub fn leave(&mut self, chat_id: ChatId, this_user: User) -> (r: LeaveResult)
        ensures
            (final(self)@, r) == in_chat(
                old(self)@,
                chat_id,
                old(self)@[chat_id].leave(this_user.id),
            ),
    {
        broadcast use vstd::std_specs::hash::group_hash_axioms;

        if !self.chats.contains_key(&chat_id) {
            proof {
                lemma_filter_keeps_all(Roster::empty().members, other_than(this_user.id));
                assert(self@ =~= self@.insert(chat_id, Roster::empty()));
            }
            return LeaveResult::NotRegistered;
        }
        let entry = self.chats.entry(chat_id).or_insert(CallMapInner::new());
        let r = entry.leave(this_user.id);
        assert(self@ =~= old(self)@.insert(chat_id, old(self)@[chat_id].leave(this_user.id).0));
        r
    }

    /// Whether the user is on the call list of the chat.
    pub fn has_user(&self, chat_id: &ChatId, this_user: &User) -> (r: bool)
        ensures
            r == self@[*chat_id].has_user(this_user.id),
    {
        broadcast use vstd::std_specs::hash::group_hash_axioms;

        match self.chats.get(chat_id) {
            Some(inner) => inner.has_user(this_user.id),
            None => false,
        }
    }

    /// The users on the call list of the chat, in order of registration.
    pub fn get_call_list(&self, chat_id: ChatId) -> (r: Vec<User>)
        ensures
            users_view(r@) == self@[chat_id].call_list(),
    {
        broadcast use vstd::std_specs::hash::group_hash_axioms;

        match self.chats.get(&chat_id) {
            Some(inner) => inner.get_call_list(),
            None => {
                let list: Vec<User> = Vec::new();
                assert(users_view(list@) =~= Roster::empty().call_list());
                list
            },
        }
    }

    /// The sponsor recorded for the user in the chat: none where the user is
    /// not listed, and none where the registration was anonymous.
    pub fn get_register(&self, chat_id: &ChatId, user: User) -> (r: Option<User>)
        ensures
            user_view(r) == self@[*chat_id].sponsor_of(user.id),
    {
        broadcast use vstd::std_specs::hash::group_hash_axioms;

        match self.chats.get(chat_id) {
            Some(inner) => inner.get_register(user.id),
            None => {
                proof {
                    Roster::empty().ids().index_of_first_ensures(user.id);
                }
                None
            },
        }
    }

    /// Bars a user in a chat, and reports whether they were barred already. The
    /// call list is left as it is.
    pub fn blacklist(&mut self, chat_id: ChatId, user_id: UserId) -> (r: BlacklistResult)
        ensures
            (final(self)@, r) == in_chat(old(self)@, chat_id, old(self)@[chat_id].blacklist(user_id)),
    {
        broadcast use vstd::std_specs::hash::group_hash_axioms;

        let entry = self.chats.entry(chat_id).or_insert(CallMapInner::new());
        let r = entry.blacklist(user_id);
        assert(self@ =~= old(self)@.insert(chat_id, old(self)@[chat_id].blacklist(user_id).0));
        r
    }

    /// Lifts the bar on a user in a chat, and reports whether there was one.
    pub fn unblacklist(&mut self, chat_id: ChatId, user_id: UserId) -> (r: UnblacklistResult)
        ensures
            (final(self)@, r) == in_chat(
                old(self)@,
                chat_id,
                old(self)@[chat_id].unblacklist(user_id),
            ),
    {
        broadcast use vstd::std_specs::hash::group_hash_axioms;

        if !self.chats.contains_key(&chat_id) {
            proof {
                assert(Roster::empty().blacklist.remove(user_id) =~= Roster::empty().blacklist);
                assert(self@ =~= self@.insert(chat_id, Roster::empty()));
            }
            return UnblacklistResult::NotInBlacklist;
        }
        let entry = self.chats.entry(chat_id).or_insert(CallMapInner::new());
        let r = entry.unblacklist(user_id);
        assert(self@ =~= old(self)@.insert(chat_id, old(self)@[chat_id].unblacklist(user_id).0));
        r
    }

    /// Whether the user is barred in the chat.
    pub fn is_blacklisted(&self, chat_id: &ChatId, user_id: &UserId) -> (r: bool)
        ensures
            r == self@[*chat_id].is_blacklisted(*user_id),
    {
        broadcast use vstd::std_specs::hash::group_hash_axioms;

        match self.chats.get(chat_id) {
            Some(inner) => inner.is_blacklisted(*user_id),
            None => false,
        }
    }

    /// Whether the user has a challenge to answer in the chat at `now`: one
    /// that is on record and still live. An expired challenge counts as
    /// absent, whether or not it has been dropped from the record yet.
    pub fn has_captcha_at(&self, chat_id: &ChatId, user_id: &UserId, now: Timestamp) -> (r: bool)
        ensures
            r == self@[*chat_id].has_live_captcha(*user_id, now),
    {
        broadcast use vstd::std_specs::hash::group_hash_axioms;

        match self.chats.get(chat_id) {
            Some(inner) => inner.has_captcha_at(*user_id, now),
            None => {
                proof {
                    lemma_live_captcha(Roster::empty(), *user_id, now);
                }
                false
            },
        }
    }

    /// Whether the user has a challenge to answer in the chat at the present
    /// reading of the store's clock.
    pub fn has_captcha(&self, chat_id: &ChatId, user_id: &UserId) -> (r: bool)
        ensures
            exists|now: Timestamp| r == self@[*chat_id].has_live_captcha(*user_id, now),
    {
        let now = self.now();
        self.has_captcha_at(chat_id, user_id, now)
    }

    /// Puts a challenge on record as issued at `now`.
    pub fn push_captcha_at(&mut self, chat_id: ChatId, user_id: UserId, answer: bool, now: Timestamp)
        ensures
            final(self)@ == issued_at(old(self)@, chat_id, user_id, answer, now),
    {
        broadcast use vstd::std_specs::hash::group_hash_axioms;

        let entry = self.chats.entry(chat_id).or_insert(CallMapInner::new());
        entry.push_captcha_at(user_id, answer, now);
        assert(self@ =~= issued_at(old(self)@, chat_id, user_id, answer, now));
    }

    /// Puts a challenge on record as issued at the present reading of the
    /// store's clock.
    pub fn push_captcha(&mut self, chat_id: ChatId, user_id: UserId, answer: bool)
        ensures
            exists|now: Timestamp| final(self)@ == issued_at(old(self)@, chat_id, user_id, answer, now),
    {
        let now = self.now();
        self.push_captcha_at(chat_id, user_id, answer, now);
    }

    /// Asks at `now` for the user's challenge: expired challenges of the chat
    /// are dropped, and the user's oldest live one, if any, is taken off the
    /// record and its expected answer handed out.
    pub fn pop_captcha_at(&mut self, chat_id: ChatId, user_id: &UserId, now: Timestamp) -> (r: Option<
        bool,
    >)
        ensures
            (final(self)@, r) == resolved_at(old(self)@, chat_id, *user_id, now),
    {
        broadcast use vstd::std_specs::hash::group_hash_axioms;

        if !self.chats.contains_key(&chat_id) {
            proof {
                let empty = Roster::empty();
                lemma_filter_keeps_all(empty.pending, still_live(now));
                empty.challenged().index_of_first_ensures(*user_id);
                assert(self@ =~= self@.insert(chat_id, empty));
            }
            return None;
        }
        let entry = self.chats.entry(chat_id).or_insert(CallMapInner::new());
        let r = entry.pop_captcha_at(*user_id, now);
        assert(self@ =~= resolved_at(old(self)@, chat_id, *user_id, now).0);
        r
    }

    /// Asks for the user's challenge at the present reading of the store's
    /// clock.
    pub fn pop_captcha(&mut self, chat_id: ChatId, user_id: &UserId) -> (r: Option<bool>)
        ensures
            exists|now: Timestamp| (final(self)@, r) == resolved_at(old(self)@, chat_id, *user_id, now),
    {
        let now = self.now();
        self.pop_captcha_at(chat_id, user_id, now)
    }
}

impl Default for CallMap {
    fn default() -> (r: Self)
        ensures
            r@ == empty_store(),
    {
        CallMap::new()
    }
}

} // verus!
