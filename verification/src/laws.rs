//! What holds of the store and of the router whatever state they are in, proved
//! from the model.

use vstd::prelude::*;
use crate::call_map::{empty_store, in_chat, issued_at, resolved_at};
use crate::chance::{is_anonymous, needs_captcha, Rolls};
use crate::cmd::Command;
use crate::protocol::{alias_of, Alias, InboundView, RouterView};
use crate::reply::{told, Notice};
use crate::roster::{
    lemma_live_captcha, other_than, still_live, CallResult, Challenge, LeaveResult, Roster,
    CAPTCHA_TTL,
};
use crate::seq_facts::{
    lemma_filter_keeps_all, lemma_filter_keeps_unique_keys, lemma_filter_member,
    lemma_filter_narrows, lemma_first_index, lemma_remove_keeps_unique,
};
use crate::user::{ChatId, Member, Timestamp, UserId, UserView};

verus! {

/// After a registration that succeeded, the user is on the chat's call list,
/// and on it exactly once.
pub proof fn law_registered_is_listed_once(store: Map<ChatId, Roster>, chat: ChatId, entry: Member)
    requires
        store[chat].register(entry).1 == CallResult::Registered,
    ensures
        ({
            let after = in_chat(store, chat, store[chat].register(entry)).0;
            &&& after[chat].has_user(entry.user.id)
            &&& after[chat].times_listed(entry.user.id) == 1
        }),
{
    broadcast use {vstd::seq_lib::to_multiset_build, vstd::seq_lib::to_multiset_contains};

    let before = store[chat];
    let after = before.register(entry).0;
    let id = entry.user.id;
    assert(after.ids() =~= before.ids().push(id));
    assert(after.ids()[before.ids().len() as int] == id);
    assert(before.ids().to_multiset().count(id) == 0);
}

/// Once a user is barred in a chat, registering them there is turned away,
/// whoever sponsors it.
pub proof fn law_barred_cannot_register(store: Map<ChatId, Roster>, chat: ChatId, entry: Member)
    ensures
        ({
            let barred = in_chat(store, chat, store[chat].blacklist(entry.user.id)).0;
            barred[chat].register(entry) == (barred[chat], CallResult::InBlacklist)
        }),
{
}

/// Leaving after a registration that succeeded is reported as having left,
/// and leaving once more as not being registered.
pub proof fn law_leave_twice(store: Map<ChatId, Roster>, chat: ChatId, entry: Member)
    requires
        store[chat].register(entry).1 == CallResult::Registered,
    ensures
        ({
            let id = entry.user.id;
            let joined = in_chat(store, chat, store[chat].register(entry)).0;
            let (left, first) = in_chat(joined, chat, joined[chat].leave(id));
            let (gone, second) = in_chat(left, chat, left[chat].leave(id));
            &&& first == LeaveResult::Left
            &&& second == LeaveResult::NotRegistered
            &&& gone == left
        }),
{
    let id = entry.user.id;
    law_registered_is_listed_once(store, chat, entry);
    let joined = in_chat(store, chat, store[chat].register(entry)).0;
    law_left_is_not_listed(joined[chat], id);
    let left = in_chat(joined, chat, joined[chat].leave(id)).0;
    law_left_is_not_listed(left[chat], id);
    assert(left.insert(chat, left[chat]) =~= left);
}

/// Whoever has left is no longer on the call list, and a user who was not on
/// it leaves it as it was.
pub proof fn law_left_is_not_listed(roster: Roster, id: UserId)
    ensures
        !roster.leave(id).0.has_user(id),
        !roster.has_user(id) ==> roster.leave(id).0 == roster,
{
    broadcast use vstd::seq_lib::group_filter_ensures;

    let kept = roster.members.filter(other_than(id));
    let after = roster.leave(id).0;
    if after.has_user(id) {
        let i = choose|i: int| 0 <= i < after.ids().len() && after.ids()[i] == id;
        assert(other_than(id)(kept[i]));
    }
    if !roster.has_user(id) {
        assert forall|j: int| 0 <= j < roster.members.len() implies other_than(id)(
            #[trigger] roster.members[j],
        ) by {
            assert(roster.ids()[j] != id);
        }
        lemma_filter_keeps_all(roster.members, other_than(id));
    }
}

/// Where no challenge of a user is on record, they have none to answer and
/// none is handed out, whenever it is asked for.
pub proof fn law_no_challenge_no_answer(roster: Roster, id: UserId, now: Timestamp)
    requires
        !roster.challenged().contains(id),
    ensures
        !roster.has_live_captcha(id, now),
        roster.pop_captcha(id, now).1 is None,
        !roster.pop_captcha(id, now).0.challenged().contains(id),
{
    lemma_live_captcha(roster, id, now);
    if roster.has_live_captcha(id, now) {
        let i = choose|i: int|
            0 <= i < roster.pending.len() && (#[trigger] roster.pending[i]).user == id
                && roster.pending[i].live_at(now);
        assert(roster.challenged()[i] == id);
    }
    let swept = Roster { pending: roster.live(now), ..roster };
    swept.challenged().index_of_first_ensures(id);
}

/// A challenge asked for once its thirty seconds have passed is not handed
/// out, whatever answer it expected, as long as no other challenge of the
/// same user is live at that moment. After that no challenge of the user is
/// on record, so that none is handed out later either, whenever it is asked
/// for.
pub proof fn law_expired_challenge_is_gone(
    store: Map<ChatId, Roster>,
    chat: ChatId,
    id: UserId,
    answer: bool,
    issued: Timestamp,
    asked: Timestamp,
)
    requires
        asked >= issued + CAPTCHA_TTL,
        !store[chat].has_live_captcha(id, asked),
    ensures
        ({
            let (after, handed) = resolved_at(
                issued_at(store, chat, id, answer, issued),
                chat,
                id,
                asked,
            );
            &&& handed is None
            &&& !after[chat].challenged().contains(id)
            &&& forall|later: Timestamp| #[trigger] resolved_at(after, chat, id, later).1 is None
        }),
{
    let before = store[chat];
    let issue = Challenge { user: id, answer, expiry: issued + CAPTCHA_TTL };
    let pushed = issued_at(store, chat, id, answer, issued)[chat];
    before.pending.lemma_filter_push(issue, still_live(asked));
    assert(pushed.live(asked) == before.live(asked));
    let swept = Roster { pending: pushed.live(asked), ..pushed };
    swept.challenged().index_of_first_ensures(id);
    let after = resolved_at(issued_at(store, chat, id, answer, issued), chat, id, asked).0;
    assert forall|later: Timestamp| #[trigger] resolved_at(after, chat, id, later).1 is None by {
        law_no_challenge_no_answer(after[chat], id, later);
    }
}

/// The same without a word on what is live: where every challenge of the
/// user that is on record expires no later than the one now issued, as it
/// does as long as the clock never runs backwards, asking for it once its
/// thirty seconds have passed hands out nothing, and nothing later.
pub proof fn law_expired_challenge_is_gone_in_time_order(
    store: Map<ChatId, Roster>,
    chat: ChatId,
    id: UserId,
    answer: bool,
    issued: Timestamp,
    asked: Timestamp,
)
    requires
        asked >= issued + CAPTCHA_TTL,
        forall|i: int|
            0 <= i < store[chat].pending.len() && (#[trigger] store[chat].pending[i]).user == id
                ==> store[chat].pending[i].expiry <= issued + CAPTCHA_TTL,
    ensures
        ({
            let (after, handed) = resolved_at(
                issued_at(store, chat, id, answer, issued),
                chat,
                id,
                asked,
            );
            &&& handed is None
            &&& !after[chat].challenged().contains(id)
            &&& forall|later: Timestamp| #[trigger] resolved_at(after, chat, id, later).1 is None
        }),
{
    lemma_live_captcha(store[chat], id, asked);
    law_expired_challenge_is_gone(store, chat, id, answer, issued, asked);
}

/// The outcome of a registration is decided by the chat's state and the
/// user's identity alone: barred users are turned away, listed users are told
/// so, everyone else is registered; who sponsors the registration, or whether
/// it is anonymous, plays no part.
pub proof fn law_register_outcome(roster: Roster, entry: Member, other: Member)
    requires
        entry.user.id == other.user.id,
    ensures
        roster.register(entry).1 == roster.register(other).1,
        roster.register(entry).1 == CallResult::InBlacklist <==> roster.is_blacklisted(
            entry.user.id,
        ),
        roster.register(entry).1 == CallResult::AlreadyRegistered <==> !roster.is_blacklisted(
            entry.user.id,
        ) && roster.has_user(entry.user.id),
        roster.register(entry).1 == CallResult::Registered <==> !roster.is_blacklisted(
            entry.user.id,
        ) && !roster.has_user(entry.user.id),
{
}

/// An answer that comes once the challenge's thirty seconds have passed is
/// passed over, right or wrong: nothing is said, and nobody is barred or
/// taken off the call list. This holds as long as no other challenge of the
/// same user is live at that moment.
pub proof fn law_late_answer_is_passed_over(
    roster: Roster,
    from: UserView,
    answer: bool,
    given: bool,
    issued: Timestamp,
    asked: Timestamp,
)
    requires
        asked >= issued + CAPTCHA_TTL,
        !roster.has_live_captcha(from.id, asked),
    ensures
        ({
            let (after, replies) = roster.push_captcha(from.id, answer, issued).answer_captcha(
                from,
                given,
                asked,
            );
            &&& replies.len() == 0
            &&& after.members == roster.members
            &&& after.blacklist == roster.blacklist
            &&& !after.challenged().contains(from.id)
        }),
{
    let store = Map::<ChatId, Roster>::total(|chat: ChatId| roster);
    law_expired_challenge_is_gone(store, 0, from.id, answer, issued, asked);
}

/// A challenge asked for before its thirty seconds have passed is handed
/// out with the answer it expects, and only once, as long as the user has no
/// other challenge that is live when it is asked for.
pub proof fn law_live_challenge_is_handed_out_once(
    roster: Roster,
    id: UserId,
    answer: bool,
    issued: Timestamp,
    asked: Timestamp,
)
    requires
        asked < issued + CAPTCHA_TTL,
        !roster.has_live_captcha(id, asked),
    ensures
        ({
            let pushed = roster.push_captcha(id, answer, issued);
            let (after, first) = pushed.pop_captcha(id, asked);
            &&& pushed.has_live_captcha(id, asked)
            &&& first == Some(answer)
            &&& !after.challenged().contains(id)
            &&& forall|later: Timestamp| #[trigger] after.pop_captcha(id, later).1 is None
        }),
{
    let issue = Challenge { user: id, answer, expiry: issued + CAPTCHA_TTL };
    let pushed = roster.push_captcha(id, answer, issued);
    roster.pending.lemma_filter_push(issue, still_live(asked));
    let live = roster.live(asked);
    let swept = Roster { pending: pushed.live(asked), ..pushed };
    assert(swept.pending == live.push(issue));
    assert forall|j: int| 0 <= j < live.len() implies (#[trigger] live[j]).user != id by {
        assert(live.map_values(|c: Challenge| c.user)[j] != id);
    }
    assert(swept.challenged()[live.len() as int] == id);
    lemma_first_index(swept.challenged(), id, live.len() as int);
    let after = pushed.pop_captcha(id, asked).0;
    assert(after.pending =~= live);
    if after.challenged().contains(id) {
        let j = choose|j: int| 0 <= j < after.challenged().len() && after.challenged()[j] == id;
        assert(live[j].user != id);
    }
    assert forall|later: Timestamp| #[trigger] after.pop_captcha(id, later).1 is None by {
        law_no_challenge_no_answer(after, id, later);
    }
}

/// A registration that succeeds records the sponsor it was made with: none
/// where it was anonymous.
pub proof fn law_registration_records_sponsor(roster: Roster, entry: Member)
    requires
        roster.register(entry).1 == CallResult::Registered,
    ensures
        roster.register(entry).0.sponsor_of(entry.user.id) == entry.sponsor,
{
    let after = roster.register(entry).0;
    let id = entry.user.id;
    assert(after.ids() =~= roster.ids().push(id));
    assert forall|j: int| 0 <= j < roster.ids().len() implies after.ids()[j] != id by {
        assert(roster.ids()[j] != id);
    }
    lemma_first_index(after.ids(), id, roster.ids().len() as int);
}

/// The sponsor recorded for a listed user stays what it is for as long as
/// the user stays listed: no registration changes it, nor does anyone
/// else's leaving, nor anything done to the blacklist or to the challenges.
pub proof fn law_sponsor_is_kept(
    roster: Roster,
    id: UserId,
    entry: Member,
    other: UserId,
    answer: bool,
    now: Timestamp,
)
    requires
        roster.has_user(id),
    ensures
        roster.register(entry).0.sponsor_of(id) == roster.sponsor_of(id),
        other != id ==> roster.leave(other).0.sponsor_of(id) == roster.sponsor_of(id),
        roster.blacklist(other).0.sponsor_of(id) == roster.sponsor_of(id),
        roster.unblacklist(other).0.sponsor_of(id) == roster.sponsor_of(id),
        roster.push_captcha(other, answer, now).sponsor_of(id) == roster.sponsor_of(id),
        roster.pop_captcha(other, now).0.sponsor_of(id) == roster.sponsor_of(id),
{
    roster.ids().index_of_first_ensures(id);
    let i = roster.ids().index_of_first(id).unwrap();
    if roster.register(entry).1 == CallResult::Registered {
        let after = roster.register(entry).0;
        assert(after.ids() =~= roster.ids().push(entry.user.id));
        assert forall|j: int| 0 <= j < i implies after.ids()[j] != id by {
            assert(roster.ids()[j] != id);
        }
        lemma_first_index(after.ids(), id, i);
    }
    if other != id {
        let p = other_than(other);
        let after = roster.leave(other).0;
        let head = roster.members.take(i);
        let tail = roster.members.skip(i + 1);
        let this = seq![roster.members[i]];
        assert(roster.members =~= head + this + tail);
        assert(this.filter(p) =~= this) by {
            lemma_filter_keeps_all(this, p);
        }
        Seq::filter_distributes_over_add(head, this, p);
        Seq::filter_distributes_over_add(head + this, tail, p);
        assert(after.members == head.filter(p) + this + tail.filter(p));
        let k = head.filter(p).len() as int;
        assert(after.members[k] == roster.members[i]);
        assert forall|j: int| 0 <= j < k implies after.ids()[j] != id by {
            lemma_filter_member(head, p, j);
            let h = choose|h: int| 0 <= h < head.len() && head[h] == head.filter(p)[j];
            assert(roster.ids()[h] != id);
        }
        lemma_first_index(after.ids(), id, k);
    }
}

/// Whether a sponsored registration is anonymous changes the sponsor it
/// records and nothing else: the replies are the same, and so are the call
/// list's users, the blacklist and the challenges.
pub proof fn law_anonymity_changes_the_sponsor_only(
    roster: Roster,
    from: UserView,
    reply_to: Option<UserView>,
)
    ensures
        ({
            let (named, said_named) = roster.register_user(from, reply_to, false);
            let (anonymous, said_anonymous) = roster.register_user(from, reply_to, true);
            &&& said_named == said_anonymous
            &&& named.call_list() == anonymous.call_list()
            &&& named.blacklist == anonymous.blacklist
            &&& named.pending == anonymous.pending
        }),
{
    let named = roster.register_user(from, reply_to, false).0;
    let anonymous = roster.register_user(from, reply_to, true).0;
    assert(named.call_list() =~= anonymous.call_list());
}

/// Of every ten draws in a row, counted from a multiple of ten, exactly the
/// first makes a sponsored registration anonymous, and exactly the first
/// three ask for a challenge before barring.
pub proof fn law_shares_of_the_draws(decade: u32, roll: u32)
    requires
        decade * 10 <= roll <= decade * 10 + 9,
    ensures
        is_anonymous(roll) <==> roll == decade * 10,
        needs_captcha(roll) <==> roll <= decade * 10 + 2,
{
}

/// Whoever is listed after someone has left was listed before.
proof fn lemma_leave_shrinks(roster: Roster, id: UserId, other: UserId)
    requires
        roster.leave(id).0.has_user(other),
    ensures
        roster.has_user(other),
{
    let after = roster.leave(id).0;
    let j = choose|j: int| 0 <= j < after.ids().len() && after.ids()[j] == other;
    lemma_filter_member(roster.members, other_than(id), j);
    let i = choose|i: int| 0 <= i < roster.members.len() && roster.members[i] == after.members[j];
    assert(roster.ids()[i] == other);
}

/// Every operation of the store leaves nobody listed twice, provided nobody
/// was: the call list of a fresh store is free of duplicates, and stays so.
pub proof fn law_store_keeps_list_unique(
    roster: Roster,
    entry: Member,
    id: UserId,
    answer: bool,
    now: Timestamp,
)
    requires
        roster.wf(),
    ensures
        Roster::empty().wf(),
        roster.register(entry).0.wf(),
        roster.leave(id).0.wf(),
        roster.blacklist(id).0.wf(),
        roster.unblacklist(id).0.wf(),
        roster.push_captcha(id, answer, now).wf(),
        roster.pop_captcha(id, now).0.wf(),
{
    let key = |m: Member| m.user.id;
    assert(roster.ids() =~= roster.members.map_values(key));
    lemma_filter_keeps_unique_keys(roster.members, other_than(id), key);
    assert(roster.leave(id).0.ids() =~= roster.members.filter(other_than(id)).map_values(key));
    if roster.register(entry).1 == CallResult::Registered {
        assert(roster.register(entry).0.ids() =~= roster.ids().push(entry.user.id));
    }
}

/// What is sound at a time is sound at every later time: a challenge that
/// is live later was live before.
pub proof fn law_sound_stays_sound(roster: Roster, before: Timestamp, now: Timestamp)
    requires
        roster.sound_at(before),
        before <= now,
    ensures
        roster.sound_at(now),
{
    let key = |c: Challenge| c.user;
    lemma_filter_narrows(roster.pending, still_live(before), still_live(now));
    lemma_filter_keeps_unique_keys(roster.live(before), still_live(now), key);
}

proof fn lemma_register_keeps_sound(roster: Roster, entry: Member, now: Timestamp)
    requires
        roster.sound_at(now),
    ensures
        roster.register(entry).0.sound_at(now),
{
    let after = roster.register(entry).0;
    law_store_keeps_list_unique(roster, entry, entry.user.id, true, 0);
    if roster.register(entry).1 == CallResult::Registered {
        assert(after.ids() =~= roster.ids().push(entry.user.id));
        assert forall|id: UserId| #[trigger] after.is_blacklisted(id) implies !after.has_user(
            id,
        ) by {
            assert(roster.is_blacklisted(id));
            if after.has_user(id) {
                let j = choose|j: int| 0 <= j < after.ids().len() && after.ids()[j] == id;
                if j < roster.ids().len() {
                    assert(roster.ids()[j] == id);
                }
            }
        }
    }
}

proof fn lemma_leave_keeps_sound(roster: Roster, id: UserId, now: Timestamp)
    requires
        roster.sound_at(now),
    ensures
        roster.leave(id).0.sound_at(now),
{
    let after = roster.leave(id).0;
    law_store_keeps_list_unique(roster, arbitrary(), id, true, 0);
    assert forall|other: UserId| #[trigger] after.is_blacklisted(other) implies !after.has_user(
        other,
    ) by {
        assert(roster.is_blacklisted(other));
        if after.has_user(other) {
            lemma_leave_shrinks(roster, id, other);
        }
    }
}

proof fn lemma_blacklist_user_keeps_sound(roster: Roster, from: UserView, now: Timestamp)
    requires
        roster.sound_at(now),
    ensures
        roster.blacklist_user(from).0.sound_at(now),
{
    let id = from.id;
    let (barred, _outcome) = roster.blacklist(id);
    let after = roster.blacklist_user(from).0;
    if roster.is_blacklisted(id) {
        assert(barred.blacklist =~= roster.blacklist);
    } else {
        law_store_keeps_list_unique(roster, arbitrary(), id, true, 0);
        law_left_is_not_listed(barred, id);
        assert forall|other: UserId| #[trigger] after.is_blacklisted(other) implies !after.has_user(
            other,
        ) by {
            if other != id {
                assert(roster.is_blacklisted(other));
            }
            if after.has_user(other) && barred.has_user(id) {
                lemma_leave_shrinks(barred, id, other);
            }
        }
    }
}

proof fn lemma_answer_captcha_keeps_sound(roster: Roster, from: UserView, given: bool, now: Timestamp)
    requires
        roster.sound_at(now),
    ensures
        roster.answer_captcha(from, given, now).0.sound_at(now),
{
    let key = |c: Challenge| c.user;
    let live = roster.live(now);
    let swept = Roster { pending: live, ..roster };
    let popped = roster.pop_captcha(from.id, now).0;
    assert(swept.challenged() =~= live.map_values(key));
    swept.challenged().index_of_first_ensures(from.id);
    match swept.challenged().index_of_first(from.id) {
        Some(i) => {
            lemma_remove_keeps_unique(swept.challenged(), i);
            assert(popped.challenged() =~= swept.challenged().remove(i));
        },
        None => {},
    }
    assert forall|j: int| 0 <= j < popped.pending.len() implies still_live(now)(
        #[trigger] popped.pending[j],
    ) by {
        let k = if swept.challenged().index_of_first(from.id) matches Some(i) && j >= i {
            j + 1
        } else {
            j
        };
        assert(popped.pending[j] == live[k]);
        lemma_filter_member(roster.pending, still_live(now), k);
    }
    lemma_filter_keeps_all(popped.pending, still_live(now));
    assert(popped.live(now).map_values(key) =~= popped.challenged());
    assert(popped.ids() == roster.ids());
    assert forall|id: UserId| #[trigger] popped.is_blacklisted(id) implies !popped.has_user(id) by {
        assert(roster.is_blacklisted(id));
    }
    assert(popped.sound_at(now));
    lemma_blacklist_user_keeps_sound(popped, from, now);
}

proof fn lemma_register_user_keeps_sound(
    roster: Roster,
    from: UserView,
    reply_to: Option<UserView>,
    anonymous: bool,
    now: Timestamp,
)
    requires
        roster.sound_at(now),
    ensures
        roster.register_user(from, reply_to, anonymous).0.sound_at(now),
{
    let sponsor = if anonymous {
        None
    } else {
        Some(from)
    };
    match reply_to {
        Some(target) => lemma_register_keeps_sound(roster, Member { user: target, sponsor }, now),
        None => lemma_register_keeps_sound(roster, Member { user: from, sponsor: Some(from) }, now),
    }
}

proof fn lemma_unblacklist_keeps_sound(roster: Roster, id: UserId, now: Timestamp)
    requires
        roster.sound_at(now),
    ensures
        roster.unblacklist(id).0.sound_at(now),
{
    let after = roster.unblacklist(id).0;
    assert forall|other: UserId| #[trigger] after.is_blacklisted(other) implies !after.has_user(
        other,
    ) by {
        assert(roster.is_blacklisted(other));
    }
}

proof fn lemma_captcha_blacklist_user_keeps_sound(
    roster: Roster,
    from: UserView,
    answers: Seq<bool>,
    rolls: Rolls,
    now: Timestamp,
)
    requires
        roster.sound_at(now),
    ensures
        roster.captcha_blacklist_user(from, answers, rolls, now).0.sound_at(now),
{
    let key = |c: Challenge| c.user;
    let after = roster.captcha_blacklist_user(from, answers, rolls, now).0;
    if roster.has_live_captcha(from.id, now) {
    } else if needs_captcha(rolls.captcha) {
        if after != roster {
            let issue = after.pending.last();
            assert(after.pending == roster.pending.push(issue));
            assert(issue.user == from.id && issue.live_at(now));
            roster.pending.lemma_filter_push(issue, still_live(now));
            assert(after.live(now).map_values(key) =~= roster.live(now).map_values(key).push(
                from.id,
            ));
            assert forall|id: UserId| #[trigger] after.is_blacklisted(id) implies !after.has_user(
                id,
            ) by {
                assert(roster.is_blacklisted(id));
            }
        }
    } else {
        lemma_blacklist_user_keeps_sound(roster, from, now);
    }
}

/// What the bot does with a message keeps every chat sound, as long as the
/// clock never runs backwards: where, in every chat, nobody is listed twice,
/// nobody is both barred and listed, and nobody has two live challenges, the
/// same holds once a message is handled at that time or later, whatever the
/// message and the draws.
pub proof fn law_router_keeps_sound(
    router: RouterView,
    msg: InboundView,
    rolls: Rolls,
    before: Timestamp,
    now: Timestamp,
)
    requires
        router.sound_at(before),
        before <= now,
    ensures
        router.handle_command(msg, rolls, now).0.sound_at(now),
{
    let after = router.handle_command(msg, rolls, now).0;
    assert forall|chat: ChatId| (#[trigger] router.store[chat]).sound_at(now) by {
        assert(router.store[chat].sound_at(before));
        law_sound_stays_sound(router.store[chat], before, now);
    }
    if msg.from is Some && msg.chat == router.venue {
        let from = msg.from.unwrap();
        let roster = router.store[msg.chat];
        let anonymous = is_anonymous(rolls.anonymous);
        assert(roster.sound_at(now));
        match msg.command {
            Some(Command::Help) | Some(Command::CallPU) | Some(Command::WhoRegisteredMe) => {},
            Some(Command::Register) => lemma_register_user_keeps_sound(
                roster,
                from,
                msg.reply_to,
                anonymous,
                now,
            ),
            Some(Command::Leave) => lemma_leave_keeps_sound(roster, from.id, now),
            Some(Command::Blacklist) => lemma_captcha_blacklist_user_keeps_sound(
                roster,
                from,
                router.answers,
                rolls,
                now,
            ),
            Some(Command::Unblacklist) => lemma_unblacklist_keeps_sound(roster, from.id, now),
            None => match msg.text {
                None => {},
                Some(word) => match alias_of(word) {
                    Some(Alias::Register) => lemma_register_user_keeps_sound(
                        roster,
                        from,
                        msg.reply_to,
                        anonymous,
                        now,
                    ),
                    Some(Alias::Leave) => lemma_leave_keeps_sound(roster, from.id, now),
                    Some(Alias::CallPU) => {},
                    Some(Alias::Answer(given)) => lemma_answer_captcha_keeps_sound(
                        roster,
                        from,
                        given,
                        now,
                    ),
                    None => {},
                },
            },
        }
        assert(after.store[msg.chat].sound_at(now));
        assert forall|chat: ChatId| (#[trigger] after.store[chat]).sound_at(now) by {
            if chat != msg.chat {
                assert(router.store[chat].sound_at(now));
            }
        }
    }
}

/// A fresh store is sound in every chat, at any time.
pub proof fn law_fresh_store_is_sound(chat: ChatId, now: Timestamp)
    ensures
        empty_store()[chat].sound_at(now),
{
    lemma_filter_keeps_all(Roster::empty().pending, still_live(now));
}

/// Once a challenge is put to a user, a second request of theirs to be
/// barred is answered with a reminder for as long as the challenge is live,
/// whatever the draw; once its thirty seconds are over it counts as absent,
/// and the draw decides afresh.
pub proof fn law_reminder_lasts_as_long_as_the_challenge(
    roster: Roster,
    from: UserView,
    answers: Seq<bool>,
    answer: bool,
    rolls: Rolls,
    issued: Timestamp,
    now: Timestamp,
)
    requires
        !roster.has_live_captcha(from.id, now),
    ensures
        ({
            let pushed = roster.push_captcha(from.id, answer, issued);
            let (after, replies) = pushed.captcha_blacklist_user(from, answers, rolls, now);
            let afresh = if needs_captcha(rolls.captcha) {
                pushed.captcha_user(from, answers, rolls.question, now)
            } else {
                pushed.blacklist_user(from)
            };
            &&& pushed.has_live_captcha(from.id, now) <==> now < issued + CAPTCHA_TTL
            &&& now < issued + CAPTCHA_TTL ==> after == pushed && replies == seq![
                told(Notice::CaptchaPending, from),
            ]
            &&& now >= issued + CAPTCHA_TTL ==> (after, replies) == afresh
        }),
{
    let pushed = roster.push_captcha(from.id, answer, issued);
    lemma_live_captcha(roster, from.id, now);
    lemma_live_captcha(pushed, from.id, now);
    let last = roster.pending.len() as int;
    assert(pushed.pending[last].user == from.id);
    if pushed.has_live_captcha(from.id, now) && now >= issued + CAPTCHA_TTL {
        let i = choose|i: int|
            0 <= i < pushed.pending.len() && (#[trigger] pushed.pending[i]).user == from.id
                && pushed.pending[i].live_at(now);
        if i < last {
            assert(roster.pending[i] == pushed.pending[i]);
        }
    }
}

} // verus!
