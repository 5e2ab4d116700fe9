//! The router: it takes what a message carries, changes the store, and gives
//! the replies to send. Sending them is left to the caller.

use vstd::prelude::*;
use crate::call_map::{empty_store, CallMap};
use crate::chance::{is_anonymous, needs_captcha, pick_question, Rolls};
use crate::cmd::Command;
use crate::protocol::{alias_of, not_user, Alias, InboundView, RouterView};
use crate::reply::{replies_view, Notice, Reply, ReplyView};
use crate::roster::{BlacklistResult, CallResult, LeaveResult, UnblacklistResult};
use crate::user::{text_view, user_view, users_view, ChatId, Timestamp, User, UserRegister};

verus! {

/// What the router reads of an inbound message.
#[derive(Debug, PartialEq, Eq)]
pub struct Inbound {
    /// The chat the message was sent to.
    pub chat: ChatId,
    /// The sender, where the message has one.
    pub from: Option<User>,
    /// The sender of the message that this one replies to, where there is one.
    pub reply_to: Option<User>,
    /// The named command that the text was read as, if it was.
    pub command: Option<Command>,
    /// The text of the message, where it has one.
    pub text: Option<String>,
}

impl View for Inbound {
    type V = InboundView;

    open spec fn view(&self) -> InboundView {
        InboundView {
            chat: self.chat,
            from: user_view(self.from),
            reply_to: user_view(self.reply_to),
            command: self.command,
            text: text_view(self.text),
        }
    }
}

/// One question of the bank: a statement, and whether it is true.
#[derive(Debug, PartialEq, Eq)]
pub struct Question {
    pub text: String,
    pub answer: bool,
}

/// The texts of the questions of a bank, in order.
pub open spec fn texts_of(bank: Seq<Question>) -> Seq<Seq<char>> {
    bank.map_values(|q: Question| q.text@)
}

/// The answers that the questions of a bank expect, in order.
pub open spec fn answers_of(bank: Seq<Question>) -> Seq<bool> {
    bank.map_values(|q: Question| q.answer)
}

/// `<str as PartialEq>::eq`: two string slices are equal exactly when they
/// hold the same characters in the same order.
#[verifier::external_body]
fn same_text(a: &str, b: &str) -> (r: bool)
    ensures
        r == (a@ == b@),
{
    a == b
}

impl Alias {
    /// What a bare word asks for, if it is one of the words the bot knows.
    pub fn of(text: &str) -> (r: Option<Alias>)
        ensures
            r == alias_of(text@),
    {
        if same_text(text, "r") || same_text(text, "R") {
            Some(Alias::Register)
        } else if same_text(text, "l") || same_text(text, "L") || same_text(text, "丨") {
            Some(Alias::Leave)
        } else if same_text(text, "c") || same_text(text, "C") {
            Some(Alias::CallPU)
        } else if same_text(text, "true") || same_text(text, "True") || same_text(text, "TRUE")
            || same_text(text, "t") || same_text(text, "y") {
            Some(Alias::Answer(true))
        } else if same_text(text, "false") || same_text(text, "False") || same_text(text, "FALSE")
            || same_text(text, "f") || same_text(text, "n") {
            Some(Alias::Answer(false))
        } else {
            None
        }
    }
}

/// A list that holds one reply.
fn single(reply: Reply) -> (r: Vec<Reply>)
    ensures
        replies_view(r@) == seq![reply@],
{
    let mut replies: Vec<Reply> = Vec::new();
    replies.push(reply);
    assert(replies_view(replies@) =~= seq![reply@]);
    replies
}

/// A list that holds no reply.
fn silence() -> (r: Vec<Reply>)
    ensures
        replies_view(r@) == Seq::<ReplyView>::empty(),
{
    let replies: Vec<Reply> = Vec::new();
    assert(replies_view(replies@) =~= Seq::<ReplyView>::empty());
    replies
}

/// The router of the one chat the bot serves.
pub struct Router {
    callmap: CallMap,
    white_group: ChatId,
    questions: Vec<Question>,
}

impl View for Router {
    type V = RouterView;

    closed spec fn view(&self) -> RouterView {
        RouterView {
            store: self.callmap@,
            venue: self.white_group,
            texts: texts_of(self.questions@),
            answers: answers_of(self.questions@),
        }
    }
}

impl Router {
    /// A router for the chat `white_group`, with an empty store and the given
    /// bank of questions.
    pub fn new(white_group: ChatId, questions: Vec<Question>) -> (r: Router)
        ensures
            r@ == (RouterView {
                store: empty_store(),
                venue: white_group,
                texts: texts_of(questions@),
                answers: answers_of(questions@),
            }),
            r@.store.dom() == Set::<ChatId>::full(),
    {
        let r = Router { callmap: CallMap::new(), white_group, questions };
        assert(r@.store.dom() =~= Set::<ChatId>::full());
        r
    }

    /// The router keeps a state for every chat, whatever has been done to it:
    /// a chat nobody has touched is empty.
    pub proof fn store_is_total(&self)
        ensures
            self@.store.dom() == Set::<ChatId>::full(),
    {
        assert(self@.store.dom() =~= Set::<ChatId>::full());
    }

    /// The store, to look into.
    pub fn callmap(&self) -> (r: &CallMap)
        ensures
            r@ == self@.store,
    {
        &self.callmap
    }

    /// The bank of questions.
    pub fn questions(&self) -> (r: &Vec<Question>)
        ensures
            texts_of(r@) == self@.texts,
            answers_of(r@) == self@.answers,
    {
        &self.questions
    }

    /// Calls everyone on the list but the sender, who must be on it too.
    pub fn call_pu(&self, chat: ChatId, from: &User) -> (r: Vec<Reply>)
        ensures
            replies_view(r@) == self@.store[chat].call_pu(from@).1,
    {
        let call_list = self.callmap.get_call_list(chat);
        if call_list.len() == 0 {
            return single(Reply::say(Notice::NobodyRegistered));
        }
        if !self.callmap.has_user(&chat, from) {
            return single(Reply::say(Notice::NotParticipant));
        }
        let ghost all = users_view(call_list@);
        let mut others: Vec<User> = Vec::new();
        let mut i: usize = 0;
        while i < call_list.len()
            invariant
                i <= call_list.len(),
                all == users_view(call_list@),
                users_view(others@) == all.take(i as int).filter(not_user(from.id)),
            decreases call_list.len() - i,
        {
            proof {
                all.lemma_take_succ_push(i as int);
                all.take(i as int).lemma_filter_push(all[i as int], not_user(from.id));
            }
            if call_list[i].id != from.id {
                let ghost before = others@;
                others.push(call_list[i].clone());
                assert(users_view(others@) =~= users_view(before).push(all[i as int]));
            }
            i += 1;
        }
        proof {
            all.lemma_take_len();
        }
        if others.len() == 0 {
            return single(Reply::say(Notice::NobodyElse));
        }
        single(Reply { notice: Notice::Calling, mentions: others, question: None })
    }

    /// Takes the sender off the call list.
    pub fn leave_user(&mut self, chat: ChatId, from: &User) -> (r: Vec<Reply>)
        ensures
            (final(self)@, replies_view(r@)) == old(self)@.step(
                chat,
                old(self)@.store[chat].leave_user(from@),
            ),
    {
        match self.callmap.leave(chat, from.clone()) {
            LeaveResult::NotRegistered => single(Reply::say(Notice::NotRegistered)),
            LeaveResult::Left => single(Reply::tell(Notice::Left, from)),
        }
    }

    /// Tells a listed sender who sponsored them.
    pub fn who_registered_me(&self, chat: ChatId, from: &User) -> (r: Vec<Reply>)
        ensures
            replies_view(r@) == self@.store[chat].who_registered_me(from@).1,
    {
        if !self.callmap.has_user(&chat, from) {
            return single(Reply::tell(Notice::NobodyRegisteredYou, from));
        }
        match self.callmap.get_register(&chat, from.clone()) {
            Some(sponsor) => single(Reply::tell(Notice::RegisteredBy, &sponsor)),
            None => single(Reply::say(Notice::SponsorForgotten)),
        }
    }

    /// Registers the author of the message replied to, sponsored by the sender
    /// unless `anonymous`; without such a message, registers the sender.
    pub fn register_user(
        &mut self,
        chat: ChatId,
        from: &User,
        reply_to: &Option<User>,
        anonymous: bool,
    ) -> (r: Vec<Reply>)
        ensures
            (final(self)@, replies_view(r@)) == old(self)@.step(
                chat,
                old(self)@.store[chat].register_user(from@, user_view(*reply_to), anonymous),
            ),
    {
        match reply_to {
            Some(target) => {
                let register = if anonymous {
                    None
                } else {
                    Some(from.clone())
                };
                let entry = UserRegister { register, user: target.clone() };
                match self.callmap.register(chat, entry) {
                    CallResult::AlreadyRegistered => single(
                        Reply::say(Notice::OtherAlreadyRegistered),
                    ),
                    CallResult::Registered => single(Reply::tell(Notice::Registered, target)),
                    CallResult::InBlacklist => single(Reply::tell(Notice::OtherInBlacklist, target)),
                }
            },
            None => {
                let entry = UserRegister { register: Some(from.clone()), user: from.clone() };
                match self.callmap.register(chat, entry) {
                    CallResult::AlreadyRegistered => single(
                        Reply::say(Notice::SelfAlreadyRegistered),
                    ),
                    CallResult::Registered => single(Reply::tell(Notice::Registered, from)),
                    CallResult::InBlacklist => single(Reply::tell(Notice::SelfInBlacklist, from)),
                }
            },
        }
    }

    /// Bars the sender, and takes them off the call list if they are on it.
    pub fn blacklist_user(&mut self, chat: ChatId, from: &User) -> (r: Vec<Reply>)
        ensures
            (final(self)@, replies_view(r@)) == old(self)@.step(
                chat,
                old(self)@.store[chat].blacklist_user(from@),
            ),
    {
        match self.callmap.blacklist(chat, from.id) {
            BlacklistResult::AlreadyBlacklisted => single(
                Reply::tell(Notice::AlreadyBlacklisted, from),
            ),
            BlacklistResult::Blacklisted => {
                let mut replies = single(Reply::tell(Notice::Blacklisted, from));
                if self.callmap.has_user(&chat, from) {
                    let ghost barred = self@;
                    let ghost first = replies@;
                    let mut leaving = self.leave_user(chat, from);
                    let ghost second = leaving@;
                    replies.append(&mut leaving);
                    proof {
                        assert(replies_view(first + second) =~= replies_view(first) + replies_view(
                            second,
                        ));
                        let left = barred.store[chat].leave_user(from@).0;
                        assert(barred.store.insert(chat, left) =~= old(self)@.store.insert(
                            chat,
                            left,
                        ));
                    }
                }
                replies
            },
        }
    }

    /// Lifts the bar on the sender.
    pub fn unblacklist_user(&mut self, chat: ChatId, from: &User) -> (r: Vec<Reply>)
        ensures
            (final(self)@, replies_view(r@)) == old(self)@.step(
                chat,
                old(self)@.store[chat].unblacklist_user(from@),
            ),
    {
        match self.callmap.unblacklist(chat, from.id) {
            UnblacklistResult::NotInBlacklist => single(Reply::tell(Notice::NotInBlacklist, from)),
            UnblacklistResult::Unblacklisted => single(Reply::tell(Notice::Unblacklisted, from)),
        }
    }

    /// Puts a challenge to the sender: the question that the draw picks from
    /// the bank, on record as issued at `now`.
    pub fn captcha_user(&mut self, chat: ChatId, from: &User, roll: u64, now: Timestamp) -> (r: Vec<
        Reply,
    >)
        ensures
            (final(self)@, replies_view(r@)) == old(self)@.step(
                chat,
                old(self)@.store[chat].captcha_user(from@, old(self)@.answers, roll, now),
            ),
    {
        match pick_question(roll, self.questions.len()) {
            Some(question) => {
                let answer = self.questions[question].answer;
                self.callmap.push_captcha_at(chat, from.id, answer, now);
                single(Reply::ask(from, question))
            },
            None => {
                assert(self@.store.insert(chat, self@.store[chat]) =~= self@.store);
                silence()
            },
        }
    }

    /// Bars the sender at their own request: whoever has a live challenge to
    /// answer is reminded of it; otherwise the draw decides between a
    /// challenge first and barring at once.
    pub fn captcha_blacklist_user(
        &mut self,
        chat: ChatId,
        from: &User,
        rolls: Rolls,
        now: Timestamp,
    ) -> (r: Vec<Reply>)
        ensures
            (final(self)@, replies_view(r@)) == old(self)@.step(
                chat,
                old(self)@.store[chat].captcha_blacklist_user(from@, old(self)@.answers, rolls, now),
            ),
    {
        if self.callmap.has_captcha_at(&chat, &from.id, now) {
            assert(self@.store.insert(chat, self@.store[chat]) =~= self@.store);
            return single(Reply::tell(Notice::CaptchaPending, from));
        }
        if needs_captcha(rolls.captcha) {
            return self.captcha_user(chat, from, rolls.question, now);
        }
        self.blacklist_user(chat, from)
    }

    /// Takes an answer to a challenge: it counts only against a live challenge
    /// of the sender, which it uses up. The right answer bars the sender, a
    /// wrong one does not.
    pub fn answer_captcha(&mut self, chat: ChatId, from: &User, ans: bool, now: Timestamp) -> (r:
        Vec<Reply>)
        ensures
            (final(self)@, replies_view(r@)) == old(self)@.step(
                chat,
                old(self)@.store[chat].answer_captcha(from@, ans, now),
            ),
    {
        let expected = self.callmap.pop_captcha_at(chat, &from.id, now);
        let ghost popped = self@;
        match expected {
            None => silence(),
            Some(answer) => {
                if ans != answer {
                    return single(Reply::tell(Notice::CaptchaFailed, from));
                }
                let replies = self.blacklist_user(chat, from);
                proof {
                    let barred = popped.store[chat].blacklist_user(from@).0;
                    assert(popped.store.insert(chat, barred) =~= old(self)@.store.insert(
                        chat,
                        barred,
                    ));
                }
                replies
            },
        }
    }

    /// Does what a named command asks for.
    pub fn handle_command_inner(
        &mut self,
        chat: ChatId,
        from: &User,
        reply_to: &Option<User>,
        cmd: Command,
        rolls: Rolls,
        now: Timestamp,
    ) -> (r: Vec<Reply>)
        ensures
            (final(self)@, replies_view(r@)) == old(self)@.step(
                chat,
                old(self)@.store[chat].handle_command_inner(
                    from@,
                    user_view(*reply_to),
                    cmd,
                    old(self)@.answers,
                    rolls,
                    now,
                ),
            ),
    {
        proof {
            assert(self@.store.insert(chat, self@.store[chat]) =~= self@.store);
        }
        match cmd {
            Command::Help => single(Reply::say(Notice::Help)),
            Command::CallPU => self.call_pu(chat, from),
            Command::Register => self.register_user(
                chat,
                from,
                reply_to,
                is_anonymous(rolls.anonymous),
            ),
            Command::Leave => self.leave_user(chat, from),
            Command::WhoRegisteredMe => self.who_registered_me(chat, from),
            Command::Blacklist => self.captcha_blacklist_user(chat, from, rolls, now),
            Command::Unblacklist => self.unblacklist_user(chat, from),
        }
    }

    /// Does what a message without a named command asks for: a bare word is
    /// acted on, anything else passed over.
    pub fn handle_message(
        &mut self,
        chat: ChatId,
        from: &User,
        reply_to: &Option<User>,
        text: &Option<String>,
        rolls: Rolls,
        now: Timestamp,
    ) -> (r: Vec<Reply>)
        ensures
            (final(self)@, replies_view(r@)) == old(self)@.step(
                chat,
                old(self)@.store[chat].handle_message(
                    from@,
                    user_view(*reply_to),
                    text_view(*text),
                    rolls,
                    now,
                ),
            ),
    {
        proof {
            assert(self@.store.insert(chat, self@.store[chat]) =~= self@.store);
        }
        let alias = match text {
            Some(word) => Alias::of(word.as_str()),
            None => None,
        };
        match alias {
            Some(Alias::Register) => self.register_user(
                chat,
                from,
                reply_to,
                is_anonymous(rolls.anonymous),
            ),
            Some(Alias::Leave) => self.leave_user(chat, from),
            Some(Alias::CallPU) => self.call_pu(chat, from),
            Some(Alias::Answer(given)) => self.answer_captcha(chat, from, given, now),
            None => silence(),
        }
    }

    /// Handles one message with the given draws, at the given time.
    pub fn handle_command_with(&mut self, msg: &Inbound, rolls: Rolls, now: Timestamp) -> (r: Vec<
        Reply,
    >)
        ensures
            (final(self)@, replies_view(r@)) == old(self)@.handle_command(msg@, rolls, now),
    {
        match &msg.from {
            None => silence(),
            Some(from) => {
                if msg.chat != self.white_group {
                    return single(Reply::say(Notice::WrongVenue));
                }
                match msg.command {
                    Some(cmd) => self.handle_command_inner(
                        msg.chat,
                        from,
                        &msg.reply_to,
                        cmd,
                        rolls,
                        now,
                    ),
                    None => self.handle_message(
                        msg.chat,
                        from,
                        &msg.reply_to,
                        &msg.text,
                        rolls,
                        now,
                    ),
                }
            },
        }
    }

    /// Handles one message, with fresh draws and at the present reading of
    /// the store's clock.
    pub fn handle_command(&mut self, msg: &Inbound) -> (r: Vec<Reply>)
        ensures
            exists|rolls: Rolls, now: Timestamp|
                (final(self)@, replies_view(r@)) == old(self)@.handle_command(msg@, rolls, now),
    {
        let rolls = Rolls::draw();
        let now = self.callmap.now();
        self.handle_command_with(msg, rolls, now)
    }
}

} // verus!
