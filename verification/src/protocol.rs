//! What the bot does with a message, as functions on the model of a chat:
//! each takes the chat's state and what the message carries, and gives the
//! chat's next state and the replies to send, in order.

use vstd::prelude::*;
use crate::call_map::in_chat;
use crate::chance::{is_anonymous, needs_captcha, picked, Rolls};
use crate::cmd::Command;
use crate::reply::{asked, said, told, Notice, ReplyView};
use crate::roster::{BlacklistResult, CallResult, LeaveResult, Roster, UnblacklistResult};
use crate::user::{ChatId, Member, Timestamp, UserId, UserView};

verus! {

/// Holds of every user but `id`.
pub open spec fn not_user(id: UserId) -> spec_fn(UserView) -> bool {
    |u: UserView| u.id != id
}

/// What a bare word asks for.
#[derive(Clone, Copy, Debug, PartialEq, Eq, Structural)]
pub enum Alias {
    Register,
    Leave,
    CallPU,
    /// An answer to a challenge.
    Answer(bool),
}

/// The bare words the bot knows. Nothing but these exact texts counts.
pub open spec fn alias_of(text: Seq<char>) -> Option<Alias> {
    if text == "r"@ || text == "R"@ {
        Some(Alias::Register)
    } else if text == "l"@ || text == "L"@ || text == "丨"@ {
        Some(Alias::Leave)
    } else if text == "c"@ || text == "C"@ {
        Some(Alias::CallPU)
    } else if text == "true"@ || text == "True"@ || text == "TRUE"@ || text == "t"@ || text
        == "y"@ {
        Some(Alias::Answer(true))
    } else if text == "false"@ || text == "False"@ || text == "FALSE"@ || text == "f"@ || text
        == "n"@ {
        Some(Alias::Answer(false))
    } else {
        None
    }
}

/// The mathematical value of an inbound message.
pub struct InboundView {
    pub chat: ChatId,
    pub from: Option<UserView>,
    pub reply_to: Option<UserView>,
    pub command: Option<Command>,
    pub text: Option<Seq<char>>,
}

impl Roster {
    /// A call mentions everyone on the list but the caller. It takes a list
    /// that is not empty, a caller who is on it, and someone else to call.
    pub open spec fn call_pu(self, from: UserView) -> (Roster, Seq<ReplyView>) {
        let others = self.call_list().filter(not_user(from.id));
        (
            self,
            if self.call_list().len() == 0 {
                seq![said(Notice::NobodyRegistered)]
            } else if !self.has_user(from.id) {
                seq![said(Notice::NotParticipant)]
            } else if others.len() == 0 {
                seq![said(Notice::NobodyElse)]
            } else {
                seq![ReplyView { notice: Notice::Calling, mentions: others, question: None }]
            },
        )
    }

    /// A message that replies to another registers the other's author, with
    /// the sender as sponsor unless the registration is anonymous; any other
    /// message registers the sender, sponsored by themselves.
    pub open spec fn register_user(
        self,
        from: UserView,
        reply_to: Option<UserView>,
        anonymous: bool,
    ) -> (Roster, Seq<ReplyView>) {
        match reply_to {
            Some(target) => {
                let sponsor = if anonymous {
                    None
                } else {
                    Some(from)
                };
                let (next, outcome) = self.register(Member { user: target, sponsor });
                (
                    next,
                    seq![
                        match outcome {
                            CallResult::AlreadyRegistered => said(Notice::OtherAlreadyRegistered),
                            CallResult::Registered => told(Notice::Registered, target),
                            CallResult::InBlacklist => told(Notice::OtherInBlacklist, target),
                        },
                    ],
                )
            },
            None => {
                let (next, outcome) = self.register(Member { user: from, sponsor: Some(from) });
                (
                    next,
                    seq![
                        match outcome {
                            CallResult::AlreadyRegistered => said(Notice::SelfAlreadyRegistered),
                            CallResult::Registered => told(Notice::Registered, from),
                            CallResult::InBlacklist => told(Notice::SelfInBlacklist, from),
                        },
                    ],
                )
            },
        }
    }

    /// The sender is told whether they were on the list to leave it.
    pub open spec fn leave_user(self, from: UserView) -> (Roster, Seq<ReplyView>) {
        let (next, outcome) = self.leave(from.id);
        (
            next,
            seq![
                match outcome {
                    LeaveResult::NotRegistered => said(Notice::NotRegistered),
                    LeaveResult::Left => told(Notice::Left, from),
                },
            ],
        )
    }

    /// A listed sender is told their sponsor, or that the bot has forgotten.
    pub open spec fn who_registered_me(self, from: UserView) -> (Roster, Seq<ReplyView>) {
        (
            self,
            seq![
                if !self.has_user(from.id) {
                    told(Notice::NobodyRegisteredYou, from)
                } else {
                    match self.sponsor_of(from.id) {
                        Some(sponsor) => told(Notice::RegisteredBy, sponsor),
                        None => said(Notice::SponsorForgotten),
                    }
                },
            ],
        )
    }

    /// Barring oneself also takes one off the call list.
    pub open spec fn blacklist_user(self, from: UserView) -> (Roster, Seq<ReplyView>) {
        let (barred, outcome) = self.blacklist(from.id);
        match outcome {
            BlacklistResult::AlreadyBlacklisted => (
                barred,
                seq![told(Notice::AlreadyBlacklisted, from)],
            ),
            BlacklistResult::Blacklisted => if barred.has_user(from.id) {
                let (left, leaving) = barred.leave_user(from);
                (left, seq![told(Notice::Blacklisted, from)] + leaving)
            } else {
                (barred, seq![told(Notice::Blacklisted, from)])
            },
        }
    }

    /// The sender is told whether there was a bar to lift.
    pub open spec fn unblacklist_user(self, from: UserView) -> (Roster, Seq<ReplyView>) {
        let (next, outcome) = self.unblacklist(from.id);
        (
            next,
            seq![
                match outcome {
                    UnblacklistResult::NotInBlacklist => told(Notice::NotInBlacklist, from),
                    UnblacklistResult::Unblacklisted => told(Notice::Unblacklisted, from),
                },
            ],
        )
    }

    /// A challenge asks the question that the draw picks from the bank, and
    /// goes on record with that question's answer. With an empty bank nothing
    /// happens.
    pub open spec fn captcha_user(
        self,
        from: UserView,
        answers: Seq<bool>,
        roll: u64,
        now: Timestamp,
    ) -> (Roster, Seq<ReplyView>) {
        match picked(roll, answers.len() as usize) {
            Some(question) => (
                self.push_captcha(from.id, answers[question as int], now),
                seq![asked(from, question)],
            ),
            None => (self, Seq::empty()),
        }
    }

    /// Whoever has a live challenge to answer is reminded of it. Otherwise
    /// the draw decides: a challenge first, or barred at once.
    pub open spec fn captcha_blacklist_user(
        self,
        from: UserView,
        answers: Seq<bool>,
        rolls: Rolls,
        now: Timestamp,
    ) -> (Roster, Seq<ReplyView>) {
        if self.has_live_captcha(from.id, now) {
            (self, seq![told(Notice::CaptchaPending, from)])
        } else if needs_captcha(rolls.captcha) {
            self.captcha_user(from, answers, rolls.question, now)
        } else {
            self.blacklist_user(from)
        }
    }

    /// An answer counts only against a live challenge of the sender, which it
    /// uses up: the right answer bars the sender, a wrong one does not.
    /// Without a live challenge nothing is said.
    pub open spec fn answer_captcha(self, from: UserView, given: bool, now: Timestamp) -> (
        Roster,
        Seq<ReplyView>,
    ) {
        let (next, expected) = self.pop_captcha(from.id, now);
        match expected {
            None => (next, Seq::empty()),
            Some(answer) => if given != answer {
                (next, seq![told(Notice::CaptchaFailed, from)])
            } else {
                next.blacklist_user(from)
            },
        }
    }

    /// What a named command does.
    pub open spec fn handle_command_inner(
        self,
        from: UserView,
        reply_to: Option<UserView>,
        command: Command,
        answers: Seq<bool>,
        rolls: Rolls,
        now: Timestamp,
    ) -> (Roster, Seq<ReplyView>) {
        match command {
            Command::Help => (self, seq![said(Notice::Help)]),
            Command::CallPU => self.call_pu(from),
            Command::Register => self.register_user(from, reply_to, is_anonymous(rolls.anonymous)),
            Command::Leave => self.leave_user(from),
            Command::WhoRegisteredMe => self.who_registered_me(from),
            Command::Blacklist => self.captcha_blacklist_user(from, answers, rolls, now),
            Command::Unblacklist => self.unblacklist_user(from),
        }
    }

    /// What a message without a named command does: a bare word does what it
    /// stands for, and anything else is passed over in silence.
    pub open spec fn handle_message(
        self,
        from: UserView,
        reply_to: Option<UserView>,
        text: Option<Seq<char>>,
        rolls: Rolls,
        now: Timestamp,
    ) -> (Roster, Seq<ReplyView>) {
        match text {
            None => (self, Seq::empty()),
            Some(word) => match alias_of(word) {
                Some(Alias::Register) => self.register_user(
                    from,
                    reply_to,
                    is_anonymous(rolls.anonymous),
                ),
                Some(Alias::Leave) => self.leave_user(from),
                Some(Alias::CallPU) => self.call_pu(from),
                Some(Alias::Answer(given)) => self.answer_captcha(from, given, now),
                None => (self, Seq::empty()),
            },
        }
    }
}

/// The mathematical value of the router: the state of every chat, the one
/// chat the bot serves, and the questions of its bank, each as its text and
/// the answer it expects.
pub struct RouterView {
    pub store: Map<ChatId, Roster>,
    pub venue: ChatId,
    pub texts: Seq<Seq<char>>,
    pub answers: Seq<bool>,
}

impl RouterView {
    /// Every chat is sound at `now`.
    pub open spec fn sound_at(self, now: Timestamp) -> bool {
        forall|chat: ChatId| (#[trigger] self.store[chat]).sound_at(now)
    }

    /// A step taken in one chat, seen from the router: that chat moves to the
    /// step's new state, nothing else changes, and the step's replies are
    /// handed on.
    pub open spec fn step(self, chat: ChatId, step: (Roster, Seq<ReplyView>)) -> (
        RouterView,
        Seq<ReplyView>,
    ) {
        (RouterView { store: in_chat(self.store, chat, step).0, ..self }, step.1)
    }

    /// What the bot does with a message. A message without a sender is
    /// passed over. A message from any chat but the one the bot serves is
    /// answered with a notice and nothing else. In that chat, a named command
    /// takes precedence over a bare word.
    pub open spec fn handle_command(self, msg: InboundView, rolls: Rolls, now: Timestamp) -> (
        RouterView,
        Seq<ReplyView>,
    ) {
        match msg.from {
            None => (self, Seq::empty()),
            Some(from) => if msg.chat != self.venue {
                (self, seq![said(Notice::WrongVenue)])
            } else {
                let roster = self.store[msg.chat];
                self.step(
                    msg.chat,
                    match msg.command {
                        Some(command) => roster.handle_command_inner(
                            from,
                            msg.reply_to,
                            command,
                            self.answers,
                            rolls,
                            now,
                        ),
                        None => roster.handle_message(from, msg.reply_to, msg.text, rolls, now),
                    },
                )
            },
        }
    }
}

} // verus!
