//! What the bot says: the notices, whom each names, and how each is sent.

use vstd::prelude::*;
use crate::user::{users_view, User, UserView};

verus! {

/// The notices the bot can send.
#[derive(Clone, Copy, Debug, PartialEq, Eq, Structural)]
pub enum Notice {
    /// The message came from a chat the bot does not serve.
    WrongVenue,
    /// The help text.
    Help,
    /// The call list is empty.
    NobodyRegistered,
    /// The caller is not on the call list.
    NotParticipant,
    /// The caller is the only one on the call list.
    NobodyElse,
    /// The call itself: everyone on the list but the caller is mentioned.
    Calling,
    /// The user to be registered is listed already.
    OtherAlreadyRegistered,
    /// The sender is listed already.
    SelfAlreadyRegistered,
    /// The named user is now on the call list.
    Registered,
    /// The user to be registered is barred.
    OtherInBlacklist,
    /// The sender is barred and may lift the bar first.
    SelfInBlacklist,
    /// The sender was not on the call list.
    NotRegistered,
    /// The named user has left the call list.
    Left,
    /// Nobody has registered the sender.
    NobodyRegisteredYou,
    /// The named user registered the sender.
    RegisteredBy,
    /// The sender's registration was anonymous.
    SponsorForgotten,
    /// The sender is barred already.
    AlreadyBlacklisted,
    /// The sender is now barred.
    Blacklisted,
    /// The sender was not barred.
    NotInBlacklist,
    /// The sender's bar is lifted.
    Unblacklisted,
    /// The sender still has a challenge to answer.
    CaptchaPending,
    /// A challenge: the hint and the question.
    CaptchaQuestion,
    /// The sender's answer was wrong; they are not barred.
    CaptchaFailed,
    /// The time to answer a challenge has run out.
    CaptchaTimeout,
}

/// What becomes of a reply once it is sent.
#[derive(Clone, Copy, Debug, PartialEq, Eq, Structural)]
pub enum Cleanup {
    /// The reply stays.
    Keep,
    /// After thirty seconds the reply and the message that caused it are
    /// deleted.
    Later,
    /// As [`Cleanup::Later`]; then the sender is told that the time to answer
    /// has run out, and that notice is deleted after another thirty seconds.
    LaterWithTimeoutNotice,
}

impl Notice {
    /// Whether the notice is sent as HTML rather than as plain text.
    #[verifier::allow_in_spec]
    pub fn is_html(self) -> bool
        returns
            !(self is WrongVenue || self is Help || self is NobodyRegistered || self is NotParticipant
                || self is NobodyElse || self is OtherAlreadyRegistered || self
                is SelfAlreadyRegistered || self is NotRegistered || self is SponsorForgotten
                || self is CaptchaTimeout),
    {
        match self {
            Notice::WrongVenue
            | Notice::Help
            | Notice::NobodyRegistered
            | Notice::NotParticipant
            | Notice::NobodyElse
            | Notice::OtherAlreadyRegistered
            | Notice::SelfAlreadyRegistered
            | Notice::NotRegistered
            | Notice::SponsorForgotten
            | Notice::CaptchaTimeout => false,
            _ => true,
        }
    }

    /// What becomes of the notice once it is sent: the call stays, a
    /// challenge is followed by its timeout notice, everything else is
    /// deleted later.
    #[verifier::allow_in_spec]
    pub fn cleanup(self) -> Cleanup
        returns
            (if self is Calling {
                Cleanup::Keep
            } else if self is CaptchaQuestion {
                Cleanup::LaterWithTimeoutNotice
            } else {
                Cleanup::Later
            }),
    {
        match self {
            Notice::Calling => Cleanup::Keep,
            Notice::CaptchaQuestion => Cleanup::LaterWithTimeoutNotice,
            _ => Cleanup::Later,
        }
    }
}

/// One reply: the notice, the users it names in order, and for a challenge
/// the number of the question it asks.
#[derive(Debug, PartialEq, Eq)]
pub struct Reply {
    pub notice: Notice,
    pub mentions: Vec<User>,
    pub question: Option<usize>,
}

/// The mathematical value of a [`Reply`].
pub struct ReplyView {
    pub notice: Notice,
    pub mentions: Seq<UserView>,
    pub question: Option<usize>,
}

impl View for Reply {
    type V = ReplyView;

    open spec fn view(&self) -> ReplyView {
        ReplyView {
            notice: self.notice,
            mentions: users_view(self.mentions@),
            question: self.question,
        }
    }
}

/// The values of a list of replies.
pub open spec fn replies_view(s: Seq<Reply>) -> Seq<ReplyView> {
    s.map_values(|r: Reply| r@)
}

/// A notice that names nobody.
pub open spec fn said(notice: Notice) -> ReplyView {
    ReplyView { notice, mentions: Seq::empty(), question: None }
}

/// A notice that names one user.
pub open spec fn told(notice: Notice, user: UserView) -> ReplyView {
    ReplyView { notice, mentions: seq![user], question: None }
}

/// The challenge put to `user`, asking question number `question`.
pub open spec fn asked(user: UserView, question: usize) -> ReplyView {
    ReplyView { notice: Notice::CaptchaQuestion, mentions: seq![user], question: Some(question) }
}

impl Reply {
    /// A notice that names nobody.
    pub fn say(notice: Notice) -> (r: Reply)
        ensures
            r@ == said(notice),
    {
        let r = Reply { notice, mentions: Vec::new(), question: None };
        assert(r@.mentions =~= Seq::empty());
        r
    }

    /// A notice that names one user.
    pub fn tell(notice: Notice, user: &User) -> (r: Reply)
        ensures
            r@ == told(notice, user@),
    {
        let mut mentions: Vec<User> = Vec::new();
        mentions.push(user.clone());
        let r = Reply { notice, mentions, question: None };
        assert(r@.mentions =~= seq![user@]);
        r
    }

    /// The challenge put to `user`, asking question number `question`.
    pub fn ask(user: &User, question: usize) -> (r: Reply)
        ensures
            r@ == asked(user@, question),
    {
        let mut mentions: Vec<User> = Vec::new();
        mentions.push(user.clone());
        let r = Reply { notice: Notice::CaptchaQuestion, mentions, question: Some(question) };
        assert(r@.mentions =~= seq![user@]);
        r
    }
}

} // verus!
