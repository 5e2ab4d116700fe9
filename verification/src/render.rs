//! The words of each reply.

use vstd::prelude::*;
use vstd::string::StringExecFns;
use crate::bot::{texts_of, Question};
use crate::msg_prelude::{mention_of, placeholder, replaced, ReplaceUserExt};
use crate::reply::{Notice, Reply, ReplyView};
use crate::user::{users_view, User, UserView};

verus! {

/// What `teloxide::utils::html::code_block_with_lang` returns for a piece of
/// code and the name of its language: the HTML of a code block.
pub uninterp spec fn html_code_block(code: Seq<char>, lang: Seq<char>) -> Seq<char>;

/// `teloxide::utils::html::code_block_with_lang`: the HTML of a block that
/// shows `code` as code of the language `lang`. The result is a function of
/// the two arguments alone.
#[verifier::external_body]
fn code_block(code: &str, lang: &str) -> (s: String)
    ensures
        s@ == html_code_block(code@, lang@),
{
    teloxide::utils::html::code_block_with_lang(code, lang)
}

impl Notice {
    /// The words of the notice; `#User#` stands where the user it names is
    /// mentioned. The help text, the call and a challenge are put together
    /// otherwise and have no words of their own here.
    #[verifier::allow_in_spec]
    pub fn template(self) -> &'static str
        returns
            (match self {
                Notice::WrongVenue => "请在 P游戏部 群内使用此机器人",
                Notice::Help => "",
                Notice::NobodyRegistered => "没有人捏，你来 r 一下吧",
                Notice::NotParticipant => "你不许参加 impart !",
                Notice::NobodyElse => "没有其他人捏，叫一个吧",
                Notice::Calling => "",
                Notice::OtherAlreadyRegistered => "该用户已经注册过了！",
                Notice::SelfAlreadyRegistered => "你已经注册过了！",
                Notice::Registered => "注册成功！#User# 现在会被 Call 了",
                Notice::OtherInBlacklist => "#User# 在黑名单中，无法注册捏",
                Notice::SelfInBlacklist => "#User# 在黑名单中，你要不先使用 /unblacklist 退一下？",
                Notice::NotRegistered => "你还没有注册过！",
                Notice::Left => "#User# 已离开被 Call 列表",
                Notice::NobodyRegisteredYou => "#User# 还没有人注册你捏",
                Notice::RegisteredBy => "查到了！#User# 注册了你捏",
                Notice::SponsorForgotten => "10% 的几率！ Bot 忘了捏",
                Notice::AlreadyBlacklisted => "#User# 你已经在 Call 黑名单里了捏",
                Notice::Blacklisted => "#User# 已加入 Call 黑名单",
                Notice::NotInBlacklist => "#User# 你不在 Call 黑名单里捏",
                Notice::Unblacklisted => "#User# 已从 Call 黑名单移除",
                Notice::CaptchaPending => "#User# 你已经有一个未完成的人机验证了捏",
                Notice::CaptchaQuestion => "",
                Notice::CaptchaFailed => "#User# 人机验证失败，未加入 Call 黑名单",
                Notice::CaptchaTimeout => "#User# 验证超时了捏",
            }),
    {
        match self {
            Notice::WrongVenue => "请在 P游戏部 群内使用此机器人",
            Notice::Help => "",
            Notice::NobodyRegistered => "没有人捏，你来 r 一下吧",
            Notice::NotParticipant => "你不许参加 impart !",
            Notice::NobodyElse => "没有其他人捏，叫一个吧",
            Notice::Calling => "",
            Notice::OtherAlreadyRegistered => "该用户已经注册过了！",
            Notice::SelfAlreadyRegistered => "你已经注册过了！",
            Notice::Registered => "注册成功！#User# 现在会被 Call 了",
            Notice::OtherInBlacklist => "#User# 在黑名单中，无法注册捏",
            Notice::SelfInBlacklist => "#User# 在黑名单中，你要不先使用 /unblacklist 退一下？",
            Notice::NotRegistered => "你还没有注册过！",
            Notice::Left => "#User# 已离开被 Call 列表",
            Notice::NobodyRegisteredYou => "#User# 还没有人注册你捏",
            Notice::RegisteredBy => "查到了！#User# 注册了你捏",
            Notice::SponsorForgotten => "10% 的几率！ Bot 忘了捏",
            Notice::AlreadyBlacklisted => "#User# 你已经在 Call 黑名单里了捏",
            Notice::Blacklisted => "#User# 已加入 Call 黑名单",
            Notice::NotInBlacklist => "#User# 你不在 Call 黑名单里捏",
            Notice::Unblacklisted => "#User# 已从 Call 黑名单移除",
            Notice::CaptchaPending => "#User# 你已经有一个未完成的人机验证了捏",
            Notice::CaptchaQuestion => "",
            Notice::CaptchaFailed => "#User# 人机验证失败，未加入 Call 黑名单",
            Notice::CaptchaTimeout => "#User# 验证超时了捏",
        }
    }
}

/// What the call says before the mentions.
pub open spec fn call_opening() -> Seq<char> {
    "正在 Call PU：\n"@
}

/// What the call says after the mentions.
pub open spec fn call_closing() -> Seq<char> {
    "\n\n温馨提示：\n使用 /whoregisteredme 可以查看是谁把您拉进来的捏"@
}

/// The values of a list of strings.
pub open spec fn texts_view(lines: Seq<String>) -> Seq<Seq<char>> {
    lines.map_values(|line: String| line@)
}

/// The lines one below the other: a line break stands between every two of
/// them, and none at either end.
pub open spec fn joined(lines: Seq<Seq<char>>) -> Seq<char>
    decreases lines.len(),
{
    if lines.len() == 0 {
        Seq::empty()
    } else if lines.len() == 1 {
        lines[0]
    } else {
        joined(lines.drop_last()) + "\n"@ + lines.last()
    }
}

/// The line that names one user in a call.
pub open spec fn call_line(user: UserView) -> Seq<char> {
    replaced(placeholder(), placeholder(), mention_of(user))
}

/// The lines that name the users of a call, one below the other.
pub open spec fn call_lines(users: Seq<UserView>) -> Seq<char> {
    joined(users.map_values(|user: UserView| call_line(user)))
}

/// The words of a challenge: the hint with the user named in it, and below
/// it the question as a block of Rust code.
pub open spec fn challenge_text(hint: Seq<char>, user: UserView, question: Seq<char>) -> Seq<char> {
    replaced(hint, placeholder(), mention_of(user)) + "\n"@ + html_code_block(question, "Rust"@)
}

/// The words of a reply, for every reply but the help text, which the caller
/// writes. A challenge has words only where it names the user it is put to
/// and a question that the bank holds. Any other notice reads as its
/// template, with the first user it names in place of `#User#`.
pub open spec fn text_of(reply: ReplyView, hint: Seq<char>, questions: Seq<Seq<char>>) -> Option<
    Seq<char>,
> {
    match reply.notice {
        Notice::Help => None,
        Notice::Calling => Some(call_opening() + call_lines(reply.mentions) + call_closing()),
        Notice::CaptchaQuestion => match reply.question {
            Some(q) => if reply.mentions.len() > 0 && q < questions.len() {
                Some(challenge_text(hint, reply.mentions[0], questions[q as int]))
            } else {
                None
            },
            None => None,
        },
        notice => if reply.mentions.len() == 0 {
            Some(notice.template()@)
        } else {
            Some(replaced(notice.template()@, placeholder(), mention_of(reply.mentions[0])))
        },
    }
}

/// Puts the lines one below the other.
pub fn join_lines(lines: &Vec<String>) -> (s: String)
    ensures
        s@ == joined(texts_view(lines@)),
{
    let ghost all = texts_view(lines@);
    let mut text = String::new();
    let mut i: usize = 0;
    while i < lines.len()
        invariant
            i <= lines.len(),
            all == texts_view(lines@),
            text@ == joined(all.take(i as int)),
        decreases lines.len() - i,
    {
        proof {
            let next = all.take(i + 1);
            assert(next.drop_last() =~= all.take(i as int));
            assert(next.last() == lines[i as int]@);
        }
        if i > 0 {
            text.append("\n");
        } else {
            assert(text@ + lines[i as int]@ =~= lines[i as int]@);
        }
        text.append(lines[i].as_str());
        i += 1;
    }
    proof {
        all.lemma_take_len();
    }
    text
}

/// The words of a call around the lines that name the users called.
pub fn call_words(lines: &str) -> (s: String)
    ensures
        s@ == call_opening() + lines@ + call_closing(),
{
    let mut text = String::from_str("正在 Call PU：\n");
    text.append(lines);
    text.append("\n\n温馨提示：\n使用 /whoregisteredme 可以查看是谁把您拉进来的捏");
    text
}

/// The words of a challenge: the hint as it addresses the user, and below it
/// the block that shows the question.
pub fn challenge_words(hint: &str, block: &str) -> (s: String)
    ensures
        s@ == hint@ + "\n"@ + block@,
{
    let mut text = String::from_str(hint);
    text.append("\n");
    text.append(block);
    text
}

/// The lines that name the users of a call, one below the other.
pub fn mention_lines(users: &Vec<User>) -> (s: String)
    ensures
        s@ == call_lines(users_view(users@)),
{
    let ghost all = users_view(users@).map_values(|user: UserView| call_line(user));
    let mut lines: Vec<String> = Vec::new();
    let mut i: usize = 0;
    while i < users.len()
        invariant
            i <= users.len(),
            all == users_view(users@).map_values(|user: UserView| call_line(user)),
            texts_view(lines@) == all.take(i as int),
        decreases users.len() - i,
    {
        let ghost before = lines@;
        lines.push("#User#".replace_user(users[i].clone()));
        proof {
            all.lemma_take_succ_push(i as int);
            assert(texts_view(lines@) =~= texts_view(before).push(all[i as int]));
        }
        i += 1;
    }
    proof {
        all.lemma_take_len();
    }
    join_lines(&lines)
}

impl Reply {
    /// The words of the reply, for every reply but the help text, which the
    /// caller writes. `hint` is what a challenge says above its question,
    /// and `bank` holds the questions.
    pub fn text(&self, hint: &str, bank: &Vec<Question>) -> (r: Option<String>)
        ensures
            match text_of(self@, hint@, texts_of(bank@)) {
                Some(words) => r matches Some(text) && text@ == words,
                None => r is None,
            },
    {
        match self.notice {
            Notice::Help => None,
            Notice::Calling => {
                let lines = mention_lines(&self.mentions);
                Some(call_words(lines.as_str()))
            },
            Notice::CaptchaQuestion => match self.question {
                Some(q) => {
                    if self.mentions.len() > 0 && q < bank.len() {
                        let addressed = hint.replace_user(self.mentions[0].clone());
                        let block = code_block(bank[q].text.as_str(), "Rust");
                        Some(challenge_words(addressed.as_str(), block.as_str()))
                    } else {
                        None
                    }
                },
                None => None,
            },
            notice => {
                let template = notice.template();
                if self.mentions.len() == 0 {
                    Some(String::from_str(template))
                } else {
                    Some(template.replace_user(self.mentions[0].clone()))
                }
            },
        }
    }
}

} // verus!
