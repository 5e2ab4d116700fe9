//! How a user is named in a message.

use vstd::prelude::*;
use vstd::string::StringExecFns;
use crate::user::{User, UserId, UserView};

verus! {

/// What `teloxide::utils::html::user_mention` returns for a user's identity
/// and the text to show: an HTML link to the user around that text.
pub uninterp spec fn html_user_mention(id: UserId, text: Seq<char>) -> Seq<char>;

/// `teloxide::utils::html::user_mention`: the HTML link that mentions the
/// user `id` under the words `text`. The result is a function of the two
/// arguments alone.
#[verifier::external_body]
fn html_mention(id: UserId, text: &str) -> (s: String)
    ensures
        s@ == html_user_mention(id, text@),
{
    teloxide::utils::html::user_mention(teloxide::types::UserId(id), text)
}

/// What `str::replace` returns: `text` with every match of `pattern`
/// replaced by `with`.
pub uninterp spec fn replaced(text: Seq<char>, pattern: Seq<char>, with: Seq<char>) -> Seq<char>;

/// `str::replace`: a new string in which every match of `pattern` in `text`
/// is replaced by `with`. The result is a function of the three arguments
/// alone.
#[verifier::external_body]
fn replace_all(text: &str, pattern: &str, with: &str) -> (s: String)
    ensures
        s@ == replaced(text@, pattern@, with@),
{
    text.replace(pattern, with)
}

/// The first and the last name, with a space between them where there is a
/// last name.
pub open spec fn full_name_of(user: UserView) -> Seq<char> {
    match user.last_name {
        Some(last) => user.first_name + seq![' '] + last,
        None => user.first_name,
    }
}

/// How a user is named: by `@` and their username where they have one, else
/// by a link around their full name.
pub open spec fn mention_of(user: UserView) -> Seq<char> {
    match user.username {
        Some(name) => seq!['@'] + name,
        None => html_user_mention(user.id, full_name_of(user)),
    }
}

/// The text that stands for a user in the words of a notice.
pub open spec fn placeholder() -> Seq<char> {
    "#User#"@
}

impl User {
    /// The first and the last name, with a space between them where there is
    /// a last name.
    pub fn full_name(&self) -> (s: String)
        ensures
            s@ == full_name_of(self@),
    {
        match &self.last_name {
            Some(last) => {
                let mut name = self.first_name.clone();
                name.append(" ");
                name.append(last.as_str());
                proof {
                    reveal_strlit(" ");
                    assert(" "@ =~= seq![' ']);
                }
                name
            },
            None => self.first_name.clone(),
        }
    }

    /// `@` and the username, for a user who has one.
    pub fn mention(&self) -> (s: Option<String>)
        ensures
            match self@.username {
                Some(name) => s matches Some(text) && text@ == seq!['@'] + name,
                None => s is None,
            },
    {
        match &self.username {
            Some(name) => {
                let mut text = String::from_str("@");
                text.append(name.as_str());
                proof {
                    reveal_strlit("@");
                    assert("@"@ =~= seq!['@']);
                }
                Some(text)
            },
            None => None,
        }
    }
}

/// How the user is named in a message.
pub fn user_mention(user: &User) -> (s: String)
    ensures
        s@ == mention_of(user@),
{
    match user.mention() {
        Some(text) => text,
        None => {
            let name = user.full_name();
            html_mention(user.id, name.as_str())
        },
    }
}

/// Texts in which a user can be named.
pub trait ReplaceUserExt {
    /// The text itself.
    spec fn words(&self) -> Seq<char>;

    /// The text with the user named wherever `#User#` stands.
    fn replace_user(&self, user: User) -> (s: String)
        ensures
            s@ == replaced(self.words(), placeholder(), mention_of(user@)),
    ;
}

impl ReplaceUserExt for str {
    open spec fn words(&self) -> Seq<char> {
        self@
    }

    fn replace_user(&self, user: User) -> (s: String) {
        let mention = user_mention(&user);
        replace_all(self, "#User#", mention.as_str())
    }
}

impl ReplaceUserExt for String {
    open spec fn words(&self) -> Seq<char> {
        self@
    }

    fn replace_user(&self, user: User) -> (s: String) {
        self.as_str().replace_user(user)
    }
}

} // verus!
