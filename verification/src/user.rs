//! Identities and the user records kept on a roster.

use vstd::prelude::*;

verus! {

/// Identity of a chat.
pub type ChatId = i64;

/// Identity of a user.
pub type UserId = u64;

/// A reading of the monotonic clock, in nanoseconds since the clock was started.
pub type Timestamp = u128;

/// What the bot knows of a user: the identity by which the roster finds them,
/// and the names from which a mention is rendered.
#[derive(Debug, PartialEq, Eq)]
pub struct User {
    pub id: UserId,
    pub first_name: String,
    pub last_name: Option<String>,
    pub username: Option<String>,
}

/// The mathematical value of a [`User`].
pub struct UserView {
    pub id: UserId,
    pub first_name: Seq<char>,
    pub last_name: Option<Seq<char>>,
    pub username: Option<Seq<char>>,
}

/// The value of an optional string.
pub open spec fn text_view(s: Option<String>) -> Option<Seq<char>> {
    match s {
        Some(t) => Some(t@),
        None => None,
    }
}

impl View for User {
    type V = UserView;

    open spec fn view(&self) -> UserView {
        UserView {
            id: self.id,
            first_name: self.first_name@,
            last_name: text_view(self.last_name),
            username: text_view(self.username),
        }
    }
}

fn clone_text(s: &Option<String>) -> (r: Option<String>)
    ensures
        r == *s,
{
    match s {
        Some(t) => Some(t.clone()),
        None => None,
    }
}

impl Clone for User {
    fn clone(&self) -> (r: Self)
        ensures
            r == *self,
    {
        User {
            id: self.id,
            first_name: self.first_name.clone(),
            last_name: clone_text(&self.last_name),
            username: clone_text(&self.username),
        }
    }
}

/// One roster entry as the caller hands it in: the user to be listed and,
/// unless the registration was anonymised, the user who registered them.
#[derive(Debug, PartialEq, Eq)]
pub struct UserRegister {
    pub register: Option<User>,
    pub user: User,
}

/// The mathematical value of a roster entry.
pub struct Member {
    pub user: UserView,
    pub sponsor: Option<UserView>,
}

/// The value of an optional user.
pub open spec fn user_view(u: Option<User>) -> Option<UserView> {
    match u {
        Some(v) => Some(v@),
        None => None,
    }
}

impl View for UserRegister {
    type V = Member;

    open spec fn view(&self) -> Member {
        Member { user: self.user@, sponsor: user_view(self.register) }
    }
}

impl Clone for UserRegister {
    fn clone(&self) -> (r: Self)
        ensures
            r == *self,
    {
        let register = match &self.register {
            Some(u) => Some(u.clone()),
            None => None,
        };
        UserRegister { register, user: self.user.clone() }
    }
}

/// The values of a list of users.
pub open spec fn users_view(s: Seq<User>) -> Seq<UserView> {
    s.map_values(|u: User| u@)
}

/// The values of a list of roster entries.
pub open spec fn members_view(s: Seq<UserRegister>) -> Seq<Member> {
    s.map_values(|e: UserRegister| e@)
}

} // verus!
