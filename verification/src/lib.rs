//! Membership, blacklist and captcha bookkeeping for a chat "call list" bot,
//! together with the routing of inbound messages to replies.
//!
//! The store ([`CallMap`]) and the router ([`Router`]) are verified against a
//! mathematical model of one chat ([`Roster`]); the transport that delivers
//! messages lives outside this crate.

pub mod bot;
pub mod call_map;
pub mod chance;
pub mod clock;
pub mod cmd;
pub mod laws;
pub mod msg_prelude;
pub mod protocol;
pub mod render;
pub mod reply;
pub mod roster;
pub mod seq_facts;
pub mod status;
pub mod user;

pub use bot::{Inbound, Question, Router};
pub use call_map::{CallMap, CallMapInner};
pub use chance::Rolls;
pub use clock::Clock;
pub use cmd::Command;
pub use msg_prelude::{user_mention, ReplaceUserExt};
pub use reply::{Cleanup, Notice, Reply};
pub use roster::{
    BlacklistResult, CallResult, Challenge, LeaveResult, Roster, UnblacklistResult, CAPTCHA_TTL,
};
pub use user::{ChatId, Timestamp, User, UserId, UserRegister};
