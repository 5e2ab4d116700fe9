use callpu::protocol::Alias;
use callpu::{
    Cleanup, Command, Inbound, Notice, Question, Reply, Rolls, Router, User, CAPTCHA_TTL,
};

const VENUE: i64 = -100_123;

fn router_user(id: u64, name: &str) -> User {
    User { id, first_name: name.to_string(), last_name: None, username: None }
}

fn router_bank() -> Vec<Question> {
    vec![
        Question { text: "let x: u8 = 256; compiles".to_string(), answer: false },
        Question { text: "Vec<T> is growable".to_string(), answer: true },
        Question { text: "i32 is Copy".to_string(), answer: true },
    ]
}

fn router_new() -> Router {
    Router::new(VENUE, router_bank())
}

fn router_command(from: &User, command: Command) -> Inbound {
    Inbound { chat: VENUE, from: Some(from.clone()), reply_to: None, command: Some(command), text: None }
}

fn router_word(from: &User, word: &str) -> Inbound {
    Inbound {
        chat: VENUE,
        from: Some(from.clone()),
        reply_to: None,
        command: None,
        text: Some(word.to_string()),
    }
}

// captcha 5: no challenge; anonymous 1: sponsor kept
fn router_calm() -> Rolls {
    Rolls { captcha: 5, question: 0, anonymous: 1 }
}

fn router_notices(replies: &[Reply]) -> Vec<Notice> {
    replies.iter().map(|r| r.notice).collect()
}

fn router_ids(users: &[User]) -> Vec<u64> {
    users.iter().map(|u| u.id).collect()
}

#[test]
fn scenario_call_mentions_everyone_but_the_caller() {
    let mut router = router_new();
    let a = router_user(1, "A");
    let b = router_user(2, "B");
    let r = router.handle_command_with(&router_command(&a, Command::Register), router_calm(), 0);
    assert_eq!(router_notices(&r), vec![Notice::Registered]);
    assert_eq!(router_ids(&router.callmap().get_call_list(VENUE)), vec![1]);
    let r = router.handle_command_with(&router_word(&b, "r"), router_calm(), 0);
    assert_eq!(router_notices(&r), vec![Notice::Registered]);
    let r = router.handle_command_with(&router_command(&b, Command::CallPU), router_calm(), 0);
    assert_eq!(r.len(), 1);
    assert_eq!(r[0].notice, Notice::Calling);
    assert_eq!(r[0].mentions, vec![a.clone()]);
    assert_eq!(r[0].question, None);
    assert_eq!(router_ids(&router.callmap().get_call_list(VENUE)), vec![1, 2]);
}

#[test]
fn scenario_call_on_an_empty_list() {
    let mut router = router_new();
    let a = router_user(1, "A");
    let r = router.handle_command_with(&router_command(&a, Command::CallPU), router_calm(), 0);
    assert_eq!(r, vec![Reply { notice: Notice::NobodyRegistered, mentions: vec![], question: None }]);
    assert!(router.callmap().get_call_list(VENUE).is_empty());
    let r = router.handle_command_with(&router_word(&a, "c"), router_calm(), 0);
    assert_eq!(router_notices(&r), vec![Notice::NobodyRegistered]);
}

#[test]
fn scenario_call_by_someone_not_listed() {
    let mut router = router_new();
    let a = router_user(1, "A");
    let u = router_user(9, "U");
    router.handle_command_with(&router_command(&a, Command::Register), router_calm(), 0);
    let r = router.handle_command_with(&router_command(&u, Command::CallPU), router_calm(), 0);
    assert_eq!(r, vec![Reply { notice: Notice::NotParticipant, mentions: vec![], question: None }]);
    assert_eq!(router_ids(&router.callmap().get_call_list(VENUE)), vec![1]);
}

#[test]
fn scenario_blacklist_unblacklist_register() {
    let mut router = router_new();
    let u = router_user(9, "U");
    let r = router.handle_command_with(&router_command(&u, Command::Blacklist), router_calm(), 0);
    assert_eq!(router_notices(&r), vec![Notice::Blacklisted]);
    let r = router.handle_command_with(&router_command(&u, Command::Register), router_calm(), 0);
    assert_eq!(router_notices(&r), vec![Notice::SelfInBlacklist]);
    assert_eq!(r[0].mentions, vec![u.clone()]);
    assert!(!router.callmap().has_user(&VENUE, &u));
    let r = router.handle_command_with(&router_command(&u, Command::Unblacklist), router_calm(), 0);
    assert_eq!(router_notices(&r), vec![Notice::Unblacklisted]);
    let r = router.handle_command_with(&router_command(&u, Command::Register), router_calm(), 0);
    assert_eq!(router_notices(&r), vec![Notice::Registered]);
    assert!(router.callmap().has_user(&VENUE, &u));
}

#[test]
fn call_by_the_only_member() {
    let mut router = router_new();
    let a = router_user(1, "A");
    router.handle_command_with(&router_word(&a, "R"), router_calm(), 0);
    let r = router.handle_command_with(&router_word(&a, "C"), router_calm(), 0);
    assert_eq!(router_notices(&r), vec![Notice::NobodyElse]);
}

#[test]
fn call_keeps_the_order_of_the_list() {
    let mut router = router_new();
    let users: Vec<User> = (1..=4).map(|i| router_user(i, "m")).collect();
    for u in &users {
        router.handle_command_with(&router_command(u, Command::Register), router_calm(), 0);
    }
    let r = router.call_pu(VENUE, &users[1]);
    assert_eq!(router_ids(&r[0].mentions), vec![1, 3, 4]);
}

#[test]
fn message_without_sender_is_passed_over() {
    let mut router = router_new();
    let msg = Inbound {
        chat: VENUE,
        from: None,
        reply_to: None,
        command: Some(Command::Register),
        text: Some("r".to_string()),
    };
    assert!(router.handle_command_with(&msg, router_calm(), 0).is_empty());
    let elsewhere = Inbound { chat: 5, ..msg };
    assert!(router.handle_command_with(&elsewhere, router_calm(), 0).is_empty());
}

#[test]
fn message_from_another_chat_gets_the_venue_notice_only() {
    let mut router = router_new();
    let a = router_user(1, "A");
    for command in [
        Command::Help,
        Command::CallPU,
        Command::Register,
        Command::Leave,
        Command::WhoRegisteredMe,
        Command::Blacklist,
        Command::Unblacklist,
    ] {
        let msg = Inbound { chat: VENUE + 1, ..router_command(&a, command) };
        let r = router.handle_command_with(&msg, router_calm(), 0);
        assert_eq!(r, vec![Reply { notice: Notice::WrongVenue, mentions: vec![], question: None }]);
    }
    let msg = Inbound { chat: VENUE + 1, ..router_word(&a, "r") };
    assert_eq!(router_notices(&router.handle_command_with(&msg, router_calm(), 0)), vec![Notice::WrongVenue]);
    let msg = Inbound { chat: VENUE + 1, ..router_word(&a, "nothing in particular") };
    assert_eq!(router_notices(&router.handle_command_with(&msg, router_calm(), 0)), vec![Notice::WrongVenue]);
    assert!(!router.callmap().has_user(&(VENUE + 1), &a));
    assert!(!router.callmap().has_user(&VENUE, &a));
    assert!(!router.callmap().is_blacklisted(&(VENUE + 1), &1));
}

#[test]
fn unknown_text_is_passed_over() {
    let mut router = router_new();
    let a = router_user(1, "A");
    for word in ["hello", "", "rr", " r", "r ", "Y", "N", "T", "F", "tRUE", "yes", "no", "|", "/register"] {
        assert!(router.handle_command_with(&router_word(&a, word), router_calm(), 0).is_empty());
    }
    let no_text = Inbound { chat: VENUE, from: Some(a.clone()), reply_to: None, command: None, text: None };
    assert!(router.handle_command_with(&no_text, router_calm(), 0).is_empty());
    assert!(!router.callmap().has_user(&VENUE, &a));
}

#[test]
fn bare_words_are_recognised_exactly() {
    for w in ["r", "R"] {
        assert_eq!(Alias::of(w), Some(Alias::Register));
    }
    for w in ["l", "L", "丨"] {
        assert_eq!(Alias::of(w), Some(Alias::Leave));
    }
    for w in ["c", "C"] {
        assert_eq!(Alias::of(w), Some(Alias::CallPU));
    }
    for w in ["true", "True", "TRUE", "t", "y"] {
        assert_eq!(Alias::of(w), Some(Alias::Answer(true)));
    }
    for w in ["false", "False", "FALSE", "f", "n"] {
        assert_eq!(Alias::of(w), Some(Alias::Answer(false)));
    }
    for w in ["", "x", "Y", "N", "T", "F", "tRue", "falsE", "ｒ", "|", "I", "rl", "true ", "c\n"] {
        assert_eq!(Alias::of(w), None);
    }
}

#[test]
fn named_command_takes_precedence_over_the_text() {
    let mut router = router_new();
    let a = router_user(1, "A");
    router.handle_command_with(&router_word(&a, "r"), router_calm(), 0);
    let msg = Inbound { text: Some("l".to_string()), ..router_command(&a, Command::WhoRegisteredMe) };
    let r = router.handle_command_with(&msg, router_calm(), 0);
    assert_eq!(router_notices(&r), vec![Notice::RegisteredBy]);
    assert!(router.callmap().has_user(&VENUE, &a));
}

#[test]
fn register_self_twice() {
    let mut router = router_new();
    let a = router_user(1, "A");
    let r = router.handle_command_with(&router_word(&a, "r"), router_calm(), 0);
    assert_eq!(r, vec![Reply { notice: Notice::Registered, mentions: vec![a.clone()], question: None }]);
    let r = router.handle_command_with(&router_word(&a, "r"), router_calm(), 0);
    assert_eq!(r, vec![Reply { notice: Notice::SelfAlreadyRegistered, mentions: vec![], question: None }]);
    assert_eq!(router.callmap().get_register(&VENUE, a.clone()), Some(a.clone()));
}

#[test]
fn register_another_by_reply() {
    let mut router = router_new();
    let a = router_user(1, "A");
    let b = router_user(2, "B");
    let msg = Inbound { reply_to: Some(b.clone()), ..router_command(&a, Command::Register) };
    let r = router.handle_command_with(&msg, router_calm(), 0);
    assert_eq!(r, vec![Reply { notice: Notice::Registered, mentions: vec![b.clone()], question: None }]);
    assert!(router.callmap().has_user(&VENUE, &b));
    assert!(!router.callmap().has_user(&VENUE, &a));
    assert_eq!(router.callmap().get_register(&VENUE, b.clone()), Some(a.clone()));
    let r = router.handle_command_with(&msg, router_calm(), 0);
    assert_eq!(router_notices(&r), vec![Notice::OtherAlreadyRegistered]);
    assert!(r[0].mentions.is_empty());
    let r = router.handle_command_with(&router_command(&b, Command::WhoRegisteredMe), router_calm(), 0);
    assert_eq!(r, vec![Reply { notice: Notice::RegisteredBy, mentions: vec![a.clone()], question: None }]);
}

#[test]
fn register_another_anonymously() {
    let mut router = router_new();
    let a = router_user(1, "A");
    let b = router_user(2, "B");
    let msg = Inbound { reply_to: Some(b.clone()), ..router_word(&a, "r") };
    let rolls = Rolls { anonymous: 4_000_000_000, ..router_calm() };
    let r = router.handle_command_with(&msg, rolls, 0);
    assert_eq!(router_notices(&r), vec![Notice::Registered]);
    assert_eq!(router.callmap().get_register(&VENUE, b.clone()), None);
    let r = router.handle_command_with(&router_command(&b, Command::WhoRegisteredMe), router_calm(), 0);
    assert_eq!(r, vec![Reply { notice: Notice::SponsorForgotten, mentions: vec![], question: None }]);
}

#[test]
fn register_outcome_is_the_same_whatever_the_draw() {
    let a = router_user(1, "A");
    let b = router_user(2, "B");
    for prepare in 0..3 {
        let mut kept = router_new();
        let mut forgotten = router_new();
        for router in [&mut kept, &mut forgotten] {
            if prepare == 1 {
                router.handle_command_with(&router_word(&b, "r"), router_calm(), 0);
            }
            if prepare == 2 {
                router.handle_command_with(&router_command(&b, Command::Blacklist), router_calm(), 0);
            }
        }
        let msg = Inbound { reply_to: Some(b.clone()), ..router_word(&a, "r") };
        let r1 = kept.handle_command_with(&msg, Rolls { anonymous: 7, ..router_calm() }, 0);
        let r2 = forgotten.handle_command_with(&msg, Rolls { anonymous: 10, ..router_calm() }, 0);
        assert_eq!(r1, r2);
    }
}

#[test]
fn register_a_barred_user_by_reply() {
    let mut router = router_new();
    let a = router_user(1, "A");
    let b = router_user(2, "B");
    router.handle_command_with(&router_command(&b, Command::Blacklist), router_calm(), 0);
    let msg = Inbound { reply_to: Some(b.clone()), ..router_word(&a, "r") };
    let r = router.handle_command_with(&msg, router_calm(), 0);
    assert_eq!(r, vec![Reply { notice: Notice::OtherInBlacklist, mentions: vec![b.clone()], question: None }]);
    assert!(!router.callmap().has_user(&VENUE, &b));
}

#[test]
fn who_registered_me_when_not_listed() {
    let mut router = router_new();
    let a = router_user(1, "A");
    let r = router.handle_command_with(&router_command(&a, Command::WhoRegisteredMe), router_calm(), 0);
    assert_eq!(r, vec![Reply { notice: Notice::NobodyRegisteredYou, mentions: vec![a.clone()], question: None }]);
}

#[test]
fn leave_by_word_and_by_command() {
    let mut router = router_new();
    let a = router_user(1, "A");
    let r = router.handle_command_with(&router_word(&a, "l"), router_calm(), 0);
    assert_eq!(r, vec![Reply { notice: Notice::NotRegistered, mentions: vec![], question: None }]);
    router.handle_command_with(&router_word(&a, "r"), router_calm(), 0);
    let r = router.handle_command_with(&router_word(&a, "丨"), router_calm(), 0);
    assert_eq!(r, vec![Reply { notice: Notice::Left, mentions: vec![a.clone()], question: None }]);
    let r = router.handle_command_with(&router_command(&a, Command::Leave), router_calm(), 0);
    assert_eq!(router_notices(&r), vec![Notice::NotRegistered]);
}

#[test]
fn help_changes_nothing() {
    let mut router = router_new();
    let a = router_user(1, "A");
    let r = router.handle_command_with(&router_command(&a, Command::Help), router_calm(), 0);
    assert_eq!(r, vec![Reply { notice: Notice::Help, mentions: vec![], question: None }]);
    assert!(router.callmap().get_call_list(VENUE).is_empty());
}

#[test]
fn blacklist_without_challenge_also_leaves_the_list() {
    let mut router = router_new();
    let a = router_user(1, "A");
    let b = router_user(2, "B");
    router.handle_command_with(&router_word(&a, "r"), router_calm(), 0);
    router.handle_command_with(&router_word(&b, "r"), router_calm(), 0);
    let r = router.handle_command_with(&router_command(&a, Command::Blacklist), router_calm(), 0);
    assert_eq!(
        r,
        vec![
            Reply { notice: Notice::Blacklisted, mentions: vec![a.clone()], question: None },
            Reply { notice: Notice::Left, mentions: vec![a.clone()], question: None },
        ]
    );
    assert!(router.callmap().is_blacklisted(&VENUE, &1));
    assert!(!router.callmap().has_user(&VENUE, &a));
    assert!(router.callmap().has_user(&VENUE, &b));
    let r = router.handle_command_with(&router_command(&a, Command::Blacklist), router_calm(), 0);
    assert_eq!(r, vec![Reply { notice: Notice::AlreadyBlacklisted, mentions: vec![a.clone()], question: None }]);
}

#[test]
fn unblacklist_when_not_barred() {
    let mut router = router_new();
    let a = router_user(1, "A");
    let r = router.handle_command_with(&router_command(&a, Command::Unblacklist), router_calm(), 0);
    assert_eq!(r, vec![Reply { notice: Notice::NotInBlacklist, mentions: vec![a.clone()], question: None }]);
}

#[test]
fn blacklist_with_challenge_answered_right() {
    let mut router = router_new();
    let a = router_user(1, "A");
    router.handle_command_with(&router_word(&a, "r"), router_calm(), 0);
    // captcha 12 % 10 = 2 < 3: challenge; question 7 % 3 = 1, whose answer is true
    let rolls = Rolls { captcha: 12, question: 7, anonymous: 1 };
    let r = router.handle_command_with(&router_command(&a, Command::Blacklist), rolls, 100);
    assert_eq!(r, vec![Reply { notice: Notice::CaptchaQuestion, mentions: vec![a.clone()], question: Some(1) }]);
    assert!(router.callmap().has_captcha_at(&VENUE, &1, 100));
    assert!(!router.callmap().is_blacklisted(&VENUE, &1));
    let r = router.handle_command_with(&router_word(&a, "y"), router_calm(), 200);
    assert_eq!(router_notices(&r), vec![Notice::Blacklisted, Notice::Left]);
    assert!(router.callmap().is_blacklisted(&VENUE, &1));
    assert!(!router.callmap().has_user(&VENUE, &a));
    assert!(!router.callmap().has_captcha_at(&VENUE, &1, 200));
    // the answer cannot be replayed
    assert!(router.handle_command_with(&router_word(&a, "y"), router_calm(), 300).is_empty());
}

#[test]
fn blacklist_with_challenge_answered_wrong() {
    let mut router = router_new();
    let a = router_user(1, "A");
    let rolls = Rolls { captcha: 0, question: 3, anonymous: 1 };
    let r = router.handle_command_with(&router_command(&a, Command::Blacklist), rolls, 100);
    assert_eq!(r[0].question, Some(0));
    let r = router.handle_command_with(&router_word(&a, "TRUE"), router_calm(), 200);
    assert_eq!(r, vec![Reply { notice: Notice::CaptchaFailed, mentions: vec![a.clone()], question: None }]);
    assert!(!router.callmap().is_blacklisted(&VENUE, &1));
    assert!(!router.callmap().has_captcha_at(&VENUE, &1, 200));
    assert!(router.handle_command_with(&router_word(&a, "f"), router_calm(), 300).is_empty());
    assert!(!router.callmap().is_blacklisted(&VENUE, &1));
}

#[test]
fn answer_after_expiry_is_passed_over() {
    for word in ["t", "f"] {
        let mut router = router_new();
        let a = router_user(1, "A");
        let rolls = Rolls { captcha: 1, question: 1, anonymous: 1 };
        router.handle_command_with(&router_command(&a, Command::Blacklist), rolls, 100);
        let r = router.handle_command_with(&router_word(&a, word), router_calm(), 100 + CAPTCHA_TTL);
        assert!(r.is_empty());
        assert!(!router.callmap().is_blacklisted(&VENUE, &1));
        assert!(!router.callmap().has_captcha_at(&VENUE, &1, 100));
    }
}

#[test]
fn answer_without_challenge_is_passed_over() {
    let mut router = router_new();
    let a = router_user(1, "A");
    assert!(router.handle_command_with(&router_word(&a, "true"), router_calm(), 0).is_empty());
    assert!(router.handle_command_with(&router_word(&a, "n"), router_calm(), 0).is_empty());
    assert!(!router.callmap().is_blacklisted(&VENUE, &1));
}

#[test]
fn second_blacklist_while_the_challenge_is_live() {
    let mut router = router_new();
    let a = router_user(1, "A");
    let rolls = Rolls { captcha: 2, question: 2, anonymous: 1 };
    router.handle_command_with(&router_command(&a, Command::Blacklist), rolls, 100);
    // even a draw that would bar at once gets the reminder, up to the last moment
    for now in [100, 101, 100 + CAPTCHA_TTL - 1] {
        let r = router.handle_command_with(&router_command(&a, Command::Blacklist), router_calm(), now);
        assert_eq!(r, vec![Reply { notice: Notice::CaptchaPending, mentions: vec![a.clone()], question: None }]);
        assert!(!router.callmap().is_blacklisted(&VENUE, &1));
    }
}

#[test]
fn second_blacklist_once_the_challenge_has_expired() {
    // nothing has asked for the challenge in between: it counts as absent all the same
    let mut router = router_new();
    let a = router_user(1, "A");
    let rolls = Rolls { captcha: 2, question: 2, anonymous: 1 };
    let r = router.handle_command_with(&router_command(&a, Command::Blacklist), rolls, 0);
    assert_eq!(router_notices(&r), vec![Notice::CaptchaQuestion]);
    let r = router.handle_command_with(&router_command(&a, Command::Blacklist), router_calm(), CAPTCHA_TTL);
    assert_eq!(r, vec![Reply { notice: Notice::Blacklisted, mentions: vec![a.clone()], question: None }]);
    assert!(router.callmap().is_blacklisted(&VENUE, &1));

    // and where the draw asks for a challenge, a new one is put
    let mut router = router_new();
    let r = router.handle_command_with(&router_command(&a, Command::Blacklist), rolls, 0);
    assert_eq!(r[0].question, Some(2));
    let again = Rolls { captcha: 1, question: 4, anonymous: 1 };
    let r = router.handle_command_with(&router_command(&a, Command::Blacklist), again, 2 * CAPTCHA_TTL);
    assert_eq!(r, vec![Reply { notice: Notice::CaptchaQuestion, mentions: vec![a.clone()], question: Some(1) }]);
    assert!(!router.callmap().is_blacklisted(&VENUE, &1));
    // the new challenge is the one that is answered: question 1 expects true
    let r = router.handle_command_with(&router_word(&a, "t"), router_calm(), 2 * CAPTCHA_TTL + 5);
    assert_eq!(router_notices(&r), vec![Notice::Blacklisted]);
}

#[test]
fn challenge_with_an_empty_bank_does_nothing() {
    let mut router = Router::new(VENUE, Vec::new());
    let a = router_user(1, "A");
    let rolls = Rolls { captcha: 0, question: 5, anonymous: 1 };
    assert!(router.handle_command_with(&router_command(&a, Command::Blacklist), rolls, 0).is_empty());
    assert!(!router.callmap().has_captcha_at(&VENUE, &1, 0));
    assert!(!router.callmap().is_blacklisted(&VENUE, &1));
}

#[test]
fn handlers_one_by_one() {
    let mut router = router_new();
    let a = router_user(1, "A");
    let b = router_user(2, "B");
    assert_eq!(router_notices(&router.register_user(VENUE, &a, &None, false)), vec![Notice::Registered]);
    assert_eq!(router_notices(&router.register_user(VENUE, &a, &Some(b.clone()), true)), vec![Notice::Registered]);
    assert_eq!(router_notices(&router.who_registered_me(VENUE, &b)), vec![Notice::SponsorForgotten]);
    assert_eq!(router_notices(&router.captcha_user(VENUE, &a, 4, 10)), vec![Notice::CaptchaQuestion]);
    assert_eq!(router_notices(&router.captcha_blacklist_user(VENUE, &a, router_calm(), 11)), vec![Notice::CaptchaPending]);
    assert_eq!(router_notices(&router.answer_captcha(VENUE, &a, true, 12)), vec![Notice::Blacklisted, Notice::Left]);
    assert_eq!(router_notices(&router.unblacklist_user(VENUE, &a)), vec![Notice::Unblacklisted]);
    assert_eq!(router_notices(&router.blacklist_user(VENUE, &b)), vec![Notice::Blacklisted, Notice::Left]);
    assert_eq!(router_notices(&router.leave_user(VENUE, &b)), vec![Notice::NotRegistered]);
    assert_eq!(router_notices(&router.handle_command_inner(VENUE, &a, &None, Command::Help, router_calm(), 0)), vec![Notice::Help]);
    assert_eq!(
        router_notices(&router.handle_message(VENUE, &a, &None, &Some("r".to_string()), router_calm(), 0)),
        vec![Notice::Registered]
    );
    assert_eq!(router.questions().len(), 3);
}

#[test]
fn invariants_hold_along_a_run() {
    let mut router = router_new();
    let users: Vec<User> = (1..=5).map(|i| router_user(i, "u")).collect();
    let commands = [
        Command::Register,
        Command::Blacklist,
        Command::CallPU,
        Command::Unblacklist,
        Command::Leave,
        Command::WhoRegisteredMe,
        Command::Blacklist,
        Command::Register,
    ];
    let words = ["t", "f", "r", "l", "c"];
    let mut now: u128 = 0;
    for step in 0u32..400 {
        let user = &users[(step as usize * 7) % users.len()];
        let rolls = Rolls { captcha: step * 3, question: step as u64 * 5, anonymous: step * 11 };
        let mut msg = if step % 3 == 0 {
            router_word(user, words[(step as usize / 3) % words.len()])
        } else {
            router_command(user, commands[(step as usize) % commands.len()])
        };
        if step % 4 == 1 {
            msg.reply_to = Some(users[(step as usize * 3) % users.len()].clone());
        }
        router.handle_command_with(&msg, rolls, now);
        now += CAPTCHA_TTL / 7;
        let list = router.callmap().get_call_list(VENUE);
        for (i, u) in list.iter().enumerate() {
            assert!(!router.callmap().is_blacklisted(&VENUE, &u.id));
            assert!(list.iter().skip(i + 1).all(|v| v.id != u.id));
        }
    }
}

#[test]
fn handling_with_fresh_draws_and_the_clock() {
    let mut router = router_new();
    let a = router_user(1, "A");
    let r = router.handle_command(&router_word(&a, "r"));
    assert_eq!(router_notices(&r), vec![Notice::Registered]);
    let r = router.handle_command(&router_command(&a, Command::Blacklist));
    let first = r[0].notice;
    assert!(first == Notice::Blacklisted || first == Notice::CaptchaQuestion);
    if first == Notice::CaptchaQuestion {
        let q = r[0].question.unwrap();
        let word = if router_bank()[q].answer { "t" } else { "f" };
        let r = router.handle_command(&router_word(&a, word));
        assert_eq!(router_notices(&r), vec![Notice::Blacklisted, Notice::Left]);
    }
    assert!(router.callmap().is_blacklisted(&VENUE, &1));
    assert!(!router.callmap().has_user(&VENUE, &a));
}

#[test]
fn how_each_notice_is_sent() {
    let plain = [
        Notice::WrongVenue,
        Notice::Help,
        Notice::NobodyRegistered,
        Notice::NotParticipant,
        Notice::NobodyElse,
        Notice::OtherAlreadyRegistered,
        Notice::SelfAlreadyRegistered,
        Notice::NotRegistered,
        Notice::SponsorForgotten,
        Notice::CaptchaTimeout,
    ];
    let html = [
        Notice::Calling,
        Notice::Registered,
        Notice::OtherInBlacklist,
        Notice::SelfInBlacklist,
        Notice::Left,
        Notice::NobodyRegisteredYou,
        Notice::RegisteredBy,
        Notice::AlreadyBlacklisted,
        Notice::Blacklisted,
        Notice::NotInBlacklist,
        Notice::Unblacklisted,
        Notice::CaptchaPending,
        Notice::CaptchaQuestion,
        Notice::CaptchaFailed,
    ];
    for n in plain {
        assert!(!n.is_html());
        assert_eq!(n.cleanup(), Cleanup::Later);
    }
    for n in html {
        assert!(n.is_html());
        let expected = match n {
            Notice::Calling => Cleanup::Keep,
            Notice::CaptchaQuestion => Cleanup::LaterWithTimeoutNotice,
            _ => Cleanup::Later,
        };
        assert_eq!(n.cleanup(), expected);
    }
}

#[test]
fn challenge_asks_the_question_whose_answer_is_recorded() {
    for (roll, wrong, right) in [(0u64, "t", "f"), (1, "f", "t"), (2, "f", "t")] {
        let bank = router_bank();
        let picked = (roll as usize) % bank.len();
        for (word, barred) in [(wrong, false), (right, true)] {
            let mut router = router_new();
            let a = router_user(1, "A");
            let rolls = Rolls { captcha: 0, question: roll, anonymous: 1 };
            let r = router.handle_command_with(&router_command(&a, Command::Blacklist), rolls, 0);
            assert_eq!(r[0].question, Some(picked));
            assert_eq!(router.questions()[picked], bank[picked]);
            let text = r[0].text("#User# ?", router.questions()).unwrap();
            let block = format!("<pre><code class=\"language-Rust\">{}</code></pre>", bank[picked]
                .text
                .replace('&', "&amp;")
                .replace('<', "&lt;")
                .replace('>', "&gt;"));
            assert_eq!(text, format!("<a href=\"tg://user?id=1\">A</a> ?\n{}", block));
            router.handle_command_with(&router_word(&a, word), router_calm(), 1);
            assert_eq!(router.callmap().is_blacklisted(&VENUE, &1), barred);
        }
    }
    assert_eq!(router_new().questions(), &router_bank());
}
