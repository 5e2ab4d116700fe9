//! The bot's random decisions: the draws, and what each draw decides.

use vstd::prelude::*;

verus! {

/// `rand::random::<u32>()`: a value drawn from the thread-local generator.
/// The result depends on chance, so nothing is claimed of it. The call
/// panics where the operating system cannot seed the generator.
#[verifier::external_body]
fn random_u32() -> u32 {
    rand::random::<u32>()
}

/// `rand::random::<u64>()`: a value drawn from the thread-local generator.
/// The result depends on chance, so nothing is claimed of it. The call
/// panics where the operating system cannot seed the generator.
#[verifier::external_body]
fn random_u64() -> u64 {
    rand::random::<u64>()
}

/// The draws that handling one message may consult.
#[derive(Clone, Copy, Debug)]
pub struct Rolls {
    /// Decides whether barring oneself takes a challenge first.
    pub captcha: u32,
    /// Decides which question a challenge asks.
    pub question: u64,
    /// Decides whether a sponsored registration forgets its sponsor.
    pub anonymous: u32,
}

impl Rolls {
    /// Draws afresh. Nothing is promised of the outcome.
    pub fn draw() -> Rolls {
        Rolls { captcha: random_u32(), question: random_u64(), anonymous: random_u32() }
    }
}

/// Three draws in ten ask for a challenge.
#[verifier::allow_in_spec]
pub fn needs_captcha(roll: u32) -> bool
    returns
        roll % 10 < 3,
{
    roll % 10 < 3
}

/// One draw in ten forgets the sponsor.
#[verifier::allow_in_spec]
pub fn is_anonymous(roll: u32) -> bool
    returns
        roll % 10 == 0,
{
    roll % 10 == 0
}

/// The question that a draw picks from a bank of `bank` questions: the draw,
/// cut to the machine's word, modulo the size of the bank. An empty bank has
/// no question to pick.
pub open spec fn picked(roll: u64, bank: usize) -> Option<usize> {
    if bank == 0 {
        None
    } else {
        Some(((roll as usize) % bank) as usize)
    }
}

#[verifier::when_used_as_spec(picked)]
/// The question that a draw picks from a bank of `bank` questions.
pub fn pick_question(roll: u64, bank: usize) -> (r: Option<usize>)
    ensures
        r == picked(roll, bank),
        r matches Some(q) ==> q < bank,
{
    if bank == 0 {
        None
    } else {
        Some((roll as usize) % bank)
    }
}

} // verus!
