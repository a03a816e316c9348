//! Identifiers of intents.

use vstd::prelude::*;

use crate::text::push_char;
use rand::Rng;

verus! {

/// Characters in an intent identifier.
pub const INTENT_ID_LEN: usize = 6;

/// An ASCII letter or digit.
pub open spec fn is_alphanumeric(b: u8) -> bool {
    ||| 0x30 <= b <= 0x39
    ||| 0x41 <= b <= 0x5a
    ||| 0x61 <= b <= 0x7a
}

/// A text that an intent identifier may be: six ASCII letters and digits.
pub open spec fn is_intent_id(text: Seq<char>) -> bool {
    &&& text.len() == INTENT_ID_LEN
    &&& forall|i: int| 0 <= i < text.len() ==> is_alphanumeric(#[trigger] text[i] as u8) && (text[i] as u32) < 128
}

/// Samples `rand::distributions::Alphanumeric` from the thread's generator. Whatever the
/// generator yields, the distribution hands out one of the 62 ASCII letters and digits.
/// The generator seeds itself from the operating system when a thread first uses it,
/// and gives up where that source fails.
#[verifier::external_body]
fn random_alphanumeric() -> (b: u8)
    ensures
        is_alphanumeric(b),
{
    rand::thread_rng().sample(rand::distributions::Alphanumeric)
}

/// Draws the identifier of a new intent at random.
pub fn generate_random_intent_id() -> (id: String)
    ensures
        is_intent_id(id@),
{
    let mut id = String::new();
    let mut i: usize = 0;
    while i < INTENT_ID_LEN
        invariant
            i <= INTENT_ID_LEN,
            id@.len() == i,
            forall|j: int| 0 <= j < id@.len() ==> is_alphanumeric(#[trigger] id@[j] as u8) && (id@[j] as u32) < 128,
        decreases INTENT_ID_LEN - i,
    {
        let b: u8 = random_alphanumeric();
        let c: char = b as char;
        push_char(&mut id, c);
        i += 1;
    }
    id
}

} // verus!
