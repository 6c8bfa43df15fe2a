//! Session ids: short tokens that a person can read out and type in.
//!
//! An id is eight characters, each one a capital letter or a digit. The host
//! draws the characters at random; which characters a draw stands for, and
//! whether a token that a caller supplies is an id, is decided here.

use rand::Rng;
use vstd::prelude::*;

verus! {

/// The number of characters of a session id.
pub const SESSION_ID_LEN: usize = 8;

/// The number of characters that an id's character is drawn from.
pub const SESSION_ALPHABET_LEN: usize = 36;

/// The characters of session ids, in the order in which draws pick them.
pub open spec fn session_alphabet() -> Seq<char> {
    "ABCDEFGHIJKLMNOPQRSTUVWXYZ0123456789"@
}

/// Whether the text is a session id: eight characters of the alphabet.
pub open spec fn is_session_id(text: Seq<char>) -> bool {
    &&& text.len() == SESSION_ID_LEN
    &&& forall|i: int| 0 <= i < text.len() ==> session_alphabet().contains(#[trigger] text[i])
}

/// Whether the draws can be made into an id: eight of them, each a place in
/// the alphabet.
pub open spec fn are_session_draws(draws: Seq<usize>) -> bool {
    &&& draws.len() == SESSION_ID_LEN
    &&& forall|i: int| 0 <= i < draws.len() ==> #[trigger] draws[i] < SESSION_ALPHABET_LEN
}

/// The id that the draws stand for: character by character, the alphabet's
/// character at the place drawn.
pub open spec fn session_id_of(draws: Seq<usize>) -> Seq<char> {
    Seq::new(draws.len(), |i: int| session_alphabet()[draws[i] as int])
}

/// The alphabet has as many characters as its length constant says.
pub proof fn lemma_alphabet_len()
    ensures
        session_alphabet().len() == SESSION_ALPHABET_LEN,
{
    reveal_strlit("ABCDEFGHIJKLMNOPQRSTUVWXYZ0123456789");
}

/// Whatever was drawn, draws that can be made into an id give a session id.
pub proof fn lemma_draws_give_session_id(draws: Seq<usize>)
    requires
        are_session_draws(draws),
    ensures
        is_session_id(session_id_of(draws)),
{
    lemma_alphabet_len();
    let id = session_id_of(draws);
    assert forall|i: int| 0 <= i < id.len() implies session_alphabet().contains(
        #[trigger] id[i],
    ) by {
        assert(draws[i] < SESSION_ALPHABET_LEN);
        assert(session_alphabet()[draws[i] as int] == id[i]);
    }
}

/// The alphabet as a string.
fn alphabet_text() -> (text: &'static str)
    ensures
        text@ == session_alphabet(),
        text@.len() == SESSION_ALPHABET_LEN,
{
    proof {
        lemma_alphabet_len();
    }
    "ABCDEFGHIJKLMNOPQRSTUVWXYZ0123456789"
}

/// Whether the character is one of the alphabet.
pub fn is_session_char(c: char) -> (found: bool)
    ensures
        found == session_alphabet().contains(c),
{
    let alphabet = alphabet_text();
    let mut i: usize = 0;
    while i < SESSION_ALPHABET_LEN
        invariant
            i <= SESSION_ALPHABET_LEN,
            alphabet@ == session_alphabet(),
            alphabet@.len() == SESSION_ALPHABET_LEN,
            forall|j: int| 0 <= j < i ==> session_alphabet()[j] != c,
        decreases SESSION_ALPHABET_LEN - i,
    {
        if alphabet.get_char(i) == c {
            return true;
        }
        i += 1;
    }
    false
}

/// Whether the text is a session id.
pub fn is_valid_session_id(text: &str) -> (valid: bool)
    ensures
        valid == is_session_id(text@),
{
    if text.unicode_len() != SESSION_ID_LEN {
        return false;
    }
    let mut i: usize = 0;
    while i < SESSION_ID_LEN
        invariant
            i <= SESSION_ID_LEN,
            text@.len() == SESSION_ID_LEN,
            forall|j: int| 0 <= j < i ==> session_alphabet().contains(#[trigger] text@[j]),
        decreases SESSION_ID_LEN - i,
    {
        if !is_session_char(text.get_char(i)) {
            return false;
        }
        i += 1;
    }
    true
}

/// The id that the draws stand for, if they can be made into one.
pub fn session_id_from_draws(draws: &Vec<usize>) -> (id: Option<String>)
    ensures
        id is Some <==> are_session_draws(draws@),
        id matches Some(text) ==> text@ == session_id_of(draws@),
{
    if draws.len() != SESSION_ID_LEN {
        return None;
    }
    let alphabet = alphabet_text();
    let mut text = String::new();
    let mut i: usize = 0;
    while i < SESSION_ID_LEN
        invariant
            i <= SESSION_ID_LEN,
            draws@.len() == SESSION_ID_LEN,
            alphabet@ == session_alphabet(),
            alphabet@.len() == SESSION_ALPHABET_LEN,
            forall|j: int| 0 <= j < i ==> #[trigger] draws@[j] < SESSION_ALPHABET_LEN,
            text@ == session_id_of(draws@).subrange(0, i as int),
        decreases SESSION_ID_LEN - i,
    {
        let place: usize = draws[i];
        if place >= SESSION_ALPHABET_LEN {
            return None;
        }
        let letter = alphabet.substring_char(place, place + 1);
        text.append(letter);
        assert(text@ == session_id_of(draws@).subrange(0, i + 1));
        i += 1;
    }
    assert(session_id_of(draws@).subrange(0, i as int) == session_id_of(draws@));
    Some(text)
}

/// The generator of random numbers that each thread of a process owns.
#[verifier::external_type_specification]
#[verifier::external_body]
pub struct ExThreadRng(rand::rngs::ThreadRng);

/// `rand::thread_rng` hands out the calling thread's generator, which the
/// system seeds. Nothing is claimed of the generator.
pub assume_specification[ rand::thread_rng ]() -> (rng: rand::rngs::ThreadRng)
;

/// `Rng::gen_range` on the half-open range from zero to `bound`: a number
/// below `bound`. Which one is open, and two calls may differ. The range must
/// not be empty.
#[verifier::external_body]
fn draw_below(rng: &mut rand::rngs::ThreadRng, bound: usize) -> (drawn: usize)
    requires
        bound > 0,
    ensures
        drawn < bound,
{
    rng.gen_range(0..bound)
}

/// A fresh session id, its characters drawn at random.
///
/// The draws come from the calling thread's generator, which the system
/// seeds. Where the system's source of entropy fails, the generator ends the
/// process, and this function does not return.
pub fn generate_session_id() -> (id: String)
    ensures
        is_session_id(id@),
{
    let mut rng = rand::thread_rng();
    let mut draws: Vec<usize> = Vec::new();
    let mut i: usize = 0;
    while i < SESSION_ID_LEN
        invariant
            i <= SESSION_ID_LEN,
            draws@.len() == i,
            forall|j: int| 0 <= j < i ==> #[trigger] draws@[j] < SESSION_ALPHABET_LEN,
        decreases SESSION_ID_LEN - i,
    {
        let drawn: usize = draw_below(&mut rng, SESSION_ALPHABET_LEN);
        draws.push(drawn);
        i += 1;
    }
    proof {
        lemma_draws_give_session_id(draws@);
    }
    session_id_from_draws(&draws).unwrap()
}

} // verus!
