//! The fixed list of readings, and the random pick among them.

use rand::rngs::ThreadRng;
use rand::seq::SliceRandom;
use vstd::prelude::*;

verus! {

/// The readings, in their fixed order: ten affirmative, five negative, five
/// non-committal.
pub const PREDICTIONS: [&'static str; 20] = [
    "It is certain",
    "It is decidedly so",
    "Without a doubt",
    "Yes definitely",
    "You may rely on it",
    "As I see it, yes",
    "Most likely",
    "Outlook good",
    "Yes",
    "Signs point to yes",
    "Don't count on it",
    "My reply is no",
    "My sources say no",
    "Outlook not so good",
    "Very doubtful",
    "Reply hazy, try again",
    "Ask again later",
    "Better not tell you now",
    "Cannot predict now",
    "Concentrate and ask again",
];

/// The readings as texts, in the order of [`PREDICTIONS`].
pub open spec fn readings() -> Seq<Seq<char>> {
    Seq::new(20, |i: int| PREDICTIONS[i]@)
}

/// Whether `text` is one of the readings.
pub open spec fn is_reading(text: Seq<char>) -> bool {
    exists|i: int| 0 <= i < 20 && #[trigger] readings()[i] == text
}

/// `rand::rngs::ThreadRng`, the generator that each thread keeps for itself.
#[verifier::external_type_specification]
#[verifier::external_body]
pub struct ExThreadRng(ThreadRng);

/// `rand::thread_rng` hands out the calling thread's generator, seeded by the
/// operating system. Nothing is claimed of it.
pub assume_specification[ rand::thread_rng ]() -> ThreadRng;

/// `rand::seq::SliceRandom::choose` on a slice: `None` for an empty slice,
/// otherwise one of the slice's elements. Which one is left open: it depends
/// on the generator's state.
#[verifier::external_body]
fn choose_reading(list: &[&'static str], rng: &mut ThreadRng) -> (picked: Option<&'static str>)
    ensures
        list@.len() == 0 ==> picked is None,
        list@.len() > 0 ==> picked is Some,
        picked is Some ==> exists|i: int| 0 <= i < list@.len() && #[trigger] list@[i] == picked->0,
{
    list.choose(rng).copied()
}

/// One reading, drawn at random from the list; every call draws anew.
pub fn get_random_prediction() -> (reading: String)
    ensures
        is_reading(reading@),
{
    let mut rng = rand::thread_rng();
    let picked = choose_reading(PREDICTIONS.as_slice(), &mut rng);
    let text: &'static str = picked.unwrap();
    proof {
        let i = choose|i: int| 0 <= i < 20 && #[trigger] PREDICTIONS@[i] == text;
        assert(readings()[i] == text@);
    }
    text.to_owned()
}

/// How many readings the start-up banner shows.
pub const SAMPLE_SIZE: usize = 5;

/// The readings that the start-up banner shows, which are the first of the
/// list, and the number of readings that it leaves out.
pub fn example_predictions() -> (r: (Vec<&'static str>, usize))
    ensures
        r.0@.len() == SAMPLE_SIZE,
        forall|i: int| 0 <= i < SAMPLE_SIZE ==> (#[trigger] r.0@[i])@ == readings()[i],
        r.1 == 20 - SAMPLE_SIZE,
{
    let mut sample: Vec<&'static str> = Vec::new();
    let mut i: usize = 0;
    while i < SAMPLE_SIZE
        invariant
            i <= SAMPLE_SIZE,
            sample@.len() == i,
            forall|k: int| 0 <= k < i ==> (#[trigger] sample@[k])@ == readings()[k],
        decreases SAMPLE_SIZE - i,
    {
        sample.push(PREDICTIONS[i]);
        i += 1;
    }
    (sample, PREDICTIONS.len() - SAMPLE_SIZE)
}

} // verus!
