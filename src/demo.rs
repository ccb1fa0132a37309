//! One tick of the demo loop: the word it logs, and what it adds to the
//! counter.

use rand::seq::IndexedRandom;
use vstd::prelude::*;

verus! {

/// What each tick adds to the counter.
pub const COUNTER_INCREMENT: u64 = 42;

/// Seconds between two ticks.
pub const INTERVAL_SECS: u64 = 5;

/// The words that a tick picks from.
pub open spec fn demo_words() -> Seq<Seq<char>> {
    seq!["foo"@, "bar"@, "baz"@, "qux"@]
}

/// The counter attributes of a tick that logged `word`: a constant pair,
/// then the word itself.
pub open spec fn tick_attributes(word: Seq<char>) -> Seq<(Seq<char>, Seq<char>)> {
    seq![("key"@, "value"@), ("msg"@, word)]
}

/// The attribute pairs, as text.
pub open spec fn attributes_view(a: Seq<(&'static str, &'static str)>) -> Seq<(Seq<char>, Seq<char>)> {
    a.map_values(|p: (&'static str, &'static str)| (p.0@, p.1@))
}

/// What one tick of the demo loop does: log `message`, add `increment` to
/// the counter under `attributes`, then wait `delay_secs` seconds.
#[derive(Clone, Debug)]
pub struct LoopStep {
    pub message: &'static str,
    pub increment: u64,
    pub attributes: Vec<(&'static str, &'static str)>,
    pub delay_secs: u64,
}

impl LoopStep {
    /// The tick logs `word`, counts the fixed increment under the word, and
    /// waits the fixed interval.
    pub open spec fn is_tick_for(self, word: Seq<char>) -> bool {
        &&& self.message@ == word
        &&& self.increment == COUNTER_INCREMENT
        &&& attributes_view(self.attributes@) == tick_attributes(word)
        &&& self.delay_secs == INTERVAL_SECS
    }
}

/// The words that the demo loop picks from, in order.
pub fn demo_messages() -> (r: Vec<&'static str>)
    ensures
        r@.map_values(|s: &'static str| s@) == demo_words(),
{
    proof {
        reveal_strlit("foo");
        reveal_strlit("bar");
        reveal_strlit("baz");
        reveal_strlit("qux");
    }
    let r: Vec<&'static str> = vec!["foo", "bar", "baz", "qux"];
    assert(r@.map_values(|s: &'static str| s@) =~= demo_words());
    r
}

/// The tick that logs and counts `message`.
pub fn step_for(message: &'static str) -> (r: LoopStep)
    ensures
        r.message == message,
        r.is_tick_for(message@),
{
    proof {
        reveal_strlit("key");
        reveal_strlit("value");
        reveal_strlit("msg");
    }
    let attributes: Vec<(&'static str, &'static str)> = vec![("key", "value"), ("msg", message)];
    assert(attributes_view(attributes@) =~= tick_attributes(message@));
    LoopStep { message, increment: COUNTER_INCREMENT, attributes, delay_secs: INTERVAL_SECS }
}

/// Relies on `rand::seq::IndexedRandom::choose`, drawing from `rand::rng()`:
/// `None` on an empty slice, otherwise one of the slice's elements.
#[verifier::external_body]
fn choose_message(items: &[&'static str]) -> (r: Option<&'static str>)
    ensures
        r is None <==> items@.len() == 0,
        r matches Some(m) ==> items@.contains(m),
{
    items.choose(&mut rand::rng()).copied()
}

/// The next tick of the demo loop: a word drawn at random from the demo
/// words, logged and counted under that same word, with the fixed increment
/// and interval.
pub fn next_step() -> (r: LoopStep)
    ensures
        demo_words().contains(r.message@),
        r.is_tick_for(r.message@),
{
    let words = demo_messages();
    let ghost views = words@.map_values(|s: &'static str| s@);
    assert(views.len() == 4);
    let m = choose_message(words.as_slice()).unwrap();
    proof {
        let i = choose|i: int| 0 <= i < words@.len() && words@[i] == m;
        assert(views[i] == m@);
    }
    step_for(m)
}

} // verus!
