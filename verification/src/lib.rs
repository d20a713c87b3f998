//! Resolves which configured messages apply at a given moment.
//!
//! A configuration is a list of rules. Each rule carries a message (or a
//! command that prints one) and is gated by a calendar predicate, a dynamic
//! condition, or both. The library evaluates the rules against a moment in
//! time and selects the final text according to the configured policy.

use config::{BehaviorView, Config, MultipleBehavior};
use text::texts;
use vstd::prelude::*;

pub mod calendar;
pub mod config;
pub mod errors;
pub mod predicate;
pub mod reader;
pub mod formatting;
pub mod resolve;
pub mod store;
pub mod text;
pub mod time;

verus! {

/// The texts joined in order, with `separator` between neighbours.
pub open spec fn joined(outputs: Seq<Seq<char>>, separator: Seq<char>) -> Seq<char>
    decreases outputs.len(),
{
    if outputs.len() == 0 {
        Seq::empty()
    } else if outputs.len() == 1 {
        outputs[0]
    } else {
        joined(outputs.drop_last(), separator) + separator + outputs.last()
    }
}

/// The text that a policy makes of the texts of the matching rules.
/// Without a configured policy all texts are joined with nothing between
/// them. `pick` is the position that the random policy draws; it is
/// consulted by that policy alone, and only where there is a text to draw.
pub open spec fn selected(behavior: Option<BehaviorView>, outputs: Seq<Seq<char>>, pick: int)
    -> Seq<char> {
    match behavior {
        None => joined(outputs, Seq::empty()),
        Some(BehaviorView::All { seperator }) => joined(outputs, seperator),
        Some(BehaviorView::First) => if outputs.len() > 0 {
            outputs.first()
        } else {
            Seq::empty()
        },
        Some(BehaviorView::Last) => if outputs.len() > 0 {
            outputs.last()
        } else {
            Seq::empty()
        },
        Some(BehaviorView::Random) => if 0 <= pick < outputs.len() {
            outputs[pick]
        } else {
            Seq::empty()
        },
    }
}

/// The view of a policy that may be absent.
pub open spec fn behavior_view(behavior: Option<MultipleBehavior>) -> Option<BehaviorView> {
    match behavior {
        Some(b) => Some(b@),
        None => None,
    }
}

/// Draws a number below `bound` with `fastrand::usize(..bound)`.
///
/// Trusted: the number drawn lies below the bound. The call panics on an
/// empty range, which the precondition rules out.
#[verifier::external_body]
fn random_below(bound: usize) -> (r: usize)
    requires
        bound > 0,
    ensures
        r < bound,
{
    fastrand::usize(..bound)
}

fn join(outputs: &Vec<String>, separator: &str) -> (r: String)
    ensures
        r@ == joined(texts(outputs@), separator@),
{
    let mut out = String::new();
    let mut i: usize = 0;
    while i < outputs.len()
        invariant
            i <= outputs.len(),
            out@ == joined(texts(outputs@).take(i as int), separator@),
        decreases outputs.len() - i,
    {
        let ghost before = texts(outputs@).take(i as int);
        let ghost after = texts(outputs@).take(i + 1);
        assert(after.drop_last() =~= before);
        if i > 0 {
            out.append(separator);
        }
        out.append(outputs[i].as_str());
        i += 1;
    }
    assert(texts(outputs@).take(i as int) =~= texts(outputs@));
    out
}

/// Applies a policy to the texts of the matching rules, with `pick` as the
/// position that the random policy draws.
pub fn select(behavior: &Option<MultipleBehavior>, outputs: &Vec<String>, pick: usize) -> (r:
    String)
    ensures
        r@ == selected(behavior_view(*behavior), texts(outputs@), pick as int),
{
    match behavior {
        None => join(outputs, String::new().as_str()),
        Some(MultipleBehavior::All { seperator }) => join(outputs, seperator.as_str()),
        Some(MultipleBehavior::First) => if outputs.len() > 0 {
            outputs[0].clone()
        } else {
            String::new()
        },
        Some(MultipleBehavior::Last) => if outputs.len() > 0 {
            outputs[outputs.len() - 1].clone()
        } else {
            String::new()
        },
        Some(MultipleBehavior::Random) => if pick < outputs.len() {
            outputs[pick].clone()
        } else {
            String::new()
        },
    }
}

/// The final text for a configuration, from the texts of its matching
/// rules in the order of the rules. The random policy draws one of the
/// texts; without any text the result is empty under every policy.
pub fn output_of(config: &Config, outputs: &Vec<String>) -> (r: String)
    ensures
        exists|pick: int|
            0 <= pick && (outputs.len() > 0 ==> pick < outputs.len()) && r@ == #[trigger] selected(
                config@.multiple_behavior,
                texts(outputs@),
                pick,
            ),
        outputs.len() == 0 ==> r@ == Seq::<char>::empty(),
        outputs.len() == 1 ==> r@ == outputs[0]@,
{
    let pick: usize = match &config.multiple_behavior {
        Some(MultipleBehavior::Random) => if outputs.len() > 0 {
            random_below(outputs.len())
        } else {
            0
        },
        _ => 0,
    };
    proof {
        lemma_nothing_selects_nothing(config@.multiple_behavior, pick as int);
        if outputs.len() == 1 {
            lemma_single_text_is_selected(config@.multiple_behavior, outputs[0]@, pick as int);
        }
    }
    select(&config.multiple_behavior, outputs, pick)
}

/// Without a matching rule every policy gives the empty text.
pub proof fn lemma_nothing_selects_nothing(behavior: Option<BehaviorView>, pick: int)
    ensures
        selected(behavior, Seq::empty(), pick) == Seq::<char>::empty(),
{
}

/// With exactly one matching rule every policy gives that rule's text;
/// whatever the random policy draws, it draws this one.
pub proof fn lemma_single_text_is_selected(
    behavior: Option<BehaviorView>,
    output: Seq<char>,
    pick: int,
)
    requires
        pick == 0,
    ensures
        selected(behavior, seq![output], pick) == output,
{
}

/// The first policy gives the first text and the last policy the last,
/// and joining two texts puts the separator between them.
pub proof fn lemma_policies_on_two(first: Seq<char>, second: Seq<char>, separator: Seq<char>)
    ensures
        selected(Some(BehaviorView::First), seq![first, second], 0) == first,
        selected(Some(BehaviorView::Last), seq![first, second], 0) == second,
        selected(Some(BehaviorView::All { seperator: separator }), seq![first, second], 0) == first
            + separator + second,
        selected(None, seq![first, second], 0) == first + second,
{
    let both = seq![first, second];
    assert(joined(both.drop_last(), separator) == first);
    assert(joined(both.drop_last(), Seq::empty()) == first);
}

} // verus!
