//! Evaluating the boolean expression of a condition.
//!
//! The expression language is evalexpr's. An expression sees five calendar
//! variables. Four of the evaluator's built-in functions stop the process
//! on some arguments; they are replaced by functions of this module that
//! give the same result wherever the built-in gives one and never stop.

use crate::calendar::{Moment, Weekday};
use evalexpr::{ContextWithMutableFunctions, ContextWithMutableVariables};
use vstd::prelude::*;
use vstd::utf8::{encode_utf8, is_char_boundary};

verus! {

/// The calendar variables that an expression sees, with their values at
/// `now` in a week that starts on `week_start_day`.
pub open spec fn variables(now: Moment, week_start_day: Weekday) -> Seq<(Seq<char>, int)> {
    seq![
        ("DAY_IN_WEEK"@, now.weekday.spec_days_since(week_start_day)),
        ("DAY_OF_MONTH"@, now.day as int),
        ("WEEK"@, now.week as int),
        ("MONTH"@, now.month as int),
        ("YEAR"@, now.year as int),
    ]
}

/// The views of a list of named integers.
pub open spec fn named_values(list: Seq<(String, i64)>) -> Seq<(Seq<char>, int)> {
    Seq::new(list.len(), |i: int| (list[i].0@, list[i].1 as int))
}

/// The variables as a map: each name with its value, a later entry of the
/// list before an earlier one of the same name.
pub open spec fn as_map(list: Seq<(Seq<char>, int)>) -> Map<Seq<char>, int>
    decreases list.len(),
{
    if list.len() == 0 {
        Map::empty()
    } else {
        as_map(list.drop_last()).insert(list.last().0, list.last().1)
    }
}

/// Lists the calendar variables of `now`.
pub fn predicate_variables(now: &Moment, week_start_day: Weekday) -> (list: Vec<(String, i64)>)
    ensures
        named_values(list@) == variables(*now, week_start_day),
{
    let mut list: Vec<(String, i64)> = Vec::new();
    list.push((String::from_str("DAY_IN_WEEK"), now.weekday.days_since(week_start_day) as i64));
    list.push((String::from_str("DAY_OF_MONTH"), now.day as i64));
    list.push((String::from_str("WEEK"), now.week as i64));
    list.push((String::from_str("MONTH"), now.month as i64));
    list.push((String::from_str("YEAR"), now.year as i64));
    assert(named_values(list@) =~= variables(*now, week_start_day));
    list
}

/// The absolute value as the machine computes it without overflow checks:
/// the smallest integer, which has no counterpart, is its own.
pub open spec fn spec_wrapping_abs(value: i64) -> i64 {
    if value == i64::MIN {
        i64::MIN
    } else if value < 0 {
        (-value) as i64
    } else {
        value
    }
}

/// The absolute value; the smallest integer stays as it is.
pub fn wrapping_abs(value: i64) -> (r: i64)
    ensures
        r == spec_wrapping_abs(value),
{
    if value == i64::MIN {
        value
    } else if value < 0 {
        -value
    } else {
        value
    }
}

/// `value` shifted left as the machine shifts without overflow checks: by
/// the lowest six bits of `by`, bits leaving at the top dropped.
pub open spec fn spec_shift_left(value: i64, by: i64) -> i64 {
    (((value as u64) << ((by as u64) & 63)) as i64)
}

/// Shifts left by the lowest six bits of `by`.
pub fn shift_left(value: i64, by: i64) -> (r: i64)
    ensures
        r == spec_shift_left(value, by),
{
    let amount: u64 = (by as u64) & 63;
    assert(amount < 64) by (bit_vector)
        requires
            amount == (by as u64) & 63,
    ;
    (((value as u64) << amount) as i64)
}

/// `value` shifted right as the machine shifts without overflow checks: by
/// the lowest six bits of `by`, the sign kept.
pub open spec fn spec_shift_right(value: i64, by: i64) -> i64 {
    value >> ((by as u64) & 63)
}

/// Shifts right by the lowest six bits of `by`, keeping the sign.
pub fn shift_right(value: i64, by: i64) -> (r: i64)
    ensures
        r == spec_shift_right(value, by),
{
    let amount: u64 = (by as u64) & 63;
    assert(amount < 64) by (bit_vector)
        requires
            amount == (by as u64) & 63,
    ;
    value >> amount
}

/// The bytes from `start` up to `end` of an encoded text, where both
/// positions lie in the text in this order and neither falls inside a
/// character.
pub open spec fn cut(bytes: Seq<u8>, start: int, end: int) -> Option<Seq<u8>> {
    if 0 <= start <= end <= bytes.len() && is_char_boundary(bytes, start) && is_char_boundary(
        bytes.subrange(start, bytes.len() as int),
        end - start,
    ) {
        Some(bytes.subrange(start, end))
    } else {
        None
    }
}

/// The part of `subject` between two byte positions, to the end of the
/// text where `end` is absent. There is no part where a position is
/// negative or beyond the text, where they are out of order, or where one
/// falls inside a character.
pub fn substring(subject: &str, start: i64, end: Option<i64>) -> (r: Option<String>)
    ensures
        match cut(
            encode_utf8(subject@),
            start as int,
            match end {
                Some(e) => e as int,
                None => encode_utf8(subject@).len() as int,
            },
        ) {
            Some(part) => r matches Some(text) && encode_utf8(text@) == part,
            None => r is None,
        },
{
    let len: usize = subject.as_bytes().len();
    if start < 0 {
        return None;
    }
    let from: u64 = start as u64;
    let to: u64 = match end {
        Some(e) => {
            if e < 0 {
                return None;
            }
            e as u64
        },
        None => len as u64,
    };
    if from > to || to > len as u64 {
        return None;
    }
    let from: usize = from as usize;
    let to: usize = to as usize;
    if !subject.is_char_boundary(from) {
        return None;
    }
    let tail = subject.split_at(from).1;
    assert(encode_utf8(tail@) == encode_utf8(subject@).subrange(from as int, len as int));
    if !tail.is_char_boundary(to - from) {
        return None;
    }
    let part = tail.split_at(to - from).0;
    assert(encode_utf8(part@) =~= encode_utf8(subject@).subrange(from as int, to as int));
    Some(part.to_owned())
}

/// An evaluator of expressions: evalexpr's `HashMapContext`.
#[verifier::external_body]
pub struct Evaluator {
    context: evalexpr::HashMapContext<evalexpr::DefaultNumericTypes>,
}

/// The integer variables that an evaluator holds, by name.
pub uninterp spec fn bound(evaluator: Evaluator) -> Map<Seq<char>, int>;

/// The names of the functions that an evaluator was given in place of
/// built-in ones.
pub uninterp spec fn replaced(evaluator: Evaluator) -> Set<Seq<char>>;

/// Makes a context with `evalexpr::HashMapContext::new`.
///
/// Trusted: a new context holds no variable and no function.
#[verifier::external_body]
fn new_evaluator() -> (evaluator: Evaluator)
    ensures
        bound(evaluator) == as_map(Seq::empty()),
        replaced(evaluator) == Set::<Seq<char>>::empty(),
{
    Evaluator { context: evalexpr::HashMapContext::new() }
}

/// Sets an integer variable with `HashMapContext::set_value`.
///
/// Trusted: the variable is added, or replaced where the name is bound to
/// an integer already; the functions stay.
#[verifier::external_body]
fn bind(evaluator: &mut Evaluator, name: &str, value: i64)
    ensures
        bound(*final(evaluator)) == bound(*old(evaluator)).insert(name@, value as int),
        replaced(*final(evaluator)) == replaced(*old(evaluator)),
{
    let _ = evaluator.context.set_value(name.into(), evalexpr::Value::Int(value));
}

/// Registers, with `HashMapContext::set_function`, a function of one
/// number under `name`: on an integer [`wrapping_abs`], on a float the
/// evaluator's own `EvalexprFloat::abs`, on anything else its type error.
///
/// Trusted: the function is registered under that name; the variables
/// stay.
#[verifier::external_body]
fn replace_abs(evaluator: &mut Evaluator, name: &str)
    ensures
        bound(*final(evaluator)) == bound(*old(evaluator)),
        replaced(*final(evaluator)) == replaced(*old(evaluator)).insert(name@),
{
    let function = evalexpr::Function::new(|argument: &evalexpr::Value| match argument {
        evalexpr::Value::Int(value) => Ok(evalexpr::Value::Int(wrapping_abs(*value))),
        evalexpr::Value::Float(value) => Ok(
            evalexpr::Value::Float(
                evalexpr::EvalexprFloat::<evalexpr::DefaultNumericTypes>::abs(value),
            ),
        ),
        other => Err(evalexpr::EvalexprError::expected_number(other.clone())),
    });
    let _ = evaluator.context.set_function(name.into(), function);
}

/// Registers, with `HashMapContext::set_function`, a function of two
/// integers under `name`: [`shift_left`].
///
/// Trusted: the function is registered under that name; the variables
/// stay.
#[verifier::external_body]
fn replace_shift_left(evaluator: &mut Evaluator, name: &str)
    ensures
        bound(*final(evaluator)) == bound(*old(evaluator)),
        replaced(*final(evaluator)) == replaced(*old(evaluator)).insert(name@),
{
    let function = evalexpr::Function::new(|argument: &evalexpr::Value| {
        let pair = argument.as_fixed_len_tuple(2)?;
        Ok(evalexpr::Value::Int(shift_left(pair[0].as_int()?, pair[1].as_int()?)))
    });
    let _ = evaluator.context.set_function(name.into(), function);
}

/// Registers, with `HashMapContext::set_function`, a function of two
/// integers under `name`: [`shift_right`].
///
/// Trusted: the function is registered under that name; the variables
/// stay.
#[verifier::external_body]
fn replace_shift_right(evaluator: &mut Evaluator, name: &str)
    ensures
        bound(*final(evaluator)) == bound(*old(evaluator)),
        replaced(*final(evaluator)) == replaced(*old(evaluator)).insert(name@),
{
    let function = evalexpr::Function::new(|argument: &evalexpr::Value| {
        let pair = argument.as_fixed_len_tuple(2)?;
        Ok(evalexpr::Value::Int(shift_right(pair[0].as_int()?, pair[1].as_int()?)))
    });
    let _ = evaluator.context.set_function(name.into(), function);
}

/// Registers, with `HashMapContext::set_function`, a function of a string
/// and one or two integers under `name`: [`substring`], with the
/// evaluator's out-of-bounds error where there is no such part.
///
/// Trusted: the function is registered under that name; the variables
/// stay.
#[verifier::external_body]
fn replace_substring(evaluator: &mut Evaluator, name: &str)
    ensures
        bound(*final(evaluator)) == bound(*old(evaluator)),
        replaced(*final(evaluator)) == replaced(*old(evaluator)).insert(name@),
{
    let function = evalexpr::Function::new(|argument: &evalexpr::Value| {
        let list = argument.as_ranged_len_tuple(2..=3)?;
        let end = match list.get(2) {
            Some(end) => Some(end.as_int()?),
            None => None,
        };
        substring(&list[0].as_string()?, list[1].as_int()?, end)
            .map(evalexpr::Value::String)
            .ok_or(evalexpr::EvalexprError::OutOfBoundsAccess)
    });
    let _ = evaluator.context.set_function(name.into(), function);
}

/// The functions of the evaluator that are replaced: the built-in ones
/// stop the process where a shift is out of range, where the smallest
/// integer has no absolute value, or where a string is cut inside a
/// character.
pub open spec fn guarded() -> Set<Seq<char>> {
    set!["math::abs"@, "shl"@, "shr"@, "str::substring"@]
}

/// Evaluates `expression` with `evalexpr::eval_boolean_with_context`. An
/// error of the evaluator becomes `None`.
///
/// Trusted: the expression `true` evaluates to the boolean of that name.
/// Nothing else is claimed of the outcome: the evaluator's float functions
/// are the machine's.
#[verifier::external_body]
fn evaluate(evaluator: &Evaluator, expression: &str) -> (r: Option<bool>)
    requires
        guarded().subset_of(replaced(*evaluator)),
    ensures
        expression@ == "true"@ ==> r == Some(true),
{
    evalexpr::eval_boolean_with_context(expression, &evaluator.context).ok()
}

/// Binds the variables of the list.
fn bind_all(evaluator: &mut Evaluator, list: &Vec<(String, i64)>)
    ensures
        replaced(*final(evaluator)) == replaced(*old(evaluator)),
        bound(*final(evaluator)) == bound(*old(evaluator)).union_prefer_right(
            as_map(named_values(list@)),
        ),
{
    let mut i: usize = 0;
    assert(named_values(list@).take(0) =~= Seq::empty());
    assert(bound(*evaluator) =~= bound(*old(evaluator)).union_prefer_right(
        as_map(named_values(list@).take(0)),
    ));
    while i < list.len()
        invariant
            i <= list.len(),
            replaced(*evaluator) == replaced(*old(evaluator)),
            bound(*evaluator) == bound(*old(evaluator)).union_prefer_right(
                as_map(named_values(list@).take(i as int)),
            ),
        decreases list.len() - i,
    {
        let ghost before = bound(*evaluator);
        bind(evaluator, list[i].0.as_str(), list[i].1);
        assert(named_values(list@).take(i + 1).drop_last() =~= named_values(list@).take(i as int));
        assert(bound(*evaluator) =~= bound(*old(evaluator)).union_prefer_right(
            as_map(named_values(list@).take(i + 1)),
        ));
        i += 1;
    }
    assert(named_values(list@).take(list.len() as int) =~= named_values(list@));
}

/// An evaluator that holds the given variables and the replacements of the
/// guarded functions.
pub fn prepared_evaluator(list: &Vec<(String, i64)>) -> (evaluator: Evaluator)
    ensures
        bound(evaluator) == as_map(named_values(list@)),
        replaced(evaluator) == guarded(),
{
    let mut evaluator = new_evaluator();
    replace_abs(&mut evaluator, "math::abs");
    replace_shift_left(&mut evaluator, "shl");
    replace_shift_right(&mut evaluator, "shr");
    replace_substring(&mut evaluator, "str::substring");
    assert(replaced(evaluator) =~= guarded());
    bind_all(&mut evaluator, list);
    assert(bound(evaluator) =~= as_map(named_values(list@)));
    evaluator
}

/// What the evaluator makes of an expression on the day `now`: the boolean
/// that it evaluates to, or `None` where it does not parse, fails, or
/// evaluates to something else than a boolean.
pub fn evaluate_predicate(expression: &str, now: &Moment, week_start_day: Weekday) -> (r:
    Option<bool>)
    ensures
        expression@ == "true"@ ==> r == Some(true),
{
    let list = predicate_variables(now, week_start_day);
    let evaluator = prepared_evaluator(&list);
    evaluate(&evaluator, expression)
}

} // verus!
