//! Deciding whether a rule applies at a moment, and what it then says.
//!
//! Nothing here starts a process. Where a rule names a command, the caller
//! runs it as [`CustomCommand::prepare`] describes and hands back what it
//! saw; the functions of this module take that as an argument.

use crate::calendar::{Moment, Month, Weekday};
use crate::config::{
    CommandView, ConditionView, CustomCommand, DayOf, DayOfView, MergeStrategy, RuleView,
    RunCondition, TimeRange, TimeRangeMessage, TimeRangeView,
};
use crate::predicate::evaluate_predicate;
use crate::text::{decimal, decimal_text, opt_text, text_of_bytes, texts};
use vstd::prelude::*;
use vstd::utf8::{decode_utf8, valid_utf8};

verus! {

impl MergeStrategy {
    /// The combination of two truth values under this strategy.
    pub open spec fn spec_apply(self, first: bool, second: bool) -> bool {
        match self {
            MergeStrategy::AND => first && second,
            MergeStrategy::OR => first || second,
            MergeStrategy::XOR => first != second,
            MergeStrategy::NAND => !(first && second),
            MergeStrategy::NOR => !(first || second),
        }
    }

    /// Combines two truth values.
    pub fn apply(&self, first: bool, second: bool) -> (r: bool)
        ensures
            r == self.spec_apply(first, second),
    {
        match self {
            MergeStrategy::OR => first || second,
            MergeStrategy::AND => first && second,
            MergeStrategy::XOR => first != second,
            MergeStrategy::NOR => !(first || second),
            MergeStrategy::NAND => !(first && second),
        }
    }
}

/// The truth table of the five strategies.
pub proof fn lemma_truth_table()
    ensures
        !MergeStrategy::AND.spec_apply(false, false),
        !MergeStrategy::AND.spec_apply(false, true),
        !MergeStrategy::AND.spec_apply(true, false),
        MergeStrategy::AND.spec_apply(true, true),
        !MergeStrategy::OR.spec_apply(false, false),
        MergeStrategy::OR.spec_apply(false, true),
        MergeStrategy::OR.spec_apply(true, false),
        MergeStrategy::OR.spec_apply(true, true),
        !MergeStrategy::XOR.spec_apply(false, false),
        MergeStrategy::XOR.spec_apply(false, true),
        MergeStrategy::XOR.spec_apply(true, false),
        !MergeStrategy::XOR.spec_apply(true, true),
        MergeStrategy::NAND.spec_apply(false, false),
        MergeStrategy::NAND.spec_apply(false, true),
        MergeStrategy::NAND.spec_apply(true, false),
        !MergeStrategy::NAND.spec_apply(true, true),
        MergeStrategy::NOR.spec_apply(false, false),
        !MergeStrategy::NOR.spec_apply(false, true),
        !MergeStrategy::NOR.spec_apply(true, false),
        !MergeStrategy::NOR.spec_apply(true, true),
{
}

/// NAND and NOR are the negations of AND and OR, and every strategy treats
/// its two inputs alike.
pub proof fn lemma_strategies_are_symmetric(strategy: MergeStrategy, first: bool, second: bool)
    ensures
        strategy.spec_apply(first, second) == strategy.spec_apply(second, first),
        MergeStrategy::NAND.spec_apply(first, second) == !MergeStrategy::AND.spec_apply(
            first,
            second,
        ),
        MergeStrategy::NOR.spec_apply(first, second) == !MergeStrategy::OR.spec_apply(
            first,
            second,
        ),
{
}

impl TimeRangeView {
    /// Whether the year is one of the listed years; an empty list leaves
    /// the year open.
    pub open spec fn year_matches(self, now: Moment) -> bool {
        self.year matches Some(years) ==> years == Set::<i32>::empty() || years.contains(now.year)
    }

    /// Whether the month is one of the listed months; an empty list leaves
    /// the month open.
    pub open spec fn month_matches(self, now: Moment) -> bool {
        self.month matches Some(months) ==> months == Set::<Month>::empty() || (
        Month::spec_from_number(now.month as int) matches Some(m) && months.contains(m))
    }

    /// Whether the ISO week is one of the listed weeks; an empty list
    /// leaves the week open.
    pub open spec fn week_matches(self, now: Moment) -> bool {
        self.week matches Some(weeks) ==> weeks == Set::<u32>::empty() || weeks.contains(now.week)
    }

    /// Whether the day is one of the listed days, of the week or of the
    /// month.
    pub open spec fn day_matches(self, now: Moment) -> bool {
        match self.day_of {
            None => true,
            Some(DayOfView::Week(days)) => days.contains(now.weekday),
            Some(DayOfView::Month(days)) => now.day <= u8::MAX && days.contains(now.day as u8),
        }
    }

    /// Whether the predicate holds at `now`: every field that is present
    /// admits the moment.
    pub open spec fn matches(self, now: Moment) -> bool {
        &&& self.year_matches(now)
        &&& self.month_matches(now)
        &&& self.week_matches(now)
        &&& self.day_matches(now)
    }
}

fn has_year(years: &Vec<i32>, year: i32) -> (b: bool)
    ensures
        b == years@.to_set().contains(year),
{
    let mut i: usize = 0;
    while i < years.len()
        invariant
            i <= years.len(),
            forall|j: int| 0 <= j < i ==> years[j] != year,
        decreases years.len() - i,
    {
        if years[i] == year {
            return true;
        }
        i += 1;
    }
    false
}

fn has_week(weeks: &Vec<u32>, week: u32) -> (b: bool)
    ensures
        b == weeks@.to_set().contains(week),
{
    let mut i: usize = 0;
    while i < weeks.len()
        invariant
            i <= weeks.len(),
            forall|j: int| 0 <= j < i ==> weeks[j] != week,
        decreases weeks.len() - i,
    {
        if weeks[i] == week {
            return true;
        }
        i += 1;
    }
    false
}

fn has_month(months: &Vec<Month>, number: u32) -> (b: bool)
    ensures
        b == (Month::spec_from_number(number as int) matches Some(m) && months@.to_set().contains(
            m,
        )),
{
    let mut i: usize = 0;
    while i < months.len()
        invariant
            i <= months.len(),
            forall|j: int| 0 <= j < i ==> months[j].spec_number() != number,
        decreases months.len() - i,
    {
        if months[i].number() == number {
            return true;
        }
        i += 1;
    }
    false
}

fn has_weekday(days: &Vec<Weekday>, day: Weekday) -> (b: bool)
    ensures
        b == days@.to_set().contains(day),
{
    let mut i: usize = 0;
    while i < days.len()
        invariant
            i <= days.len(),
            forall|j: int| 0 <= j < i ==> days[j] != day,
        decreases days.len() - i,
    {
        if days[i] == day {
            return true;
        }
        i += 1;
    }
    false
}

fn has_day(days: &Vec<u8>, day: u32) -> (b: bool)
    ensures
        b == (day <= u8::MAX && days@.to_set().contains(day as u8)),
{
    let mut i: usize = 0;
    while i < days.len()
        invariant
            i <= days.len(),
            forall|j: int| 0 <= j < i ==> days[j] != day,
        decreases days.len() - i,
    {
        if days[i] as u32 == day {
            return true;
        }
        i += 1;
    }
    false
}

impl TimeRange {
    /// Whether the calendar predicate holds at `now`.
    pub fn evaluate(&self, now: &Moment) -> (b: bool)
        ensures
            b == self@.matches(*now),
    {
        let match_year = match &self.year {
            None => true,
            Some(years) => {
                assert(years.len() == 0 ==> years@.to_set() =~= Set::<i32>::empty());
                assert(years.len() > 0 ==> years@.to_set().contains(years[0]));
                years.len() == 0 || has_year(years, now.year)
            },
        };
        let match_month = match &self.month {
            None => true,
            Some(months) => {
                assert(months.len() == 0 ==> months@.to_set() =~= Set::<Month>::empty());
                assert(months.len() > 0 ==> months@.to_set().contains(months[0]));
                months.len() == 0 || has_month(months, now.month)
            },
        };
        let match_week = match &self.week {
            None => true,
            Some(weeks) => {
                assert(weeks.len() == 0 ==> weeks@.to_set() =~= Set::<u32>::empty());
                assert(weeks.len() > 0 ==> weeks@.to_set().contains(weeks[0]));
                weeks.len() == 0 || has_week(weeks, now.week)
            },
        };
        let match_day = match &self.day_of {
            None => true,
            Some(DayOf::Week(weekdays)) => has_weekday(weekdays, now.weekday),
            Some(DayOf::Month(days)) => has_day(days, now.day),
        };
        match_year && match_month && match_week && match_day
    }
}

/// A predicate without any field holds at every moment.
pub proof fn lemma_unconstrained_always_matches(now: Moment)
    ensures
        (TimeRangeView { day_of: None, week: None, month: None, year: None }).matches(now),
{
}

/// A predicate that names one day of the month, one month and one year
/// holds on that date and on no other.
pub proof fn lemma_single_date(day: u8, month: Month, year: i32, now: Moment)
    ensures
        (TimeRangeView {
            day_of: Some(DayOfView::Month(set![day])),
            week: None,
            month: Some(set![month]),
            year: Some(set![year]),
        }).matches(now) <==> (now.day == day && now.month == month.spec_number() && now.year
            == year),
{
    assert(set![month].contains(month));
    assert(set![year].contains(year));
}

impl ConditionView {
    /// The condition's result, given whether its command succeeded and
    /// whether its expression is true: the one that is configured, both
    /// combined where both are, and `false` where neither is.
    pub open spec fn verdict(self, shell_ok: bool, predicate_ok: bool) -> bool {
        match (self.shell, self.predicate) {
            (Some(_), None) => shell_ok,
            (None, Some(_)) => predicate_ok,
            (Some(_), Some(_)) => self.merge_strategy.spec_apply(shell_ok, predicate_ok),
            (None, None) => false,
        }
    }

    /// Whether the condition has an expression and the evaluator found it
    /// true. `value` is what the evaluator made of the expression: the
    /// boolean it evaluates to, or `None` where it gives none.
    pub open spec fn predicate_ok(self, value: Option<bool>) -> bool {
        self.predicate is Some && value == Some(true)
    }

    /// The condition's result, given whether its command succeeded and
    /// what the evaluator made of its expression.
    pub open spec fn holds(self, shell_ok: bool, value: Option<bool>) -> bool {
        self.verdict(shell_ok, self.predicate_ok(value))
    }

    /// What is known of the evaluator's answer before it is given: there
    /// is no answer without an expression, and the expression `true` is
    /// true.
    pub open spec fn answer_fits(self, value: Option<bool>) -> bool {
        &&& self.predicate is None ==> value is None
        &&& self.predicate == Some("true"@) ==> value == Some(true)
    }
}

impl RunCondition {
    /// Combines what the command and the expression gave. An argument for
    /// a part that the condition does not have is ignored.
    pub fn verdict(&self, shell_ok: bool, predicate_ok: bool) -> (b: bool)
        ensures
            b == self@.verdict(shell_ok, predicate_ok),
    {
        match (&self.shell, &self.predicate) {
            (Some(_), None) => shell_ok,
            (None, Some(_)) => predicate_ok,
            (Some(_), Some(_)) => self.merge_strategy.apply(shell_ok, predicate_ok),
            (None, None) => false,
        }
    }

    /// Whether the expression reads as true, given what the evaluator made
    /// of it; a condition without expression counts as not true.
    pub fn predicate_holds(&self, value: Option<bool>) -> (b: bool)
        ensures
            b == (self@.predicate is Some && value == Some(true)),
    {
        match (&self.predicate, value) {
            (Some(_), Some(true)) => true,
            _ => false,
        }
    }

    /// Asks the evaluator what it makes of the condition's expression on
    /// the day `now`; `None` where there is no expression or the
    /// expression gives no boolean.
    pub fn ask(&self, now: &Moment, week_start_day: Weekday) -> (value: Option<bool>)
        ensures
            self@.answer_fits(value),
    {
        match &self.predicate {
            Some(expression) => evaluate_predicate(expression.as_str(), now, week_start_day),
            None => None,
        }
    }

    /// The condition's result, given whether its command succeeded and
    /// what the evaluator made of its expression.
    pub fn holds(&self, shell_ok: bool, value: Option<bool>) -> (b: bool)
        ensures
            b == self@.holds(shell_ok, value),
    {
        self.verdict(shell_ok, self.predicate_holds(value))
    }

    /// Evaluates the condition at `now`. `shell_ok` says whether the
    /// condition's command, if it has one, was run and exited with success.
    /// The result is that of [`RunCondition::holds`] on the evaluator's
    /// answer; an expression that cannot be evaluated counts as false.
    pub fn evaluate(&self, now: &Moment, week_start_day: Weekday, shell_ok: bool) -> (b: bool)
        ensures
            exists|value: Option<bool>| #[trigger]
                self@.answer_fits(value) && b == self@.holds(shell_ok, value),
    {
        let value = self.ask(now, week_start_day);
        self.holds(shell_ok, value)
    }
}

/// The family of operating system that commands are started on.
#[derive(Debug, Clone, Copy, PartialEq, Eq, Structural)]
pub enum Platform {
    Posix,
    Windows,
}

impl Platform {
    /// The shell used where a command names none.
    pub open spec fn spec_shell(self) -> Seq<char> {
        match self {
            Platform::Posix => "sh"@,
            Platform::Windows => "cmd.exe"@,
        }
    }

    /// The flag that makes the default shell run its next argument.
    pub open spec fn spec_flag(self) -> Seq<char> {
        match self {
            Platform::Posix => "-c"@,
            Platform::Windows => "/C"@,
        }
    }

    /// The default shell and the flag that goes with it.
    pub fn shell(&self) -> (r: (String, String))
        ensures
            r.0@ == self.spec_shell(),
            r.1@ == self.spec_flag(),
    {
        match self {
            Platform::Posix => (String::from_str("sh"), String::from_str("-c")),
            Platform::Windows => (String::from_str("cmd.exe"), String::from_str("/C")),
        }
    }
}

/// A process to start: the program, its arguments in order, and the
/// variables to add to its environment.
#[derive(Debug, Clone, PartialEq, Eq)]
pub struct Invocation {
    pub program: String,
    pub arguments: Vec<String>,
    pub environment: Vec<(String, String)>,
}

/// The view of an [`Invocation`].
pub struct InvocationView {
    pub program: Seq<char>,
    pub arguments: Seq<Seq<char>>,
    pub environment: Seq<(Seq<char>, Seq<char>)>,
}

/// The views of a list of named values.
pub open spec fn bindings(v: Seq<(String, String)>) -> Seq<(Seq<char>, Seq<char>)> {
    Seq::new(v.len(), |i: int| (v[i].0@, v[i].1@))
}

impl View for Invocation {
    type V = InvocationView;

    open spec fn view(&self) -> InvocationView {
        InvocationView {
            program: self.program@,
            arguments: texts(self.arguments@),
            environment: bindings(self.environment@),
        }
    }
}

/// What a finished process left behind: whether it exited with success,
/// and the bytes it wrote to its standard output.
#[derive(Debug, Clone, PartialEq, Eq)]
pub struct Captured {
    pub success: bool,
    pub stdout: Vec<u8>,
}

/// The variables that every command finds in its environment: the weekday
/// by name, its distance from the start of the week, the day of the month,
/// the ISO week, the month and the year.
pub open spec fn environment(now: Moment, week_start_day: Weekday) -> Seq<(Seq<char>, Seq<char>)> {
    seq![
        ("DAY_OF_WEEK"@, now.weekday.spec_name()),
        ("DAY_IN_WEEK"@, decimal(now.weekday.spec_days_since(week_start_day))),
        ("DAY_OF_MONTH"@, decimal(now.day as int)),
        ("WEEK"@, decimal(now.week as int)),
        ("MONTH"@, decimal(now.month as int)),
        ("YEAR"@, decimal(now.year as int)),
    ]
}

/// `text` without its last character where that is a line feed.
pub open spec fn without_final_newline(text: Seq<char>) -> Seq<char> {
    if text.len() > 0 && text.last() == '\n' {
        text.drop_last()
    } else {
        text
    }
}

/// The text that a command's output stands for: the decoded output less
/// one final line feed, provided that the process succeeded or wrote
/// anything at all, and that what it wrote is well-formed UTF-8.
pub open spec fn command_text(success: bool, stdout: Seq<u8>) -> Option<Seq<char>> {
    if (success || stdout.len() > 0) && valid_utf8(stdout) {
        Some(without_final_newline(decode_utf8(stdout)))
    } else {
        None
    }
}

/// The text of a command that was started or not: nothing where it could
/// not be started.
pub open spec fn captured_text(output: Option<Captured>) -> Option<Seq<char>> {
    match output {
        Some(captured) => command_text(captured.success, captured.stdout@),
        None => None,
    }
}

impl CommandView {
    /// The process that runs this command at `now`.
    pub open spec fn invocation(self, now: Moment, week_start_day: Weekday, platform: Platform)
        -> InvocationView {
        InvocationView {
            program: match self.shell {
                Some(shell) => shell,
                None => platform.spec_shell(),
            },
            arguments: (match self.shell_flags {
                Some(flags) => flags,
                None => seq![platform.spec_flag()],
            }).push(self.run),
            environment: environment(now, week_start_day),
        }
    }
}

fn bind(variables: &mut Vec<(String, String)>, name: &str, value: String)
    ensures
        bindings(final(variables)@) == bindings(old(variables)@).push((name@, value@)),
{
    variables.push((String::from_str(name), value));
}

impl CustomCommand {
    /// Describes the process that runs this command: the configured shell,
    /// or the platform's; the configured flags, or the platform's one flag;
    /// then the command itself as the last argument; and the calendar
    /// variables of `now`.
    pub fn prepare(&self, now: &Moment, week_start_day: Weekday, platform: Platform) -> (r:
        Invocation)
        ensures
            r@ == self@.invocation(*now, week_start_day, platform),
    {
        let default = platform.shell();
        let program = match &self.shell {
            Some(shell) => shell.clone(),
            None => default.0,
        };
        let mut arguments: Vec<String> = match &self.shell_flags {
            Some(flags) => flags.clone(),
            None => {
                let mut only: Vec<String> = Vec::new();
                only.push(default.1);
                assert(texts(only@) =~= seq![platform.spec_flag()]);
                only
            },
        };
        let ghost flags = texts(arguments@);
        arguments.push(self.run.clone());
        assert(texts(arguments@) =~= flags.push(self.run@));
        let mut variables: Vec<(String, String)> = Vec::new();
        bind(&mut variables, "DAY_OF_WEEK", now.weekday.name());
        bind(
            &mut variables,
            "DAY_IN_WEEK",
            decimal_text(now.weekday.days_since(week_start_day) as i64),
        );
        bind(&mut variables, "DAY_OF_MONTH", decimal_text(now.day as i64));
        bind(&mut variables, "WEEK", decimal_text(now.week as i64));
        bind(&mut variables, "MONTH", decimal_text(now.month as i64));
        bind(&mut variables, "YEAR", decimal_text(now.year as i64));
        assert(bindings(variables@) =~= environment(*now, week_start_day));
        Invocation { program, arguments, environment: variables }
    }

    /// Turns what the command's process left behind into the rule's text.
    /// `output` is `None` where the process could not be started.
    pub fn run(output: Option<Captured>) -> (r: Option<String>)
        ensures
            opt_text(r) == captured_text(output),
    {
        match output {
            None => None,
            Some(captured) => {
                if captured.success || captured.stdout.len() > 0 {
                    match text_of_bytes(captured.stdout) {
                        None => None,
                        Some(text) => {
                            let n: usize = text.as_str().unicode_len();
                            if n > 0 && text.as_str().get_char(n - 1) == '\n' {
                                Some(String::from_str(text.as_str().substring_char(0, n - 1)))
                            } else {
                                Some(text)
                            }
                        },
                    }
                } else {
                    None
                }
            },
        }
    }

    /// Whether a command that was run for its exit status succeeded.
    /// `status` is `None` where the process could not be started.
    pub fn evaluate(status: Option<bool>) -> (b: bool)
        ensures
            b == (status == Some(true)),
    {
        match status {
            Some(success) => success,
            None => false,
        }
    }
}

/// At most one line feed is taken off the end of a command's output, and
/// nothing else.
pub proof fn lemma_one_newline_is_trimmed(text: Seq<char>)
    ensures
        without_final_newline(text.push('\n')) == text,
        text.len() == 0 || text.last() != '\n' ==> without_final_newline(text) == text,
{
}

/// What the caller saw when it ran the commands of one rule. A field for
/// a command that the rule does not have, or that was not run, is ignored;
/// `None` says that the process could not be started.
#[derive(Debug, Clone, PartialEq, Eq)]
pub struct Observed {
    /// Whether the condition's command exited with success.
    pub status: Option<bool>,
    /// What the message command left behind.
    pub output: Option<Captured>,
}

/// The first day of the week where none is configured is Sunday.
pub open spec fn week_start(configured: Option<Weekday>) -> Weekday {
    match configured {
        Some(day) => day,
        None => Weekday::Sun,
    }
}

impl RuleView {
    /// The rule's result, given whether its calendar predicate holds and
    /// whether its condition holds: the one that is configured, both
    /// combined where both are, and `false` where neither is.
    pub open spec fn verdict(self, time_ok: bool, condition_ok: bool) -> bool {
        match (self.time, self.condition) {
            (Some(_), None) => time_ok,
            (None, Some(_)) => condition_ok,
            (Some(_), Some(_)) => self.merge_strategy.spec_apply(time_ok, condition_ok),
            (None, None) => false,
        }
    }

    /// Whether the rule applies at `now`, given whether the command of its
    /// condition succeeded and what the evaluator made of the condition's
    /// expression.
    pub open spec fn applies(self, now: Moment, shell_ok: bool, value: Option<bool>) -> bool {
        self.verdict(
            self.time matches Some(time) && time.matches(now),
            self.condition matches Some(condition) && condition.holds(shell_ok, value),
        )
    }

    /// What is known of the evaluator's answer before it is given: there
    /// is no answer without an expression, and the expression `true` is
    /// true.
    pub open spec fn answer_fits(self, value: Option<bool>) -> bool {
        match self.condition {
            Some(condition) => condition.answer_fits(value),
            None => value is None,
        }
    }

    /// The rule is gated by the expression `true` and by nothing else.
    pub open spec fn is_always_on(self) -> bool {
        &&& self.time is None
        &&& self.condition matches Some(condition)
        &&& condition.shell is None
        &&& condition.predicate == Some("true"@)
    }

    /// Whether deciding the rule takes running the command of its
    /// condition.
    pub open spec fn has_probe(self) -> bool {
        self.condition matches Some(condition) && condition.shell is Some
    }

    /// What the rule says once it applies: the text of its command where
    /// it has one and the command gave a text, else its fixed message.
    pub open spec fn text(self, output: Option<Seq<char>>) -> Option<Seq<char>> {
        if self.command is Some && output is Some {
            output
        } else {
            self.message
        }
    }

    /// What the rule contributes at `now`: its text where it applies,
    /// nothing where it does not.
    pub open spec fn outcome(
        self,
        now: Moment,
        shell_ok: bool,
        value: Option<bool>,
        output: Option<Seq<char>>,
    ) -> Option<Seq<char>> {
        if self.applies(now, shell_ok, value) {
            self.text(output)
        } else {
            None
        }
    }
}

impl TimeRangeMessage {
    /// Combines what the calendar predicate and the condition gave. An
    /// argument for a part that the rule does not have is ignored.
    pub fn verdict(&self, time_ok: bool, condition_ok: bool) -> (b: bool)
        ensures
            b == self@.verdict(time_ok, condition_ok),
    {
        match (&self.time, &self.condition) {
            (Some(_), None) => time_ok,
            (None, Some(_)) => condition_ok,
            (Some(_), Some(_)) => self.merge_strategy.apply(time_ok, condition_ok),
            (None, None) => false,
        }
    }

    /// Asks the evaluator what it makes of the expression of the rule's
    /// condition on the day `now`; `None` where there is no expression or
    /// the expression gives no boolean.
    pub fn ask(&self, now: &Moment, week_start_day: Weekday) -> (value: Option<bool>)
        ensures
            self@.answer_fits(value),
    {
        match &self.condition {
            Some(condition) => condition.ask(now, week_start_day),
            None => None,
        }
    }

    /// Whether the rule applies at `now`, given whether the command of its
    /// condition succeeded and what the evaluator made of the condition's
    /// expression.
    pub fn applies(&self, now: &Moment, shell_ok: bool, value: Option<bool>) -> (b: bool)
        ensures
            b == self@.applies(*now, shell_ok, value),
    {
        let time_ok = match &self.time {
            Some(time) => time.evaluate(now),
            None => false,
        };
        let condition_ok = match &self.condition {
            Some(condition) => condition.holds(shell_ok, value),
            None => false,
        };
        self.verdict(time_ok, condition_ok)
    }

    /// Whether the rule applies at `now`. `shell_ok` says whether the
    /// command of the rule's condition, if it has one, exited with success.
    /// The result is that of [`TimeRangeMessage::applies`] on the
    /// evaluator's answer.
    pub fn evaluate(&self, now: &Moment, week_start_day: Weekday, shell_ok: bool) -> (b: bool)
        ensures
            exists|value: Option<bool>| #[trigger]
                self@.answer_fits(value) && b == self@.applies(*now, shell_ok, value),
            self@.is_always_on() ==> b,
    {
        let value = self.ask(now, week_start_day);
        self.applies(now, shell_ok, value)
    }

    /// The process that decides the rule's condition, where the condition
    /// has a command.
    pub fn probe(&self, now: &Moment, week_start_day: Weekday, platform: Platform) -> (r: Option<
        Invocation,
    >)
        ensures
            r is Some == self@.has_probe(),
            r matches Some(invocation) ==> invocation@ == self@.condition->0.shell->0.invocation(
                *now,
                week_start_day,
                platform,
            ),
    {
        match &self.condition {
            Some(condition) => match &condition.shell {
                Some(command) => Some(command.prepare(now, week_start_day, platform)),
                None => None,
            },
            None => None,
        }
    }

    /// The process that prints the rule's message, where the rule has a
    /// command.
    pub fn printer(&self, now: &Moment, week_start_day: Weekday, platform: Platform) -> (r:
        Option<Invocation>)
        ensures
            r is Some == self@.command is Some,
            r matches Some(invocation) ==> invocation@ == self@.command->0.invocation(
                *now,
                week_start_day,
                platform,
            ),
    {
        match &self.command {
            Some(command) => Some(command.prepare(now, week_start_day, platform)),
            None => None,
        }
    }

    /// What the rule says: the text that its command printed, or its fixed
    /// message where it has no command or the command gave no text.
    pub fn message(&self, output: Option<Captured>) -> (r: Option<String>)
        ensures
            opt_text(r) == self@.text(captured_text(output)),
    {
        match &self.command {
            None => copy_message(&self.message),
            Some(_) => match CustomCommand::run(output) {
                Some(text) => Some(text),
                None => copy_message(&self.message),
            },
        }
    }

    /// The rule's text at `now` where it applies, given what was observed
    /// of its commands and what the evaluator made of its expression.
    pub fn outcome(&self, now: &Moment, observed: Observed, value: Option<bool>) -> (r: Option<
        String,
    >)
        ensures
            opt_text(r) == self@.outcome(
                *now,
                observed.status == Some(true),
                value,
                captured_text(observed.output),
            ),
    {
        if self.applies(now, CustomCommand::evaluate(observed.status), value) {
            self.message(observed.output)
        } else {
            None
        }
    }

    /// Evaluates the rule at `now` and gives its text where it applies.
    /// Without a configured first day, the week starts on Sunday. The
    /// result is that of [`TimeRangeMessage::outcome`] on the evaluator's
    /// answer.
    pub fn try_with_datetime(
        &self,
        now: &Moment,
        week_start_day: Option<Weekday>,
        observed: Observed,
    ) -> (r: Option<String>)
        ensures
            exists|value: Option<bool>| #[trigger]
                self@.answer_fits(value) && opt_text(r) == self@.outcome(
                    *now,
                    observed.status == Some(true),
                    value,
                    captured_text(observed.output),
                ),
            self@.is_always_on() ==> opt_text(r) == self@.text(captured_text(observed.output)),
    {
        let week_start_day = match week_start_day {
            Some(day) => day,
            None => Weekday::Sun,
        };
        let value = self.ask(now, week_start_day);
        self.outcome(now, observed, value)
    }

    /// Evaluates the rule on the day that the caller's clock shows and
    /// gives its text where it applies. Where the clock shows no day of
    /// the calendar, no rule applies.
    pub fn try_message(
        &self,
        year: i32,
        month: u32,
        day: u32,
        week_start_day: Option<Weekday>,
        observed: Observed,
    ) -> (r: Option<String>)
        ensures
            match Moment::spec_from_ymd(year, month, day) {
                Some(now) => {
                    &&& exists|value: Option<bool>| #[trigger]
                        self@.answer_fits(value) && opt_text(r) == self@.outcome(
                            now,
                            observed.status == Some(true),
                            value,
                            captured_text(observed.output),
                        )
                    &&& self@.is_always_on() ==> opt_text(r) == self@.text(
                        captured_text(observed.output),
                    )
                },
                None => r is None,
            },
    {
        match Moment::from_ymd(year, month, day) {
            Some(now) => self.try_with_datetime(&now, week_start_day, observed),
            None => None,
        }
    }
}

fn copy_message(message: &Option<String>) -> (r: Option<String>)
    ensures
        opt_text(r) == opt_text(*message),
{
    match message {
        Some(text) => Some(text.clone()),
        None => None,
    }
}

/// A rule with neither a calendar predicate nor a condition never applies.
pub proof fn lemma_ungated_rule_never_applies(
    rule: RuleView,
    now: Moment,
    shell_ok: bool,
    value: Option<bool>,
    output: Option<Seq<char>>,
)
    requires
        rule.time is None,
        rule.condition is None,
    ensures
        !rule.applies(now, shell_ok, value),
        rule.outcome(now, shell_ok, value, output) is None,
{
}

/// A rule that is gated by a calendar predicate alone applies exactly when
/// the predicate holds, and then says its fixed message.
pub proof fn lemma_calendar_rule(
    rule: RuleView,
    now: Moment,
    shell_ok: bool,
    value: Option<bool>,
    output: Option<Seq<char>>,
)
    requires
        rule.time is Some,
        rule.condition is None,
        rule.command is None,
    ensures
        rule.outcome(now, shell_ok, value, output) == if rule.time->0.matches(now) {
            rule.message
        } else {
            None
        },
{
}

/// A rule that is gated by the expression `true` alone applies at every
/// moment, whatever its commands did, under every answer that the
/// evaluator can give to that expression.
pub proof fn lemma_true_applies_always(
    rule: RuleView,
    now: Moment,
    shell_ok: bool,
    value: Option<bool>,
    output: Option<Seq<char>>,
)
    requires
        rule.is_always_on(),
        rule.answer_fits(value),
    ensures
        rule.applies(now, shell_ok, value),
        rule.outcome(now, shell_ok, value, output) == rule.text(output),
{
}

/// A condition with a command and an expression combines the two results
/// with its strategy, whatever the expression is.
pub proof fn lemma_condition_combines(
    condition: ConditionView,
    shell_ok: bool,
    value: Option<bool>,
)
    requires
        condition.shell is Some,
        condition.predicate is Some,
    ensures
        condition.holds(shell_ok, value) == condition.merge_strategy.spec_apply(
            shell_ok,
            value == Some(true),
        ),
{
}

} // verus!
