//! The configuration document: rules, their predicates and the options that
//! govern how matching rules are combined.
//!
//! Every type has a view, a plain mathematical value that the contracts of
//! the library speak of. Sets of days, weeks, months and years are kept as
//! lists in the order of the document; their views are sets.

use crate::calendar::{Month, Weekday};
use crate::text::{ascii_lower, opt_text, same_text, texts, to_ascii_lower};
use vstd::prelude::*;

verus! {

/// Name of the environment variable that overrides the document's location.
pub const CONFIG_VAR: &'static str = "OCCASION_CONFIG";

/// File name of the document inside the platform's configuration directory.
pub const CONFIG_FILE_NAME: &'static str = "occasions.json";

/// Address of the published schema that a generated document points at.
pub const SCHEMA: &'static str =
    "https://raw.githubusercontent.com/itscrystalline/occasion/refs/heads/main/occasions.schema.json";

/// How two truth values are combined into one.
#[derive(Debug, Clone, Copy, PartialEq, Eq, Hash, Structural)]
pub enum MergeStrategy {
    AND,
    OR,
    XOR,
    NAND,
    NOR,
}

/// The spellings of the strategies, in lower case.
pub open spec fn aliases() -> Seq<(Seq<char>, MergeStrategy)> {
    seq![
        ("and"@, MergeStrategy::AND),
        ("both"@, MergeStrategy::AND),
        ("&"@, MergeStrategy::AND),
        ("or"@, MergeStrategy::OR),
        ("any"@, MergeStrategy::OR),
        ("|"@, MergeStrategy::OR),
        ("xor"@, MergeStrategy::XOR),
        ("either"@, MergeStrategy::XOR),
        ("^"@, MergeStrategy::XOR),
        ("nand"@, MergeStrategy::NAND),
        ("nor"@, MergeStrategy::NOR),
        ("neither"@, MergeStrategy::NOR),
    ]
}

/// The strategy of the first of the first `upto` entries of `table` that
/// is spelled `name`.
pub open spec fn lookup(table: Seq<(Seq<char>, MergeStrategy)>, name: Seq<char>, upto: int)
    -> Option<MergeStrategy>
    decreases upto,
{
    if upto <= 0 {
        None
    } else {
        match lookup(table, name, upto - 1) {
            Some(found) => Some(found),
            None => if table[upto - 1].0 == name {
                Some(table[upto - 1].1)
            } else {
                None
            },
        }
    }
}

impl MergeStrategy {
    /// The strategy that a spelling names, compared without regard to the
    /// case of ASCII letters; `None` for a spelling that names none.
    pub open spec fn spec_from_alias(alias: Seq<char>) -> Option<MergeStrategy> {
        lookup(aliases(), ascii_lower(alias), aliases().len() as int)
    }

    /// Reads a strategy from one of its spellings.
    pub fn from_alias(alias: &str) -> (r: Option<MergeStrategy>)
        ensures
            r == MergeStrategy::spec_from_alias(alias@),
    {
        let table: [(&str, MergeStrategy); 12] = [
            ("and", MergeStrategy::AND),
            ("both", MergeStrategy::AND),
            ("&", MergeStrategy::AND),
            ("or", MergeStrategy::OR),
            ("any", MergeStrategy::OR),
            ("|", MergeStrategy::OR),
            ("xor", MergeStrategy::XOR),
            ("either", MergeStrategy::XOR),
            ("^", MergeStrategy::XOR),
            ("nand", MergeStrategy::NAND),
            ("nor", MergeStrategy::NOR),
            ("neither", MergeStrategy::NOR),
        ];
        let ghost spellings = Seq::new(12, |i: int| (table@[i].0@, table@[i].1));
        let lowered = to_ascii_lower(alias);
        let mut i: usize = 0;
        while i < 12
            invariant
                i <= 12,
                lowered@ == ascii_lower(alias@),
                spellings == aliases(),
                spellings == Seq::new(12, |i: int| (table@[i].0@, table@[i].1)),
                lookup(aliases(), lowered@, i as int) is None,
            decreases 12 - i,
        {
            if same_text(lowered.as_str(), table[i].0) {
                proof {
                    lemma_lookup_keeps_first(aliases(), lowered@, i + 1, 12);
                }
                return Some(table[i].1);
            }
            i += 1;
        }
        None
    }
}

/// Once an entry is found, later entries do not change the answer.
pub proof fn lemma_lookup_keeps_first(
    table: Seq<(Seq<char>, MergeStrategy)>,
    name: Seq<char>,
    found: int,
    upto: int,
)
    requires
        0 <= found <= upto,
        lookup(table, name, found) is Some,
    ensures
        lookup(table, name, upto) == lookup(table, name, found),
    decreases upto - found,
{
    if found < upto {
        lemma_lookup_keeps_first(table, name, found, upto - 1);
    }
}

impl Default for MergeStrategy {
    fn default() -> (r: MergeStrategy)
        ensures
            r == MergeStrategy::OR,
    {
        MergeStrategy::OR
    }
}

/// An external command: what to run, and the shell to run it with.
#[derive(Debug, Default, PartialEq, Eq, Clone)]
pub struct CustomCommand {
    pub run: String,
    pub shell: Option<String>,
    pub shell_flags: Option<Vec<String>>,
}

/// The view of a [`CustomCommand`].
pub struct CommandView {
    pub run: Seq<char>,
    pub shell: Option<Seq<char>>,
    pub shell_flags: Option<Seq<Seq<char>>>,
}

impl View for CustomCommand {
    type V = CommandView;

    open spec fn view(&self) -> CommandView {
        CommandView {
            run: self.run@,
            shell: opt_text(self.shell),
            shell_flags: match self.shell_flags {
                Some(flags) => Some(texts(flags@)),
                None => None,
            },
        }
    }
}

/// A dynamic predicate: a command's exit status, a boolean expression, or
/// both.
#[derive(Debug, Default, PartialEq, Eq, Clone)]
pub struct RunCondition {
    pub shell: Option<CustomCommand>,
    pub predicate: Option<String>,
    pub merge_strategy: MergeStrategy,
}

/// The view of a [`RunCondition`].
pub struct ConditionView {
    pub shell: Option<CommandView>,
    pub predicate: Option<Seq<char>>,
    pub merge_strategy: MergeStrategy,
}

impl View for RunCondition {
    type V = ConditionView;

    open spec fn view(&self) -> ConditionView {
        ConditionView {
            shell: match self.shell {
                Some(command) => Some(command@),
                None => None,
            },
            predicate: opt_text(self.predicate),
            merge_strategy: self.merge_strategy,
        }
    }
}

/// The days a rule applies on: days of the week or days of the month,
/// never both.
#[derive(Debug, PartialEq, Eq, Clone)]
pub enum DayOf {
    Week(Vec<Weekday>),
    Month(Vec<u8>),
}

/// The view of a [`DayOf`]: the days as a set.
pub enum DayOfView {
    Week(Set<Weekday>),
    Month(Set<u8>),
}

impl View for DayOf {
    type V = DayOfView;

    open spec fn view(&self) -> DayOfView {
        match self {
            DayOf::Week(days) => DayOfView::Week(days@.to_set()),
            DayOf::Month(days) => DayOfView::Month(days@.to_set()),
        }
    }
}

/// A calendar predicate. An absent field constrains nothing.
#[derive(Debug, Default, PartialEq, Eq, Clone)]
pub struct TimeRange {
    pub day_of: Option<DayOf>,
    pub week: Option<Vec<u32>>,
    pub month: Option<Vec<Month>>,
    pub year: Option<Vec<i32>>,
}

/// The view of a [`TimeRange`]: each list as the set of its members.
pub struct TimeRangeView {
    pub day_of: Option<DayOfView>,
    pub week: Option<Set<u32>>,
    pub month: Option<Set<Month>>,
    pub year: Option<Set<i32>>,
}

impl View for TimeRange {
    type V = TimeRangeView;

    open spec fn view(&self) -> TimeRangeView {
        TimeRangeView {
            day_of: match self.day_of {
                Some(d) => Some(d@),
                None => None,
            },
            week: match self.week {
                Some(v) => Some(v@.to_set()),
                None => None,
            },
            month: match self.month {
                Some(v) => Some(v@.to_set()),
                None => None,
            },
            year: match self.year {
                Some(v) => Some(v@.to_set()),
                None => None,
            },
        }
    }
}

/// One rule: a message, or a command that prints one, gated by a calendar
/// predicate, a dynamic condition, or both.
#[derive(Debug, Default, PartialEq, Eq, Clone)]
pub struct TimeRangeMessage {
    pub message: Option<String>,
    pub command: Option<CustomCommand>,
    pub time: Option<TimeRange>,
    pub condition: Option<RunCondition>,
    pub merge_strategy: MergeStrategy,
}

/// The view of a [`TimeRangeMessage`].
pub struct RuleView {
    pub message: Option<Seq<char>>,
    pub command: Option<CommandView>,
    pub time: Option<TimeRangeView>,
    pub condition: Option<ConditionView>,
    pub merge_strategy: MergeStrategy,
}

impl View for TimeRangeMessage {
    type V = RuleView;

    open spec fn view(&self) -> RuleView {
        RuleView {
            message: opt_text(self.message),
            command: match self.command {
                Some(c) => Some(c@),
                None => None,
            },
            time: match self.time {
                Some(t) => Some(t@),
                None => None,
            },
            condition: match self.condition {
                Some(c) => Some(c@),
                None => None,
            },
            merge_strategy: self.merge_strategy,
        }
    }
}

/// What to print when several rules match at once.
#[derive(Debug, PartialEq, Eq, Clone)]
pub enum MultipleBehavior {
    First,
    Last,
    All { seperator: String },
    Random,
}

/// The view of a [`MultipleBehavior`].
pub enum BehaviorView {
    First,
    Last,
    All { seperator: Seq<char> },
    Random,
}

impl View for MultipleBehavior {
    type V = BehaviorView;

    open spec fn view(&self) -> BehaviorView {
        match self {
            MultipleBehavior::First => BehaviorView::First,
            MultipleBehavior::Last => BehaviorView::Last,
            MultipleBehavior::All { seperator } => BehaviorView::All { seperator: seperator@ },
            MultipleBehavior::Random => BehaviorView::Random,
        }
    }
}

impl Default for MultipleBehavior {
    fn default() -> (r: MultipleBehavior)
        ensures
            r@ == (BehaviorView::All { seperator: Seq::<char>::empty() }),
    {
        MultipleBehavior::All { seperator: String::new() }
    }
}

/// One configuration document.
#[derive(Debug, PartialEq, Eq, Clone)]
pub struct Config {
    pub dates: Vec<TimeRangeMessage>,
    pub multiple_behavior: Option<MultipleBehavior>,
    pub week_start_day: Option<Weekday>,
    pub imports: Vec<String>,
}

/// The view of a [`Config`].
pub struct ConfigView {
    pub dates: Seq<RuleView>,
    pub multiple_behavior: Option<BehaviorView>,
    pub week_start_day: Option<Weekday>,
    pub imports: Seq<Seq<char>>,
}

/// The views of a list of rules.
pub open spec fn rule_views(rules: Seq<TimeRangeMessage>) -> Seq<RuleView> {
    Seq::new(rules.len(), |i: int| rules[i]@)
}

impl View for Config {
    type V = ConfigView;

    open spec fn view(&self) -> ConfigView {
        ConfigView {
            dates: rule_views(self.dates@),
            multiple_behavior: match self.multiple_behavior {
                Some(b) => Some(b@),
                None => None,
            },
            week_start_day: self.week_start_day,
            imports: texts(self.imports@),
        }
    }
}

impl Default for Config {
    /// The empty document: no rules, no options, no imports.
    fn default() -> (r: Config)
        ensures
            r@ == ConfigView::empty(),
    {
        let r = Config {
            dates: Vec::new(),
            multiple_behavior: None,
            week_start_day: None,
            imports: Vec::new(),
        };
        assert(r@.dates =~= Seq::empty());
        assert(r@.imports =~= Seq::empty());
        r
    }
}

impl ConfigView {
    /// The document without rules, options and imports.
    pub open spec fn empty() -> ConfigView {
        ConfigView {
            dates: Seq::empty(),
            multiple_behavior: None,
            week_start_day: None,
            imports: Seq::empty(),
        }
    }

    /// `self` with the rules of `other` appended and the options of `other`
    /// filling in where `self` has none. The import list of `self` stays.
    pub open spec fn merge(self, other: ConfigView) -> ConfigView {
        ConfigView {
            dates: self.dates + other.dates,
            multiple_behavior: if self.multiple_behavior is Some {
                self.multiple_behavior
            } else {
                other.multiple_behavior
            },
            week_start_day: if self.week_start_day is Some {
                self.week_start_day
            } else {
                other.week_start_day
            },
            imports: self.imports,
        }
    }
}

fn copy_opt_text(o: &Option<String>) -> (r: Option<String>)
    ensures
        opt_text(r) == opt_text(*o),
{
    match o {
        Some(s) => Some(s.clone()),
        None => None,
    }
}

impl CustomCommand {
    /// A copy with the same view.
    pub fn duplicate(&self) -> (r: CustomCommand)
        ensures
            r@ == self@,
    {
        CustomCommand {
            run: self.run.clone(),
            shell: copy_opt_text(&self.shell),
            shell_flags: match &self.shell_flags {
                Some(flags) => Some(flags.clone()),
                None => None,
            },
        }
    }
}

impl RunCondition {
    /// A copy with the same view.
    pub fn duplicate(&self) -> (r: RunCondition)
        ensures
            r@ == self@,
    {
        RunCondition {
            shell: match &self.shell {
                Some(c) => Some(c.duplicate()),
                None => None,
            },
            predicate: copy_opt_text(&self.predicate),
            merge_strategy: self.merge_strategy,
        }
    }
}

impl DayOf {
    /// A copy with the same view.
    pub fn duplicate(&self) -> (r: DayOf)
        ensures
            r@ == self@,
    {
        match self {
            DayOf::Week(days) => DayOf::Week(days.clone()),
            DayOf::Month(days) => DayOf::Month(days.clone()),
        }
    }
}

impl TimeRange {
    /// A copy with the same view.
    pub fn duplicate(&self) -> (r: TimeRange)
        ensures
            r@ == self@,
    {
        TimeRange {
            day_of: match &self.day_of {
                Some(d) => Some(d.duplicate()),
                None => None,
            },
            week: match &self.week {
                Some(v) => Some(v.clone()),
                None => None,
            },
            month: match &self.month {
                Some(v) => Some(v.clone()),
                None => None,
            },
            year: match &self.year {
                Some(v) => Some(v.clone()),
                None => None,
            },
        }
    }
}

impl TimeRangeMessage {
    /// A copy with the same view.
    pub fn duplicate(&self) -> (r: TimeRangeMessage)
        ensures
            r@ == self@,
    {
        TimeRangeMessage {
            message: copy_opt_text(&self.message),
            command: match &self.command {
                Some(c) => Some(c.duplicate()),
                None => None,
            },
            time: match &self.time {
                Some(t) => Some(t.duplicate()),
                None => None,
            },
            condition: match &self.condition {
                Some(c) => Some(c.duplicate()),
                None => None,
            },
            merge_strategy: self.merge_strategy,
        }
    }
}

impl MultipleBehavior {
    /// A copy with the same view.
    pub fn duplicate(&self) -> (r: MultipleBehavior)
        ensures
            r@ == self@,
    {
        match self {
            MultipleBehavior::First => MultipleBehavior::First,
            MultipleBehavior::Last => MultipleBehavior::Last,
            MultipleBehavior::All { seperator } => MultipleBehavior::All {
                seperator: seperator.clone(),
            },
            MultipleBehavior::Random => MultipleBehavior::Random,
        }
    }
}

impl Config {
    /// A copy with the same view.
    pub fn duplicate(&self) -> (r: Config)
        ensures
            r@ == self@,
    {
        let mut dates: Vec<TimeRangeMessage> = Vec::new();
        let mut i: usize = 0;
        while i < self.dates.len()
            invariant
                i <= self.dates.len(),
                dates.len() == i,
                forall|j: int| 0 <= j < i ==> dates[j]@ == self.dates[j]@,
            decreases self.dates.len() - i,
        {
            dates.push(self.dates[i].duplicate());
            i += 1;
        }
        assert(rule_views(dates@) =~= rule_views(self.dates@));
        Config {
            dates,
            multiple_behavior: match &self.multiple_behavior {
                Some(b) => Some(b.duplicate()),
                None => None,
            },
            week_start_day: self.week_start_day,
            imports: self.imports.clone(),
        }
    }

    /// Takes `other` into `self`: its rules are appended after the rules
    /// already present, and each option of `other` is adopted only where
    /// `self` has none. The import list of `self` is left as it is.
    pub fn merge(&mut self, other: Config)
        ensures
            final(self)@ == old(self)@.merge(other@),
    {
        let mut incoming = other.dates;
        let ghost before = self.dates@;
        let ghost added = incoming@;
        self.dates.append(&mut incoming);
        assert(rule_views(self.dates@) =~= rule_views(before) + rule_views(added));
        if self.multiple_behavior.is_none() {
            self.multiple_behavior = other.multiple_behavior;
        }
        if self.week_start_day.is_none() {
            self.week_start_day = other.week_start_day;
        }
    }
}

} // verus!
