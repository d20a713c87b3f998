//! Running a configuration to its final text, one command at a time.
//!
//! Deciding a rule may take the exit status of a command, and its text may
//! be what another command prints. A [`Resolution`] walks the rules in
//! order and says which process it needs run next; the caller runs it and
//! hands back what it saw. No command is asked for unless its rule needs
//! it: a message command only once its rule is known to apply. The
//! expressions of the rules are evaluated once, when the resolution
//! starts; what the evaluator made of them is part of its view.

use crate::calendar::{Moment, Weekday};
use crate::config::{Config, ConfigView, CustomCommand, RuleView};
use crate::text::texts;
use crate::time::{captured_text, week_start, Captured, Invocation, Platform};
use crate::{output_of, selected};
use vstd::prelude::*;

verus! {

/// What a resolution is waiting for.
#[derive(Debug, Clone, Copy, PartialEq, Eq, Structural)]
pub enum Stage {
    /// Nothing: every rule is decided.
    Nothing,
    /// The exit status of the command of the current rule's condition.
    Status,
    /// The output of the current rule's message command.
    Output,
}

/// What the caller is asked to do next.
#[derive(Debug, Clone, PartialEq, Eq)]
pub enum Request {
    /// Run the process and report whether it exited with success.
    Status(Invocation),
    /// Run the process and report its exit status and standard output.
    Output(Invocation),
    /// Nothing is left to run.
    Finished,
}

/// What was observed for one rule: whether the command of its condition
/// succeeded, what the evaluator made of its expression, and the text that
/// its message command gave. For a command that was not run the first and
/// the last are `false` and `None`.
pub struct Observation {
    pub shell_ok: bool,
    pub value: Option<bool>,
    pub output: Option<Seq<char>>,
}

/// The texts of the rules that apply, in the order of the rules, where
/// `seen` holds what was observed for each rule.
pub open spec fn collected(rules: Seq<RuleView>, now: Moment, seen: Seq<Observation>) -> Seq<
    Seq<char>,
>
    decreases rules.len(),
{
    if rules.len() == 0 {
        Seq::empty()
    } else {
        let earlier = collected(rules.drop_last(), now, seen.drop_last());
        match rules.last().outcome(
            now,
            seen.last().shell_ok,
            seen.last().value,
            seen.last().output,
        ) {
            Some(text) => earlier.push(text),
            None => earlier,
        }
    }
}

/// The view of a [`Resolution`]: where it stands among the rules, what
/// it waits for, and what it has gathered.
pub struct ResolutionView {
    pub config: ConfigView,
    pub now: Moment,
    pub platform: Platform,
    /// What the evaluator made of the expression of each rule.
    pub answers: Seq<Option<bool>>,
    /// The rule that is being decided; all rules before it are decided.
    pub index: int,
    pub stage: Stage,
    /// While the output of the current rule is awaited: whether the
    /// command of its condition succeeded.
    pub shell_ok: bool,
    /// The texts of the decided rules that apply.
    pub outputs: Seq<Seq<char>>,
    /// What was observed for each decided rule.
    pub seen: Seq<Observation>,
}

impl ResolutionView {
    /// The resolution before any rule is decided.
    pub open spec fn initial(
        config: ConfigView,
        now: Moment,
        platform: Platform,
        answers: Seq<Option<bool>>,
    ) -> ResolutionView {
        ResolutionView {
            config,
            now,
            platform,
            answers,
            index: 0,
            stage: Stage::Nothing,
            shell_ok: false,
            outputs: Seq::empty(),
            seen: Seq::empty(),
        }
    }

    /// The first day of the week that the configuration asks for.
    pub open spec fn week_start_day(self) -> Weekday {
        week_start(self.config.week_start_day)
    }

    /// The rule that is being decided.
    pub open spec fn current(self) -> RuleView {
        self.config.dates[self.index]
    }

    /// What the evaluator made of the expression of the rule that is
    /// being decided.
    pub open spec fn answer(self) -> Option<bool> {
        self.answers[self.index]
    }

    /// There is an answer for each rule, and each is one that the
    /// evaluator can give to the rule's expression.
    pub open spec fn answers_fit(self) -> bool {
        &&& self.answers.len() == self.config.dates.len()
        &&& forall|i: int|
            0 <= i < self.answers.len() ==> self.config.dates[i].answer_fits(
                #[trigger] self.answers[i],
            )
    }

    /// The decided rules are accounted for, and what is awaited is what
    /// the current rule needs.
    pub open spec fn inv(self) -> bool {
        &&& 0 <= self.index <= self.config.dates.len()
        &&& self.answers_fit()
        &&& self.seen.len() == self.index
        &&& forall|i: int|
            0 <= i < self.index ==> (#[trigger] self.seen[i]).value == self.answers[i]
        &&& self.outputs == collected(self.config.dates.take(self.index), self.now, self.seen)
        &&& self.stage == Stage::Status ==> self.index < self.config.dates.len()
            && self.current().has_probe()
        &&& self.stage == Stage::Output ==> self.index < self.config.dates.len()
            && self.current().command is Some && self.current().applies(
            self.now,
            self.shell_ok,
            self.answer(),
        )
    }

    /// Either a command is awaited or every rule is decided.
    pub open spec fn at_rest(self) -> bool {
        self.stage != Stage::Nothing || self.index >= self.config.dates.len()
    }

    /// Every rule is decided.
    pub open spec fn finished(self) -> bool {
        self.stage == Stage::Nothing && self.index >= self.config.dates.len()
    }

    /// The current rule is decided with the given observation: its text,
    /// if it applies, joins the outputs, and the next rule becomes current.
    pub open spec fn concluded(self, shell_ok: bool, output: Option<Seq<char>>) -> ResolutionView {
        ResolutionView {
            index: self.index + 1,
            stage: Stage::Nothing,
            shell_ok: false,
            outputs: match self.current().outcome(self.now, shell_ok, self.answer(), output) {
                Some(text) => self.outputs.push(text),
                None => self.outputs,
            },
            seen: self.seen.push(Observation { shell_ok, value: self.answer(), output }),
            ..self
        }
    }

    /// The current rule's condition is settled. Where the rule applies and
    /// has a message command, the command's output is awaited; else the
    /// rule is decided without one.
    pub open spec fn judged(self, shell_ok: bool) -> ResolutionView {
        if self.current().command is Some && self.current().applies(
            self.now,
            shell_ok,
            self.answer(),
        ) {
            ResolutionView { stage: Stage::Output, shell_ok, ..self }
        } else {
            self.concluded(shell_ok, None)
        }
    }

    /// Rules are decided in order for as long as none needs a command.
    pub open spec fn settled(self) -> ResolutionView
        decreases self.config.dates.len() - self.index,
    {
        if self.at_rest() {
            self
        } else if self.current().has_probe() {
            ResolutionView { stage: Stage::Status, ..self }
        } else {
            let next = self.judged(false);
            if next.stage != Stage::Nothing {
                next
            } else {
                next.settled()
            }
        }
    }

    /// The awaited exit status has arrived.
    pub open spec fn after_status(self, shell_ok: bool) -> ResolutionView {
        if self.stage == Stage::Status {
            self.judged(shell_ok).settled()
        } else {
            self
        }
    }

    /// The awaited output has arrived.
    pub open spec fn after_output(self, output: Option<Seq<char>>) -> ResolutionView {
        if self.stage == Stage::Output {
            self.concluded(self.shell_ok, output).settled()
        } else {
            self
        }
    }
}

/// Deciding the current rule keeps the account of the decided rules.
pub proof fn lemma_concluded_keeps_inv(r: ResolutionView, shell_ok: bool, output: Option<Seq<char>>)
    requires
        r.inv(),
        r.index < r.config.dates.len(),
    ensures
        r.concluded(shell_ok, output).inv(),
{
    let after = r.concluded(shell_ok, output);
    let rules = r.config.dates.take(after.index);
    assert(rules.drop_last() =~= r.config.dates.take(r.index));
    assert(after.seen.drop_last() =~= r.seen);
}

/// Settling keeps the account of the decided rules and comes to rest.
pub proof fn lemma_settled_keeps_inv(r: ResolutionView)
    requires
        r.inv(),
    ensures
        r.settled().inv(),
        r.settled().at_rest(),
        r.settled().config == r.config,
        r.settled().now == r.now,
        r.settled().platform == r.platform,
        r.settled().answers == r.answers,
    decreases r.config.dates.len() - r.index,
{
    if r.at_rest() {
    } else if r.current().has_probe() {
    } else {
        let next = r.judged(false);
        if next.stage != Stage::Nothing {
        } else {
            lemma_concluded_keeps_inv(r, false, None);
            lemma_settled_keeps_inv(next);
        }
    }
}

/// Once every rule is decided, the outputs are the texts of the rules that
/// apply, each judged by what was observed for it.
pub proof fn lemma_finished_outputs(r: ResolutionView)
    requires
        r.inv(),
        r.finished(),
    ensures
        r.seen.len() == r.config.dates.len(),
        r.outputs == collected(r.config.dates, r.now, r.seen),
        forall|i: int| 0 <= i < r.seen.len() ==> (#[trigger] r.seen[i]).value == r.answers[i],
{
    assert(r.config.dates.take(r.index) =~= r.config.dates);
}

/// A resolution in progress.
pub struct Resolution {
    config: Config,
    now: Moment,
    platform: Platform,
    answers: Vec<Option<bool>>,
    index: usize,
    stage: Stage,
    shell_ok: bool,
    outputs: Vec<String>,
    seen: Ghost<Seq<Observation>>,
}

impl View for Resolution {
    type V = ResolutionView;

    closed spec fn view(&self) -> ResolutionView {
        ResolutionView {
            config: self.config@,
            now: self.now,
            platform: self.platform,
            answers: self.answers@,
            index: self.index as int,
            stage: self.stage,
            shell_ok: self.shell_ok,
            outputs: texts(self.outputs@),
            seen: self.seen@,
        }
    }
}

impl Resolution {
    /// The resolution is consistent and waits for a command or is finished.
    pub open spec fn wf(self) -> bool {
        self@.inv() && self@.at_rest()
    }

    fn week_start_day(&self) -> (day: Weekday)
        ensures
            day == self@.week_start_day(),
    {
        match self.config.week_start_day {
            Some(day) => day,
            None => Weekday::Sun,
        }
    }

    fn conclude(&mut self, shell_ok: bool, applies: bool, output: Option<Captured>)
        requires
            old(self)@.inv(),
            old(self).index < old(self).config.dates.len(),
            applies == old(self)@.current().applies(
                old(self).now,
                shell_ok,
                old(self)@.answer(),
            ),
        ensures
            final(self)@ == old(self)@.concluded(shell_ok, captured_text(output)),
            final(self)@.inv(),
    {
        proof {
            lemma_concluded_keeps_inv(self@, shell_ok, captured_text(output));
        }
        let ghost before = texts(self.outputs@);
        if applies {
            match self.config.dates[self.index].message(output) {
                Some(text) => {
                    self.outputs.push(text);
                    assert(texts(self.outputs@) =~= before.push(text@));
                },
                None => {},
            }
        }
        self.seen = Ghost(
            self.seen@.push(
                Observation {
                    shell_ok,
                    value: self.answers@[self.index as int],
                    output: captured_text(output),
                },
            ),
        );
        self.index = self.index + 1;
        self.stage = Stage::Nothing;
        self.shell_ok = false;
    }

    fn judge(&mut self, shell_ok: bool)
        requires
            old(self)@.inv(),
            old(self).index < old(self).config.dates.len(),
        ensures
            final(self)@ == old(self)@.judged(shell_ok),
            final(self)@.inv(),
    {
        let value = self.answers[self.index];
        let applies = self.config.dates[self.index].applies(&self.now, shell_ok, value);
        if applies && self.config.dates[self.index].command.is_some() {
            self.stage = Stage::Output;
            self.shell_ok = shell_ok;
        } else {
            self.conclude(shell_ok, applies, None);
        }
    }

    fn settle(&mut self)
        requires
            old(self)@.inv(),
        ensures
            final(self)@ == old(self)@.settled(),
            final(self).wf(),
    {
        while self.stage == Stage::Nothing && self.index < self.config.dates.len()
            invariant
                self@.inv(),
                self@.settled() == old(self)@.settled(),
            decreases
                self@.config.dates.len() - self@.index,
                (if self@.stage == Stage::Nothing {
                    1int
                } else {
                    0int
                }),
        {
            let has_probe = match &self.config.dates[self.index].condition {
                Some(condition) => condition.shell.is_some(),
                None => false,
            };
            if has_probe {
                self.stage = Stage::Status;
            } else {
                self.judge(false);
            }
        }
    }

    /// Begins to resolve `config` at `now`: has the expression of every
    /// rule evaluated, and decides every rule up to the first that needs a
    /// command.
    pub fn start(config: Config, now: Moment, platform: Platform) -> (r: Resolution)
        ensures
            r.wf(),
            r@ == ResolutionView::initial(config@, now, platform, r@.answers).settled(),
    {
        let day = match config.week_start_day {
            Some(day) => day,
            None => Weekday::Sun,
        };
        let mut answers: Vec<Option<bool>> = Vec::new();
        let mut i: usize = 0;
        while i < config.dates.len()
            invariant
                i <= config.dates.len(),
                answers.len() == i,
                forall|j: int| 0 <= j < i ==> config.dates[j]@.answer_fits(#[trigger] answers[j]),
            decreases config.dates.len() - i,
        {
            answers.push(config.dates[i].ask(&now, day));
            i += 1;
        }
        let mut r = Resolution {
            config,
            now,
            platform,
            answers,
            index: 0,
            stage: Stage::Nothing,
            shell_ok: false,
            outputs: Vec::new(),
            seen: Ghost(Seq::empty()),
        };
        assert(r@.outputs =~= Seq::empty());
        proof {
            lemma_settled_keeps_inv(r@);
        }
        r.settle();
        r
    }

    /// What the resolution is waiting for.
    pub fn stage(&self) -> (s: Stage)
        ensures
            s == self@.stage,
    {
        self.stage
    }

    /// The process to run next, with what is wanted of it.
    pub fn request(&self) -> (r: Request)
        requires
            self.wf(),
        ensures
            match self@.stage {
                Stage::Nothing => r is Finished,
                Stage::Status => r matches Request::Status(invocation) && invocation@
                    == self@.current().condition->0.shell->0.invocation(
                    self@.now,
                    self@.week_start_day(),
                    self@.platform,
                ),
                Stage::Output => r matches Request::Output(invocation) && invocation@
                    == self@.current().command->0.invocation(
                    self@.now,
                    self@.week_start_day(),
                    self@.platform,
                ),
            },
    {
        let day = self.week_start_day();
        match self.stage {
            Stage::Nothing => Request::Finished,
            Stage::Status => Request::Status(
                self.config.dates[self.index].probe(&self.now, day, self.platform).unwrap(),
            ),
            Stage::Output => Request::Output(
                self.config.dates[self.index].printer(&self.now, day, self.platform).unwrap(),
            ),
        }
    }

    /// Hands over the exit status that was asked for: `Some(true)` for
    /// success, `None` where the process could not be started. Does
    /// nothing where no exit status is awaited.
    pub fn supply_status(&mut self, status: Option<bool>)
        requires
            old(self).wf(),
        ensures
            final(self).wf(),
            final(self)@ == old(self)@.after_status(status == Some(true)),
    {
        if self.stage == Stage::Status {
            self.judge(CustomCommand::evaluate(status));
            self.settle();
        }
    }

    /// Hands over the output that was asked for, `None` where the process
    /// could not be started. Does nothing where no output is awaited.
    pub fn supply_output(&mut self, output: Option<Captured>)
        requires
            old(self).wf(),
        ensures
            final(self).wf(),
            final(self)@ == old(self)@.after_output(captured_text(output)),
    {
        if self.stage == Stage::Output {
            let shell_ok = self.shell_ok;
            self.conclude(shell_ok, true, output);
            self.settle();
        }
    }

    /// The final text, once every rule is decided: the configured policy
    /// applied to the texts of the rules that apply.
    pub fn finish(&self) -> (r: Option<String>)
        requires
            self.wf(),
        ensures
            r is Some == self@.finished(),
            r matches Some(text) ==> exists|pick: int|
                0 <= pick && (self@.outputs.len() > 0 ==> pick < self@.outputs.len()) && text@
                    == #[trigger] selected(self@.config.multiple_behavior, self@.outputs, pick),
            r is Some ==> self@.outputs == collected(self@.config.dates, self@.now, self@.seen),
    {
        if self.stage == Stage::Nothing {
            proof {
                lemma_finished_outputs(self@);
            }
            Some(output_of(&self.config, &self.outputs))
        } else {
            None
        }
    }
}

} // verus!
