//! The pipeline for one statement: translate it, pass each of its commands
//! through the chaos gate, and plan what is left for the storage engine.

use crate::ast::{ParsedStatement, ParsedStatementModel};
use crate::chaos::ChaosVerdict;
use crate::command::{Command, CommandModel};
use crate::execute::{
    execute, outcome_of, result_model, ExecutionError, Outcome, OutcomeModel, Probe,
};
use crate::translate::translate;
use crate::translation::{translation_of, Notice, TranslateError};
use vstd::prelude::*;

verus! {

/// How one command of a statement ended, and the table that it was about.
#[derive(Debug, PartialEq, Eq)]
pub struct Step {
    pub table: String,
    pub result: Result<Outcome, ExecutionError>,
}

/// The model of a `Step`.
pub struct StepModel {
    pub table: Seq<char>,
    pub result: Result<OutcomeModel, ExecutionError>,
}

impl View for Step {
    type V = StepModel;

    open spec fn view(&self) -> StepModel {
        StepModel { table: self.table@, result: result_model(self.result) }
    }
}

impl DeepView for Step {
    type V = StepModel;

    open spec fn deep_view(&self) -> StepModel {
        self@
    }
}

/// What a statement came to: a step for each of its commands, in order, and
/// what the translator left out.
#[derive(Debug, PartialEq, Eq)]
pub struct Processed {
    pub steps: Vec<Step>,
    pub notices: Vec<Notice>,
}

/// The model of a `Processed`.
pub struct ProcessedModel {
    pub steps: Seq<StepModel>,
    pub notices: Seq<Notice>,
}

impl View for Processed {
    type V = ProcessedModel;

    open spec fn view(&self) -> ProcessedModel {
        ProcessedModel { steps: self.steps.deep_view(), notices: self.notices@ }
    }
}

/// The model of what processing a statement returns.
pub open spec fn processed_model(result: Result<Processed, TranslateError>) -> Result<
    ProcessedModel,
    TranslateError,
> {
    match result {
        Ok(processed) => Ok(processed@),
        Err(error) => Err(error),
    }
}

/// The step of one command.
pub open spec fn step_of(command: CommandModel, probe: Probe, verdict: ChaosVerdict, won: bool)
    -> StepModel {
    StepModel { table: command.table(), result: outcome_of(command, probe, verdict, won) }
}

/// The steps of a list of commands, the command at `i` under the verdict
/// at `i`.
pub open spec fn steps_with(
    commands: Seq<CommandModel>,
    probe: Probe,
    verdicts: Seq<ChaosVerdict>,
    won: bool,
) -> Seq<StepModel> {
    Seq::new(commands.len(), |i: int| step_of(commands[i], probe, verdicts[i], won))
}

/// The steps of a list of commands, every command under the same verdict.
pub open spec fn steps_under(
    commands: Seq<CommandModel>,
    probe: Probe,
    verdict: ChaosVerdict,
    won: bool,
) -> Seq<StepModel> {
    Seq::new(commands.len(), |i: int| step_of(commands[i], probe, verdict, won))
}

/// What a statement comes to when the command at `i` gets the verdict at
/// `i`: the translator's error, or the steps of its commands.
pub open spec fn processed_with(
    statement: ParsedStatementModel,
    probe: Probe,
    verdicts: Seq<ChaosVerdict>,
    won: bool,
) -> Result<ProcessedModel, TranslateError> {
    match translation_of(statement, probe) {
        Err(error) => Err(error),
        Ok(translation) => Ok(
            ProcessedModel {
                steps: steps_with(translation.commands, probe, verdicts, won),
                notices: translation.notices,
            },
        ),
    }
}

/// What a statement comes to when every command gets the same verdict.
pub open spec fn processed_under(
    statement: ParsedStatementModel,
    probe: Probe,
    verdict: ChaosVerdict,
    won: bool,
) -> Result<ProcessedModel, TranslateError> {
    match translation_of(statement, probe) {
        Err(error) => Err(error),
        Ok(translation) => Ok(
            ProcessedModel {
                steps: steps_under(translation.commands, probe, verdict, won),
                notices: translation.notices,
            },
        ),
    }
}

/// How many commands a statement gives; none where it is refused.
pub open spec fn command_count(statement: ParsedStatementModel, probe: Probe) -> nat {
    match translation_of(statement, probe) {
        Ok(translation) => translation.commands.len(),
        Err(_) => 0,
    }
}

/// Turns a list of commands round.
fn reversed(mut commands: Vec<Command>) -> (stack: Vec<Command>)
    ensures
        stack.len() == commands.len(),
        forall|k: int|
            0 <= k < stack.len() ==> (#[trigger] stack[k])@ == commands[commands.len() - 1 - k]@,
{
    let ghost all = commands@;
    let mut stack: Vec<Command> = Vec::new();
    while commands.len() > 0
        invariant
            commands.len() + stack.len() == all.len(),
            forall|k: int| 0 <= k < commands.len() ==> commands[k] == all[k],
            forall|k: int| 0 <= k < stack.len() ==> (#[trigger] stack[k])@ == all[all.len() - 1 - k]@,
        decreases commands.len(),
    {
        match commands.pop() {
            Some(command) => {
                stack.push(command);
            },
            None => {},
        }
    }
    stack
}

/// Executes a list of commands in order, the command at `i` under the
/// verdict at `i`.
pub(crate) fn run_all(commands: Vec<Command>, probe: Probe, verdicts: &Vec<ChaosVerdict>, won: bool) -> (steps:
    Vec<Step>)
    requires
        verdicts.len() == commands.len(),
    ensures
        steps.deep_view() == steps_with(commands.deep_view(), probe, verdicts@, won),
{
    let ghost all = commands.deep_view();
    let n: usize = commands.len();
    let mut stack = reversed(commands);
    let mut steps: Vec<Step> = Vec::new();
    while stack.len() > 0
        invariant
            all.len() == n,
            verdicts.len() == n,
            steps.len() + stack.len() == n,
            forall|k: int| 0 <= k < stack.len() ==> (#[trigger] stack[k])@ == all[n - 1 - k],
            forall|j: int|
                0 <= j < steps.len() ==> (#[trigger] steps[j])@ == step_of(
                    all[j],
                    probe,
                    verdicts[j],
                    won,
                ),
        decreases stack.len(),
    {
        let i: usize = steps.len();
        match stack.pop() {
            Some(command) => {
                let table = String::from_str(command.table());
                let result = execute(command, probe, verdicts[i], won);
                steps.push(Step { table, result });
            },
            None => {},
        }
    }
    steps
}

/// Processes a statement with every gated command under the same verdict.
///
/// `probe` is the catalog's answer for the table that `probe_target` names,
/// and `won` the outcome of the game for a gaming diversion.
pub fn process_under(statement: &ParsedStatement, probe: Probe, verdict: ChaosVerdict, won: bool)
    -> (result: Result<Processed, TranslateError>)
    ensures
        processed_model(result) == processed_under(statement@, probe, verdict, won),
{
    match translate(statement, probe) {
        Err(error) => Err(error),
        Ok(translation) => {
            let ghost commands = translation.commands.deep_view();
            let mut verdicts: Vec<ChaosVerdict> = Vec::new();
            while verdicts.len() < translation.commands.len()
                invariant
                    verdicts.len() <= translation.commands.len(),
                    forall|j: int| 0 <= j < verdicts.len() ==> verdicts[j] == verdict,
                decreases translation.commands.len() - verdicts.len(),
            {
                verdicts.push(verdict);
            }
            let steps = run_all(translation.commands, probe, &verdicts, won);
            assert(steps.deep_view() =~= steps_under(commands, probe, verdict, won));
            Ok(Processed { steps, notices: translation.notices })
        },
    }
}

} // verus!
