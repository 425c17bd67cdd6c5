//! The database handle of the shell: the name that the store is opened
//! under, and the fault injector that every mutating command passes.

use crate::ast::ParsedStatement;
use crate::chaos::{play_game, ChaosVerdict, DivertKind, FaultInjector};
use crate::command::{ColumnDefinition, Command, Equality};
use crate::execute::{
    calls_for_verdict, create_table_outcome, drop_action, execute, insert_outcome, outcome_of, plan_create_table,
    plan_drop, plan_insert, plan_select, plan_update, probe_action, probe_table, result_model,
    select_action, update_action, Action, ExecutionError, Outcome, Probe,
};
use crate::names::{is_valid_db_name, name_verdict, sanitize_db_name, NameError};
use crate::pipeline::{command_count, processed_model, processed_with, run_all, Processed};
use crate::translate::translate;
use crate::translation::TranslateError;
use vstd::prelude::*;

verus! {

/// A database of the shell. Its name was accepted by `sanitize_db_name`.
pub struct WackyDB {
    name: String,
    injector: FaultInjector,
}

/// The model of what `WackyDB::new` returns: the name of the database, or
/// why there is none.
pub open spec fn opened_model(opened: Result<WackyDB, NameError>) -> Result<Seq<char>, NameError> {
    match opened {
        Ok(db) => Ok(db.name_spec()),
        Err(error) => Err(error),
    }
}

impl WackyDB {
    /// The name of the database.
    pub closed spec fn name_spec(&self) -> Seq<char> {
        self.name@
    }

    /// A database is well formed when its name is a valid one. `new` makes
    /// only such databases, and no method changes the name.
    pub open spec fn well_formed(&self) -> bool {
        is_valid_db_name(self.name_spec())
    }

    /// A database under `db_name`, if that name is acceptable. No store is
    /// opened here: a name that is refused never reaches one.
    pub fn new(db_name: &str) -> (opened: Result<WackyDB, NameError>)
        ensures
            opened_model(opened) == name_verdict(db_name@),
            opened is Ok ==> opened->Ok_0.well_formed(),
    {
        match sanitize_db_name(db_name) {
            Err(error) => Err(error),
            Ok(name) => Ok(WackyDB { name: String::from_str(name), injector: FaultInjector::new() }),
        }
    }

    /// The name to open the store under.
    pub fn name(&self) -> (name: &str)
        ensures
            name@ == self.name_spec(),
    {
        self.name.as_str()
    }

    /// Draws a verdict, and plays the game where the verdict asks for it.
    /// The game is always won, so the second part is `true` either way.
    fn draw(&mut self) -> (drawn: (ChaosVerdict, bool))
        ensures
            final(self).name_spec() == old(self).name_spec(),
            drawn.1,
    {
        let verdict = self.injector.roll();
        let won = match verdict {
            ChaosVerdict::Divert(DivertKind::GamingDiversion) => play_game(),
            _ => true,
        };
        (verdict, won)
    }

    /// The query that asks the catalog whether `table_name` exists.
    pub fn table_exists(&self, table_name: &str) -> (action: Action)
        ensures
            action@ == probe_action(table_name@),
    {
        probe_table(table_name)
    }

    /// Creates a table. The catalog's answer is looked at first; only where
    /// the table is absent is a verdict drawn, and the game played if the
    /// verdict asks for it. What comes back is what `plan_create_table` gives
    /// for some verdict, with the game won.
    pub fn create_table(&mut self, table_name: &str, columns: &Vec<ColumnDefinition>, probe: Probe)
        -> (result: Result<Outcome, ExecutionError>)
        ensures
            final(self).name_spec() == old(self).name_spec(),
            exists|verdict: ChaosVerdict|
                result_model(result) == #[trigger] create_table_outcome(
                    table_name@,
                    columns.deep_view(),
                    probe,
                    verdict,
                    true,
                ),
    {
        match probe {
            Probe::Absent => {
                let (verdict, won) = self.draw();
                plan_create_table(table_name, columns, probe, verdict, won)
            },
            _ => plan_create_table(table_name, columns, probe, ChaosVerdict::Proceed, true),
        }
    }

    /// Inserts one row, under a verdict drawn for this call: what comes back
    /// is what `plan_insert` gives for some verdict, with the game won.
    pub fn insert(&mut self, table_name: &str, values: Vec<String>) -> (result: Result<
        Outcome,
        ExecutionError,
    >)
        ensures
            final(self).name_spec() == old(self).name_spec(),
            exists|verdict: ChaosVerdict|
                result_model(result) == #[trigger] insert_outcome(
                    table_name@,
                    values.deep_view(),
                    verdict,
                    true,
                ),
    {
        let (verdict, won) = self.draw();
        plan_insert(table_name, values, verdict, won)
    }

    /// Reads from a table. No verdict is drawn.
    pub fn select(&self, table_name: &str, columns: &Vec<String>, predicates: &Vec<Equality>) -> (action:
        Action)
        ensures
            action@ == select_action(table_name@, columns.deep_view(), predicates.deep_view()),
    {
        plan_select(table_name, columns, predicates)
    }

    /// Updates rows of a table. No verdict is drawn.
    pub fn update(
        &self,
        table_name: &str,
        assignments: &Vec<Equality>,
        predicates: &Vec<Equality>,
    ) -> (action: Action)
        ensures
            action@ == update_action(
                table_name@,
                assignments.deep_view(),
                predicates.deep_view(),
            ),
    {
        plan_update(table_name, assignments, predicates)
    }

    /// Drops a table. No verdict is drawn.
    pub fn drop_table(&self, table_name: &str) -> (action: Action)
        ensures
            action@ == drop_action(table_name@),
    {
        plan_drop(table_name)
    }

    /// Executes a command, with a verdict drawn for it where a verdict
    /// decides: for a row to insert, and for a table to create that the
    /// catalog says is absent. What comes back is what `execute` gives for
    /// some verdict, with the game won.
    pub fn run(&mut self, command: Command, probe: Probe) -> (result: Result<
        Outcome,
        ExecutionError,
    >)
        ensures
            final(self).name_spec() == old(self).name_spec(),
            exists|verdict: ChaosVerdict|
                result_model(result) == #[trigger] outcome_of(command@, probe, verdict, true),
    {
        if calls_for_verdict(&command, probe) {
            let (verdict, won) = self.draw();
            execute(command, probe, verdict, won)
        } else {
            execute(command, probe, ChaosVerdict::Proceed, true)
        }
    }

    /// Processes a statement: translates it, draws a verdict for each
    /// command that a verdict decides, and plans each command in order. What
    /// comes back is what `processed_with` gives for some list of verdicts,
    /// one for each command, with the game won.
    pub fn process(&mut self, statement: &ParsedStatement, probe: Probe) -> (result: Result<
        Processed,
        TranslateError,
    >)
        ensures
            final(self).name_spec() == old(self).name_spec(),
            exists|verdicts: Seq<ChaosVerdict>|
                verdicts.len() == command_count(statement@, probe) && processed_model(result)
                    == #[trigger] processed_with(statement@, probe, verdicts, true),
    {
        let ghost name = self.name_spec();
        match translate(statement, probe) {
            Err(error) => {
                let result = Err(error);
                assert(processed_model(result) == processed_with(
                    statement@,
                    probe,
                    Seq::<ChaosVerdict>::empty(),
                    true,
                ));
                result
            },
            Ok(translation) => {
                let mut verdicts: Vec<ChaosVerdict> = Vec::new();
                let mut i: usize = 0;
                while i < translation.commands.len()
                    invariant
                        i <= translation.commands.len(),
                        verdicts.len() == i,
                        self.name_spec() == name,
                    decreases translation.commands.len() - i,
                {
                    if calls_for_verdict(&translation.commands[i], probe) {
                        let (verdict, _) = self.draw();
                        verdicts.push(verdict);
                    } else {
                        verdicts.push(ChaosVerdict::Proceed);
                    }
                    i += 1;
                }
                let steps = run_all(translation.commands, probe, &verdicts, true);
                let result = Ok(Processed { steps, notices: translation.notices });
                assert(processed_model(result) == processed_with(
                    statement@,
                    probe,
                    verdicts@,
                    true,
                ));
                result
            },
        }
    }
}

} // verus!
