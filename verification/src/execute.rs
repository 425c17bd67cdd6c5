//! The command executor: from a validated command, what the catalog said and
//! a chaos verdict, to the one action for the storage engine, or to the
//! reason why there is none.

use crate::chaos::{divert_text, settle, settled, ChaosVerdict, DivertKind, Gate};
use crate::command::{ColumnDefinition, ColumnModel, Command, CommandModel, Equality, EqualityModel};
use crate::render::{
    create_table_sql, drop_sql, insert_sql, probe_sql, render_create_table, render_drop,
    render_insert, render_select, render_update, select_sql, update_sql,
};
use vstd::prelude::*;

verus! {

/// What the catalog answered when it was asked for a table.
#[derive(Clone, Copy, Debug, PartialEq, Eq, Structural)]
pub enum Probe {
    /// The table exists.
    Present,
    /// The catalog holds no such table.
    Absent,
    /// The storage engine failed to answer.
    Unavailable,
}

/// Why a command was not carried out.
#[derive(Clone, Copy, Debug, PartialEq, Eq, Structural)]
pub enum ExecutionError {
    /// The table to create is in the catalog already.
    TableAlreadyExists,
    /// The catalog could not be asked whether the table exists.
    CatalogUnavailable,
    /// The chaos gate failed the command.
    Diverted(DivertKind),
}

/// What an action does to the store.
#[derive(Clone, Copy, Debug, PartialEq, Eq, Structural)]
pub enum Operation {
    /// Asks the catalog for a table; changes nothing.
    Probe,
    CreateTable,
    Insert,
    /// Reads rows; changes nothing.
    Select,
    Update,
    DropTable,
}

/// One statement for the storage engine: its text and the values to bind to
/// its placeholders, in order.
#[derive(Clone, Debug, PartialEq, Eq)]
pub struct Action {
    pub operation: Operation,
    pub table: String,
    pub sql: String,
    pub params: Vec<String>,
}

/// The model of an `Action`.
pub struct ActionModel {
    pub operation: Operation,
    pub table: Seq<char>,
    pub sql: Seq<char>,
    pub params: Seq<Seq<char>>,
}

impl View for Action {
    type V = ActionModel;

    open spec fn view(&self) -> ActionModel {
        ActionModel {
            operation: self.operation,
            table: self.table@,
            sql: self.sql@,
            params: self.params.deep_view(),
        }
    }
}

impl DeepView for Action {
    type V = ActionModel;

    open spec fn deep_view(&self) -> ActionModel {
        self@
    }
}

/// How a command that did not fail ends.
#[derive(Clone, Debug, PartialEq, Eq)]
pub enum Outcome {
    /// The action is handed to the storage engine.
    Run(Action),
    /// Success is reported and the storage engine is not touched.
    Skipped,
}

/// The model of an `Outcome`.
pub enum OutcomeModel {
    Run(ActionModel),
    Skipped,
}

impl View for Outcome {
    type V = OutcomeModel;

    open spec fn view(&self) -> OutcomeModel {
        match *self {
            Outcome::Run(action) => OutcomeModel::Run(action@),
            Outcome::Skipped => OutcomeModel::Skipped,
        }
    }
}

/// The model of what an executor function returns.
pub open spec fn result_model(result: Result<Outcome, ExecutionError>) -> Result<
    OutcomeModel,
    ExecutionError,
> {
    match result {
        Ok(outcome) => Ok(outcome@),
        Err(error) => Err(error),
    }
}

/// The action that asks the catalog for `table`.
pub open spec fn probe_action(table: Seq<char>) -> ActionModel {
    ActionModel { operation: Operation::Probe, table, sql: probe_sql(), params: seq![table] }
}

/// The action that creates `table` with `columns`: one statement, nothing
/// bound.
pub open spec fn create_table_action(table: Seq<char>, columns: Seq<ColumnModel>) -> ActionModel {
    ActionModel {
        operation: Operation::CreateTable,
        table,
        sql: create_table_sql(table, columns),
        params: Seq::empty(),
    }
}

/// The action that inserts one row: a placeholder for each value, and the
/// values bound in order.
pub open spec fn insert_action(table: Seq<char>, values: Seq<Seq<char>>) -> ActionModel {
    ActionModel {
        operation: Operation::Insert,
        table,
        sql: insert_sql(table, values.len()),
        params: values,
    }
}

/// The action that reads from `table`.
pub open spec fn select_action(
    table: Seq<char>,
    columns: Seq<Seq<char>>,
    predicates: Seq<EqualityModel>,
) -> ActionModel {
    ActionModel {
        operation: Operation::Select,
        table,
        sql: select_sql(table, columns, predicates),
        params: Seq::empty(),
    }
}

/// The action that updates rows of `table`.
pub open spec fn update_action(
    table: Seq<char>,
    assignments: Seq<EqualityModel>,
    predicates: Seq<EqualityModel>,
) -> ActionModel {
    ActionModel {
        operation: Operation::Update,
        table,
        sql: update_sql(table, assignments, predicates),
        params: Seq::empty(),
    }
}

/// The action that drops `table`.
pub open spec fn drop_action(table: Seq<char>) -> ActionModel {
    ActionModel {
        operation: Operation::DropTable,
        table,
        sql: drop_sql(table),
        params: Seq::empty(),
    }
}

/// What a verdict makes of a gated action. It runs on `Proceed`; on a no-op
/// and on a game that was won nothing runs and success is reported; every
/// other diversion is the error.
pub open spec fn gated(verdict: ChaosVerdict, won: bool, action: ActionModel) -> Result<
    OutcomeModel,
    ExecutionError,
> {
    match settled(verdict, won) {
        Ok(Gate::Run) => Ok(OutcomeModel::Run(action)),
        Ok(Gate::Skip) => Ok(OutcomeModel::Skipped),
        Err(kind) => Err(ExecutionError::Diverted(kind)),
    }
}

/// How creating a table ends. A table that is present is refused before the
/// verdict is looked at, and so is a catalog that did not answer.
pub open spec fn create_table_outcome(
    table: Seq<char>,
    columns: Seq<ColumnModel>,
    probe: Probe,
    verdict: ChaosVerdict,
    won: bool,
) -> Result<OutcomeModel, ExecutionError> {
    match probe {
        Probe::Present => Err(ExecutionError::TableAlreadyExists),
        Probe::Unavailable => Err(ExecutionError::CatalogUnavailable),
        Probe::Absent => gated(verdict, won, create_table_action(table, columns)),
    }
}

/// How inserting a row ends.
pub open spec fn insert_outcome(
    table: Seq<char>,
    values: Seq<Seq<char>>,
    verdict: ChaosVerdict,
    won: bool,
) -> Result<OutcomeModel, ExecutionError> {
    gated(verdict, won, insert_action(table, values))
}

/// How a command ends. The probe is that of the command's table and counts
/// for creating a table only; the verdict counts for the gated commands only.
pub open spec fn outcome_of(command: CommandModel, probe: Probe, verdict: ChaosVerdict, won: bool)
    -> Result<OutcomeModel, ExecutionError> {
    match command {
        CommandModel::CreateTable { table, columns } => create_table_outcome(
            table,
            columns,
            probe,
            verdict,
            won,
        ),
        CommandModel::Insert { table, values } => insert_outcome(table, values, verdict, won),
        CommandModel::Select { table, columns, predicates } => Ok(
            OutcomeModel::Run(select_action(table, columns, predicates)),
        ),
        CommandModel::Update { table, assignments, predicates } => Ok(
            OutcomeModel::Run(update_action(table, assignments, predicates)),
        ),
        CommandModel::Drop { table } => Ok(OutcomeModel::Run(drop_action(table))),
    }
}

/// Whether a verdict decides how a command ends: it does for inserting a
/// row, and for creating a table once the catalog has answered that the
/// table is absent. Every other command ends the same under every verdict.
pub open spec fn verdict_decides(command: CommandModel, probe: Probe) -> bool {
    command is Insert || (command is CreateTable && probe == Probe::Absent)
}

/// Tells whether a verdict is to be drawn for a command, given the
/// catalog's answer: the catalog is looked at first, and no verdict is drawn
/// for a command that it settles.
pub fn calls_for_verdict(command: &Command, probe: Probe) -> (calls: bool)
    ensures
        calls == verdict_decides(command@, probe),
{
    match command {
        Command::Insert { .. } => true,
        Command::CreateTable { .. } => match probe {
            Probe::Absent => true,
            _ => false,
        },
        _ => false,
    }
}

/// Builds the query that asks the catalog whether `table` exists.
pub fn probe_table(table: &str) -> (action: Action)
    ensures
        action@ == probe_action(table@),
{
    let mut params: Vec<String> = Vec::new();
    params.push(String::from_str(table));
    let action = Action {
        operation: Operation::Probe,
        table: String::from_str(table),
        sql: String::from_str("SELECT name FROM sqlite_master WHERE type='table' AND name=?"),
        params,
    };
    assert(action@.params =~= seq![table@]);
    action
}

/// Reads the catalog's answer: `Some(found)` when the query ran, `None` when
/// the storage engine failed.
pub fn probe_from_answer(answer: Option<bool>) -> (probe: Probe)
    ensures
        probe == match answer {
            Some(true) => Probe::Present,
            Some(false) => Probe::Absent,
            None => Probe::Unavailable,
        },
{
    match answer {
        Some(true) => Probe::Present,
        Some(false) => Probe::Absent,
        None => Probe::Unavailable,
    }
}

/// Plans the creation of a table under a given verdict.
pub fn plan_create_table(
    table: &str,
    columns: &Vec<ColumnDefinition>,
    probe: Probe,
    verdict: ChaosVerdict,
    won: bool,
) -> (result: Result<Outcome, ExecutionError>)
    ensures
        result_model(result) == create_table_outcome(
            table@,
            columns.deep_view(),
            probe,
            verdict,
            won,
        ),
{
    match probe {
        Probe::Present => Err(ExecutionError::TableAlreadyExists),
        Probe::Unavailable => Err(ExecutionError::CatalogUnavailable),
        Probe::Absent => match settle(verdict, won) {
            Err(kind) => Err(ExecutionError::Diverted(kind)),
            Ok(Gate::Skip) => Ok(Outcome::Skipped),
            Ok(Gate::Run) => {
                let action = Action {
                    operation: Operation::CreateTable,
                    table: String::from_str(table),
                    sql: render_create_table(table, columns),
                    params: Vec::new(),
                };
                assert(action@.params =~= Seq::empty());
                Ok(Outcome::Run(action))
            },
        },
    }
}

/// Plans the insertion of one row under a given verdict.
pub fn plan_insert(table: &str, values: Vec<String>, verdict: ChaosVerdict, won: bool) -> (result:
    Result<Outcome, ExecutionError>)
    ensures
        result_model(result) == insert_outcome(table@, values.deep_view(), verdict, won),
{
    match settle(verdict, won) {
        Err(kind) => Err(ExecutionError::Diverted(kind)),
        Ok(Gate::Skip) => Ok(Outcome::Skipped),
        Ok(Gate::Run) => {
            let sql = render_insert(table, values.len());
            Ok(
                Outcome::Run(
                    Action {
                        operation: Operation::Insert,
                        table: String::from_str(table),
                        sql,
                        params: values,
                    },
                ),
            )
        },
    }
}

/// Plans a read. No verdict is drawn for it.
pub fn plan_select(table: &str, columns: &Vec<String>, predicates: &Vec<Equality>) -> (action:
    Action)
    ensures
        action@ == select_action(table@, columns.deep_view(), predicates.deep_view()),
{
    let action = Action {
        operation: Operation::Select,
        table: String::from_str(table),
        sql: render_select(table, columns, predicates),
        params: Vec::new(),
    };
    assert(action@.params =~= Seq::empty());
    action
}

/// Plans an update. No verdict is drawn for it and the catalog is not asked.
pub fn plan_update(table: &str, assignments: &Vec<Equality>, predicates: &Vec<Equality>) -> (action:
    Action)
    ensures
        action@ == update_action(table@, assignments.deep_view(), predicates.deep_view()),
{
    let action = Action {
        operation: Operation::Update,
        table: String::from_str(table),
        sql: render_update(table, assignments, predicates),
        params: Vec::new(),
    };
    assert(action@.params =~= Seq::empty());
    action
}

/// Plans the dropping of a table. No verdict is drawn for it and the catalog
/// is not asked: what the storage engine answers is the result.
pub fn plan_drop(table: &str) -> (action: Action)
    ensures
        action@ == drop_action(table@),
{
    let action = Action {
        operation: Operation::DropTable,
        table: String::from_str(table),
        sql: render_drop(table),
        params: Vec::new(),
    };
    assert(action@.params =~= Seq::empty());
    action
}

/// Executes a command as far as the store is not needed: decides whether it
/// runs, and builds the action if it does.
///
/// `probe` is the catalog's answer for the command's table, `verdict` the
/// chaos verdict drawn for the command and `won` the outcome of the game;
/// each is looked at only where the command calls for it.
pub fn execute(command: Command, probe: Probe, verdict: ChaosVerdict, won: bool) -> (result:
    Result<Outcome, ExecutionError>)
    ensures
        result_model(result) == outcome_of(command@, probe, verdict, won),
{
    match command {
        Command::CreateTable { table, columns } => plan_create_table(
            table.as_str(),
            &columns,
            probe,
            verdict,
            won,
        ),
        Command::Insert { table, values } => plan_insert(table.as_str(), values, verdict, won),
        Command::Select { table, columns, predicates } => Ok(
            Outcome::Run(plan_select(table.as_str(), &columns, &predicates)),
        ),
        Command::Update { table, assignments, predicates } => Ok(
            Outcome::Run(plan_update(table.as_str(), &assignments, &predicates)),
        ),
        Command::Drop { table } => Ok(Outcome::Run(plan_drop(table.as_str()))),
    }
}

/// The sentence that reports an execution error for `table`.
pub open spec fn execution_error_text(error: ExecutionError, table: Seq<char>) -> Seq<char> {
    match error {
        ExecutionError::TableAlreadyExists => "Table '"@ + table + "' already exists."@,
        ExecutionError::CatalogUnavailable => "Could not look up table '"@ + table
            + "' in the catalog."@,
        ExecutionError::Diverted(kind) => divert_text(kind),
    }
}

impl ExecutionError {
    /// The sentence that reports this error for `table`.
    pub fn message(&self, table: &str) -> (text: String)
        ensures
            text@ == execution_error_text(*self, table@),
    {
        match self {
            ExecutionError::TableAlreadyExists => {
                let mut text = String::from_str("Table '");
                text.append(table);
                text.append("' already exists.");
                text
            },
            ExecutionError::CatalogUnavailable => {
                let mut text = String::from_str("Could not look up table '");
                text.append(table);
                text.append("' in the catalog.");
                text
            },
            ExecutionError::Diverted(kind) => kind.message(),
        }
    }
}

} // verus!
