//! What holds of the pipeline as a whole, proved from the functions'
//! contracts. The storage engine is not part of this library: where a law
//! speaks of it, it speaks of the catalog as a set of table names, of what a
//! probe answers from it, and of what an action that ran leaves in it.

use crate::ast::{
    ColumnSpecModel, ParsedStatementModel, QueryBodyModel, RowSourceModel, TableRefModel,
};
use crate::chaos::{divert_text, ChaosVerdict, DivertKind};
use crate::command::{ColumnModel, CommandModel};
use crate::execute::{
    create_table_outcome, execution_error_text, insert_outcome, outcome_of, verdict_decides,
    ExecutionError, Operation, OutcomeModel, Probe,
};
use crate::pipeline::{processed_under, processed_with, ProcessedModel, StepModel};
use crate::translation::{
    any_qualified, is_qualified, probe_target_of, translation_of, TranslateError,
    TranslationModel,
};
use vstd::prelude::*;

verus! {

/// What the catalog answers for a table when the storage engine works.
pub open spec fn probe_of(catalog: Set<Seq<char>>, table: Seq<char>) -> Probe {
    if catalog.contains(table) {
        Probe::Present
    } else {
        Probe::Absent
    }
}

/// The catalog once the storage engine has carried out what a command came
/// to: creating a table adds its name, dropping one removes it, and nothing
/// else touches the catalog. A command that failed or was skipped hands the
/// engine nothing.
pub open spec fn catalog_after(
    catalog: Set<Seq<char>>,
    result: Result<OutcomeModel, ExecutionError>,
) -> Set<Seq<char>> {
    match result {
        Ok(OutcomeModel::Run(action)) => match action.operation {
            Operation::CreateTable => catalog.insert(action.table),
            Operation::DropTable => catalog.remove(action.table),
            _ => catalog,
        },
        _ => catalog,
    }
}

/// Whether a result hands the storage engine a statement.
pub open spec fn reaches_store(result: Result<OutcomeModel, ExecutionError>) -> bool {
    result is Ok && result->Ok_0 is Run
}

/// Whether the table that a statement is about has a qualified name.
pub open spec fn has_qualified_table(statement: ParsedStatementModel) -> bool {
    match statement {
        ParsedStatementModel::CreateTable { name, .. } => is_qualified(name),
        ParsedStatementModel::Insert { table, .. } => is_qualified(table),
        ParsedStatementModel::Query { body: QueryBodyModel::Select { from, .. } } => from.len() > 0
            && from[0] is Named && is_qualified(from[0]->Named_0),
        ParsedStatementModel::Update { table: TableRefModel::Named(name), .. } => is_qualified(
            name,
        ),
        ParsedStatementModel::Drop { names } => any_qualified(names),
        _ => false,
    }
}

/// The catalog once the storage engine has carried out the first `n` steps
/// of a statement, one after the other.
pub open spec fn catalog_after_steps(catalog: Set<Seq<char>>, steps: Seq<StepModel>, n: nat) -> Set<
    Seq<char>,
>
    decreases n,
{
    if n == 0 {
        catalog
    } else {
        catalog_after(catalog_after_steps(catalog, steps, (n - 1) as nat), steps[n - 1].result)
    }
}

/// The catalog once the storage engine has carried out what a statement
/// came to; a statement that was refused leaves it as it was.
pub open spec fn catalog_after_statement(
    catalog: Set<Seq<char>>,
    processed: Result<ProcessedModel, TranslateError>,
) -> Set<Seq<char>> {
    match processed {
        Ok(done) => catalog_after_steps(catalog, done.steps, done.steps.len()),
        Err(_) => catalog,
    }
}

/// A CREATE TABLE statement and at once the same statement again, both
/// times with the verdict `Proceed`: the second one ends in the one step
/// `TableAlreadyExists`, whatever the catalog held before, the table's name
/// and its columns.
pub proof fn lemma_create_twice_already_exists(
    catalog: Set<Seq<char>>,
    table: Seq<char>,
    columns: Seq<ColumnSpecModel>,
    won: bool,
)
    ensures
        ({
            let statement = ParsedStatementModel::CreateTable { name: seq![table], columns };
            let first = processed_under(
                statement,
                probe_of(catalog, table),
                ChaosVerdict::Proceed,
                won,
            );
            let after = catalog_after_statement(catalog, first);
            let second = processed_under(
                statement,
                probe_of(after, table),
                ChaosVerdict::Proceed,
                won,
            );
            &&& probe_target_of(statement) == Some(table)
            &&& after.contains(table)
            &&& second is Ok
            &&& second->Ok_0.steps == seq![
                StepModel {
                    table,
                    result: Err::<OutcomeModel, ExecutionError>(
                        ExecutionError::TableAlreadyExists,
                    ),
                },
            ]
        }),
{
    let statement = ParsedStatementModel::CreateTable { name: seq![table], columns };
    let first = processed_under(statement, probe_of(catalog, table), ChaosVerdict::Proceed, won);
    assert(catalog_after_steps(catalog, first->Ok_0.steps, 0) == catalog);
}

/// A table that the catalog holds is never created again: the attempt fails
/// with `TableAlreadyExists` under every verdict, and nothing reaches the
/// store.
pub proof fn lemma_present_table_not_created(
    table: Seq<char>,
    columns: Seq<ColumnModel>,
    verdict: ChaosVerdict,
    won: bool,
)
    ensures
        create_table_outcome(table, columns, Probe::Present, verdict, won) == Err::<
            OutcomeModel,
            ExecutionError,
        >(ExecutionError::TableAlreadyExists),
{
}

/// A statement on a table with a qualified name fails with
/// `QualifiedNameNotAllowed`, whatever its kind and whatever the catalog
/// says: it gives no command, and the catalog is not even asked.
pub proof fn lemma_qualified_name_rejected(statement: ParsedStatementModel, probe: Probe)
    requires
        has_qualified_table(statement),
    ensures
        translation_of(statement, probe) == Err::<TranslationModel, TranslateError>(
            TranslateError::QualifiedNameNotAllowed,
        ),
        probe_target_of(statement) is None,
        forall|verdicts: Seq<ChaosVerdict>, won: bool| #[trigger]
            processed_with(statement, probe, verdicts, won) == Err::<
                ProcessedModel,
                TranslateError,
            >(TranslateError::QualifiedNameNotAllowed),
{
}

/// The catalog is asked for the very table that the statement's commands
/// are about: where a statement names a table to probe and gives commands,
/// each of them is a command on that table.
pub proof fn lemma_commands_on_probed_table(statement: ParsedStatementModel, probe: Probe)
    requires
        probe_target_of(statement) is Some,
        translation_of(statement, probe) is Ok,
    ensures
        forall|i: int|
            0 <= i < translation_of(statement, probe)->Ok_0.commands.len() ==> (
            #[trigger] translation_of(statement, probe)->Ok_0.commands[i]).table()
                == probe_target_of(statement)->Some_0,
{
}

/// A statement that names no table to probe comes to the same whatever is
/// handed in as the catalog's answer: an UPDATE, a DROP, and every statement
/// that is refused for its shape or its name.
pub proof fn lemma_unprobed_statement_ignores_probe(
    statement: ParsedStatementModel,
    one: Probe,
    other: Probe,
    verdicts: Seq<ChaosVerdict>,
    won: bool,
)
    requires
        probe_target_of(statement) is None,
    ensures
        processed_with(statement, one, verdicts, won) == processed_with(
            statement,
            other,
            verdicts,
            won,
        ),
{
    match statement {
        ParsedStatementModel::Update { .. } | ParsedStatementModel::Drop { .. } => {
            let a = processed_with(statement, one, verdicts, won);
            let b = processed_with(statement, other, verdicts, won);
            if a is Ok {
                assert(a->Ok_0.steps =~= b->Ok_0.steps);
            }
        },
        _ => {},
    }
}

/// An INSERT into a table that the catalog does not hold fails with
/// `TableNotFound`, whatever its source: no command reaches the executor.
pub proof fn lemma_insert_into_missing_table(table: Seq<char>, source: RowSourceModel)
    ensures
        translation_of(
            ParsedStatementModel::Insert { table: seq![table], source },
            Probe::Absent,
        ) == Err::<TranslationModel, TranslateError>(TranslateError::TableNotFound),
        forall|verdicts: Seq<ChaosVerdict>, won: bool| #[trigger]
            processed_with(
                ParsedStatementModel::Insert { table: seq![table], source },
                Probe::Absent,
                verdicts,
                won,
            ) == Err::<ProcessedModel, TranslateError>(TranslateError::TableNotFound),
{
}

/// Under the verdict `Proceed` an INSERT hands the store one statement with
/// a placeholder for each value and the values bound in order.
pub proof fn lemma_insert_proceeds(table: Seq<char>, values: Seq<Seq<char>>, won: bool)
    ensures
        reaches_store(insert_outcome(table, values, ChaosVerdict::Proceed, won)),
        insert_outcome(table, values, ChaosVerdict::Proceed, won)->Ok_0->Run_0.params == values,
{
}

/// Under a forced no-op a gated command reports success and hands the store
/// nothing, so the catalog and the rows stay as they were.
pub proof fn lemma_noop_reports_success(
    command: CommandModel,
    catalog: Set<Seq<char>>,
    won: bool,
)
    requires
        command.is_gated(),
        command is CreateTable ==> !catalog.contains(command.table()),
    ensures
        ({
            let result = outcome_of(
                command,
                probe_of(catalog, command.table()),
                ChaosVerdict::Divert(DivertKind::NoOp),
                won,
            );
            &&& result == Ok::<OutcomeModel, ExecutionError>(OutcomeModel::Skipped)
            &&& !reaches_store(result)
            &&& catalog_after(catalog, result) == catalog
        }),
{
}

/// Under a forced corruption or loss a gated command fails with that
/// diversion, reported by its fixed sentence, and hands the store nothing.
pub proof fn lemma_corruption_and_loss_fail(
    command: CommandModel,
    catalog: Set<Seq<char>>,
    kind: DivertKind,
    won: bool,
)
    requires
        command.is_gated(),
        command is CreateTable ==> !catalog.contains(command.table()),
        kind == DivertKind::SimulatedCorruption || kind == DivertKind::SimulatedLoss,
    ensures
        ({
            let result = outcome_of(
                command,
                probe_of(catalog, command.table()),
                ChaosVerdict::Divert(kind),
                won,
            );
            &&& result == Err::<OutcomeModel, ExecutionError>(ExecutionError::Diverted(kind))
            &&& !reaches_store(result)
            &&& catalog_after(catalog, result) == catalog
            &&& execution_error_text(result->Err_0, command.table()) == divert_text(kind)
        }),
{
}

/// Where no verdict is drawn for a command, none is missed: the command ends
/// the same under every verdict and every outcome of the game.
pub proof fn lemma_undrawn_verdict_changes_nothing(
    command: CommandModel,
    probe: Probe,
    one: ChaosVerdict,
    other: ChaosVerdict,
    won: bool,
    lost: bool,
)
    requires
        !verdict_decides(command, probe),
    ensures
        outcome_of(command, probe, one, won) == outcome_of(command, probe, other, lost),
{
}

/// A verdict never lets a gated command reach the store unless it is
/// `Proceed`, and never stops a command that is not gated.
pub proof fn lemma_only_proceed_reaches_store(
    command: CommandModel,
    probe: Probe,
    verdict: ChaosVerdict,
    won: bool,
)
    ensures
        command.is_gated() && reaches_store(outcome_of(command, probe, verdict, won)) ==> verdict
            == ChaosVerdict::Proceed,
        !command.is_gated() ==> reaches_store(outcome_of(command, probe, verdict, won)),
{
}

} // verus!
