//! What a parsed statement translates to: the commands it stands for, what
//! is left out on the way, and the reasons why a statement gives no command.

use crate::ast::{
    ColumnSpecModel, ConditionModel, Constraint, DeclaredType, ParsedStatementModel,
    QueryBodyModel, RowSourceModel, SetClauseModel, TableRefModel, TermModel,
};
use crate::command::{
    ColumnModel, ColumnModifier, ColumnType, Command, CommandModel, EqualityModel, LiteralModel,
};
use crate::execute::Probe;
use vstd::prelude::*;

verus! {

/// Why a statement gave no command.
#[derive(Clone, Copy, Debug, PartialEq, Eq, Structural)]
pub enum TranslateError {
    /// The statement, or a part that it cannot do without, has a shape that
    /// is not supported.
    UnsupportedStatement,
    /// No assignment of an UPDATE sets a literal, or an item that a SELECT
    /// projects is no column reference.
    UnsupportedExpression,
    /// A table name has more than one segment.
    QualifiedNameNotAllowed,
    /// The catalog holds no table of that name.
    TableNotFound,
    /// The catalog could not be asked, so the table is taken as missing.
    CatalogUnavailable,
}

/// A part of a statement that was left out and is to be reported.
#[derive(Clone, Copy, Debug, PartialEq, Eq, Structural)]
pub enum Notice {
    /// The value at `index` of row `row` of an INSERT is no literal; the row
    /// goes on without it.
    ValueSkipped { row: usize, index: usize },
    /// The assignment at `index` of an UPDATE sets no literal; the update
    /// goes on without it.
    AssignmentSkipped { index: usize },
    /// The WHERE condition is not of the form `column = literal`; the
    /// statement goes on without a condition.
    ConditionIgnored,
}

/// What a statement translates to: its commands in order, and what was left
/// out on the way.
#[derive(Clone, Debug, PartialEq, Eq)]
pub struct Translation {
    pub commands: Vec<Command>,
    pub notices: Vec<Notice>,
}

/// The model of a `Translation`.
pub struct TranslationModel {
    pub commands: Seq<CommandModel>,
    pub notices: Seq<Notice>,
}

impl View for Translation {
    type V = TranslationModel;

    open spec fn view(&self) -> TranslationModel {
        TranslationModel { commands: self.commands.deep_view(), notices: self.notices@ }
    }
}

/// The model of what `translate` returns.
pub open spec fn translated_model(result: Result<Translation, TranslateError>) -> Result<
    TranslationModel,
    TranslateError,
> {
    match result {
        Ok(translation) => Ok(translation@),
        Err(error) => Err(error),
    }
}

/// A name with more than one segment is qualified.
pub open spec fn is_qualified(name: Seq<Seq<char>>) -> bool {
    name.len() > 1
}

/// The table that a name stands for: its one segment. A qualified name is
/// refused, and so is a name without a segment.
pub open spec fn single_name(name: Seq<Seq<char>>) -> Result<Seq<char>, TranslateError> {
    if is_qualified(name) {
        Err(TranslateError::QualifiedNameNotAllowed)
    } else if name.len() == 0 {
        Err(TranslateError::UnsupportedStatement)
    } else {
        Ok(name[0])
    }
}

/// The column type for a declared type; what is not recognised is `Unknown`.
pub open spec fn column_type_of(declared: DeclaredType) -> ColumnType {
    match declared {
        DeclaredType::Integer => ColumnType::Integer,
        DeclaredType::Text => ColumnType::Text,
        DeclaredType::Other => ColumnType::Unknown,
    }
}

/// The modifier for a constraint, if it has one.
pub open spec fn modifier_of(constraint: Constraint) -> Option<ColumnModifier> {
    match constraint {
        Constraint::NotNull => Some(ColumnModifier::NotNull),
        Constraint::Unique { is_primary } => Some(
            if is_primary {
                ColumnModifier::PrimaryKey
            } else {
                ColumnModifier::Unique
            },
        ),
        Constraint::Other => None,
    }
}

/// The modifiers of the first `n` constraints, in the order in which each
/// comes first; a constraint without a modifier leaves no trace, and neither
/// does one whose modifier is there already.
pub open spec fn modifiers_upto(constraints: Seq<Constraint>, n: nat) -> Seq<ColumnModifier>
    decreases n,
{
    if n == 0 {
        Seq::empty()
    } else {
        let before = modifiers_upto(constraints, (n - 1) as nat);
        match modifier_of(constraints[n - 1]) {
            Some(modifier) => if before.contains(modifier) {
                before
            } else {
                before.push(modifier)
            },
            None => before,
        }
    }
}

/// The modifiers of a column are a set in order: none stands twice, and
/// each is the modifier of one of the constraints.
pub proof fn lemma_modifiers_are_a_set(constraints: Seq<Constraint>, n: nat)
    requires
        n <= constraints.len(),
    ensures
        modifiers_upto(constraints, n).no_duplicates(),
        forall|m: ColumnModifier|
            modifiers_upto(constraints, n).contains(m) <==> exists|i: int|
                0 <= i < n && modifier_of(#[trigger] constraints[i]) == Some(m),
    decreases n,
{
    if n > 0 {
        lemma_modifiers_are_a_set(constraints, (n - 1) as nat);
        let before = modifiers_upto(constraints, (n - 1) as nat);
        let now = modifiers_upto(constraints, n);
        assert forall|m: ColumnModifier| now.contains(m) implies exists|i: int|
            0 <= i < n && modifier_of(#[trigger] constraints[i]) == Some(m) by {
            if before.contains(m) {
                let i = choose|i: int|
                    0 <= i < n - 1 && modifier_of(#[trigger] constraints[i]) == Some(m);
            }
        }
        assert forall|m: ColumnModifier|
            (exists|i: int|
                0 <= i < n && modifier_of(#[trigger] constraints[i]) == Some(
                    m,
                )) implies now.contains(m) by {
            let i = choose|i: int|
                0 <= i < n && modifier_of(#[trigger] constraints[i]) == Some(m);
            if i < n - 1 {
                assert(before.contains(m));
                let k = choose|k: int| 0 <= k < before.len() && before[k] == m;
                assert(now[k] == m);
            } else if !before.contains(m) {
                assert(now[before.len() as int] == m);
            }
        }
    }
}

/// The column definition for a parsed column.
pub open spec fn column_of(spec: ColumnSpecModel) -> ColumnModel {
    ColumnModel {
        name: spec.name,
        column_type: column_type_of(spec.declared),
        options: modifiers_upto(spec.constraints, spec.constraints.len()),
    }
}

/// The column definitions for the parsed columns, one for one.
pub open spec fn columns_of(specs: Seq<ColumnSpecModel>) -> Seq<ColumnModel> {
    Seq::new(specs.len(), |i: int| column_of(specs[i]))
}

/// Every column that the translator makes is well formed.
pub proof fn lemma_columns_well_formed(specs: Seq<ColumnSpecModel>)
    ensures
        forall|i: int| 0 <= i < specs.len() ==> (#[trigger] columns_of(specs)[i]).well_formed(),
{
    assert forall|i: int| 0 <= i < specs.len() implies (#[trigger] columns_of(
        specs,
    )[i]).well_formed() by {
        lemma_modifiers_are_a_set(specs[i].constraints, specs[i].constraints.len());
    }
}

/// The literal that a term is, if it is one.
pub open spec fn literal_of(term: TermModel) -> Option<LiteralModel> {
    match term {
        TermModel::Text(s) => Some(LiteralModel::Text(s)),
        TermModel::Number(n) => Some(LiteralModel::Number(n)),
        _ => None,
    }
}

/// The value that a term of a row binds: the characters of a literal.
pub open spec fn value_of(term: TermModel) -> Option<Seq<char>> {
    match term {
        TermModel::Text(s) => Some(s),
        TermModel::Number(n) => Some(n),
        _ => None,
    }
}

/// The values of the first `n` terms of a row, in order, the terms that are
/// no literal left out.
pub open spec fn row_values(terms: Seq<TermModel>, n: nat) -> Seq<Seq<char>>
    decreases n,
{
    if n == 0 {
        Seq::empty()
    } else {
        let before = row_values(terms, (n - 1) as nat);
        match value_of(terms[n - 1]) {
            Some(value) => before.push(value),
            None => before,
        }
    }
}

/// A notice for each of the first `n` terms of row `row` that is no literal.
pub open spec fn row_notices(terms: Seq<TermModel>, row: usize, n: nat) -> Seq<Notice>
    decreases n,
{
    if n == 0 {
        Seq::empty()
    } else {
        let before = row_notices(terms, row, (n - 1) as nat);
        match value_of(terms[n - 1]) {
            Some(_) => before,
            None => before.push(Notice::ValueSkipped { row, index: (n - 1) as usize }),
        }
    }
}

/// One INSERT command for each row.
pub open spec fn insert_commands(table: Seq<char>, rows: Seq<Seq<TermModel>>) -> Seq<
    CommandModel,
> {
    Seq::new(
        rows.len(),
        |i: int| CommandModel::Insert { table, values: row_values(rows[i], rows[i].len()) },
    )
}

/// The notices of the first `n` rows, row after row.
pub open spec fn insert_notices(rows: Seq<Seq<TermModel>>, n: nat) -> Seq<Notice>
    decreases n,
{
    if n == 0 {
        Seq::empty()
    } else {
        insert_notices(rows, (n - 1) as nat) + row_notices(
            rows[n - 1],
            (n - 1) as usize,
            rows[n - 1].len(),
        )
    }
}

/// The predicate that a condition is: only `identifier = literal` is one.
pub open spec fn predicate_of(condition: ConditionModel) -> Option<EqualityModel> {
    match condition {
        ConditionModel::Comparison { left: TermModel::Identifier(column), equality, right } => {
            if equality && literal_of(right) is Some {
                Some(EqualityModel { column, literal: literal_of(right)->Some_0 })
            } else {
                None
            }
        },
        _ => None,
    }
}

/// The predicates of a WHERE clause: the one it is, or none.
pub open spec fn predicates_of(selection: Option<ConditionModel>) -> Seq<EqualityModel> {
    match selection {
        Some(condition) => match predicate_of(condition) {
            Some(predicate) => seq![predicate],
            None => Seq::empty(),
        },
        None => Seq::empty(),
    }
}

/// The notice for a WHERE clause whose condition is no predicate.
pub open spec fn condition_notices(selection: Option<ConditionModel>) -> Seq<Notice> {
    match selection {
        Some(condition) => match predicate_of(condition) {
            Some(_) => Seq::empty(),
            None => seq![Notice::ConditionIgnored],
        },
        None => Seq::empty(),
    }
}

/// The assignment that a SET clause is, if it sets a literal.
pub open spec fn assignment_of(clause: SetClauseModel) -> Option<EqualityModel> {
    match literal_of(clause.value) {
        Some(literal) => Some(EqualityModel { column: clause.target, literal }),
        None => None,
    }
}

/// The assignments of the first `n` SET clauses, in order, the clauses that
/// set no literal left out.
pub open spec fn assignments_upto(clauses: Seq<SetClauseModel>, n: nat) -> Seq<EqualityModel>
    decreases n,
{
    if n == 0 {
        Seq::empty()
    } else {
        let before = assignments_upto(clauses, (n - 1) as nat);
        match assignment_of(clauses[n - 1]) {
            Some(assignment) => before.push(assignment),
            None => before,
        }
    }
}

/// A notice for each of the first `n` SET clauses that sets no literal.
pub open spec fn assignment_notices(clauses: Seq<SetClauseModel>, n: nat) -> Seq<Notice>
    decreases n,
{
    if n == 0 {
        Seq::empty()
    } else {
        let before = assignment_notices(clauses, (n - 1) as nat);
        match assignment_of(clauses[n - 1]) {
            Some(_) => before,
            None => before.push(Notice::AssignmentSkipped { index: (n - 1) as usize }),
        }
    }
}

/// What the catalog's answer means for a statement that needs its table.
pub open spec fn admitted(probe: Probe) -> Result<(), TranslateError> {
    match probe {
        Probe::Present => Ok(()),
        Probe::Absent => Err(TranslateError::TableNotFound),
        Probe::Unavailable => Err(TranslateError::CatalogUnavailable),
    }
}

/// CREATE TABLE: one command, for a table with a single-segment name. The
/// catalog is not looked at here; the executor does that.
pub open spec fn create_table_translation(
    name: Seq<Seq<char>>,
    columns: Seq<ColumnSpecModel>,
) -> Result<TranslationModel, TranslateError> {
    match single_name(name) {
        Err(error) => Err(error),
        Ok(table) => Ok(
            TranslationModel {
                commands: seq![CommandModel::CreateTable { table, columns: columns_of(columns) }],
                notices: Seq::empty(),
            },
        ),
    }
}

/// INSERT: the name is checked first, then the catalog, then the source; a
/// VALUES list gives one command for each row.
pub open spec fn insert_translation(table: Seq<Seq<char>>, source: RowSourceModel, probe: Probe)
    -> Result<TranslationModel, TranslateError> {
    match single_name(table) {
        Err(error) => Err(error),
        Ok(name) => match admitted(probe) {
            Err(error) => Err(error),
            Ok(_) => match source {
                RowSourceModel::Values(rows) => Ok(
                    TranslationModel {
                        commands: insert_commands(name, rows),
                        notices: insert_notices(rows, rows.len()),
                    },
                ),
                _ => Err(TranslateError::UnsupportedStatement),
            },
        },
    }
}

/// Whether every projected item is a column reference.
pub open spec fn all_columns(projection: Seq<Option<Seq<char>>>) -> bool {
    forall|i: int| 0 <= i < projection.len() ==> (#[trigger] projection[i]) is Some
}

/// The column references that are projected, in order.
pub open spec fn columns_projected(projection: Seq<Option<Seq<char>>>) -> Seq<Seq<char>> {
    Seq::new(projection.len(), |i: int| projection[i]->Some_0)
}

/// SELECT: a plain select from a table, the first source; the name is
/// checked first, then the catalog, then that every projected item is a
/// column reference.
pub open spec fn select_translation(body: QueryBodyModel, probe: Probe) -> Result<
    TranslationModel,
    TranslateError,
> {
    match body {
        QueryBodyModel::Select { projection, from, selection } => {
            if from.len() == 0 {
                Err(TranslateError::UnsupportedStatement)
            } else {
                match from[0] {
                    TableRefModel::Named(name) => match single_name(name) {
                        Err(error) => Err(error),
                        Ok(table) => match admitted(probe) {
                            Err(error) => Err(error),
                            Ok(_) => if all_columns(projection) {
                                Ok(
                                    TranslationModel {
                                        commands: seq![
                                            CommandModel::Select {
                                                table,
                                                columns: columns_projected(projection),
                                                predicates: predicates_of(selection),
                                            },
                                        ],
                                        notices: condition_notices(selection),
                                    },
                                )
                            } else {
                                Err(TranslateError::UnsupportedExpression)
                            },
                        },
                    },
                    TableRefModel::Other => Err(TranslateError::UnsupportedStatement),
                }
            }
        },
        QueryBodyModel::Other => Err(TranslateError::UnsupportedStatement),
    }
}

/// UPDATE: the name is checked and the catalog is not; at least one
/// assignment has to set a literal.
pub open spec fn update_translation(
    table: TableRefModel,
    assignments: Seq<SetClauseModel>,
    selection: Option<ConditionModel>,
) -> Result<TranslationModel, TranslateError> {
    match table {
        TableRefModel::Named(name) => match single_name(name) {
            Err(error) => Err(error),
            Ok(table) => {
                let kept = assignments_upto(assignments, assignments.len());
                if kept.len() == 0 {
                    Err(TranslateError::UnsupportedExpression)
                } else {
                    Ok(
                        TranslationModel {
                            commands: seq![
                                CommandModel::Update {
                                    table,
                                    assignments: kept,
                                    predicates: predicates_of(selection),
                                },
                            ],
                            notices: assignment_notices(assignments, assignments.len())
                                + condition_notices(selection),
                        },
                    )
                }
            },
        },
        TableRefModel::Other => Err(TranslateError::UnsupportedStatement),
    }
}

/// Whether one of the names is qualified.
pub open spec fn any_qualified(names: Seq<Seq<Seq<char>>>) -> bool {
    exists|i: int| 0 <= i < names.len() && is_qualified(#[trigger] names[i])
}

/// Whether one of the names has no segment.
pub open spec fn any_nameless(names: Seq<Seq<Seq<char>>>) -> bool {
    exists|i: int| 0 <= i < names.len() && (#[trigger] names[i]).len() == 0
}

/// One DROP command for each name.
pub open spec fn drop_commands(names: Seq<Seq<Seq<char>>>) -> Seq<CommandModel> {
    Seq::new(names.len(), |i: int| CommandModel::Drop { table: names[i][0] })
}

/// DROP: one qualified name among the targets refuses them all.
pub open spec fn drop_translation(names: Seq<Seq<Seq<char>>>) -> Result<
    TranslationModel,
    TranslateError,
> {
    if any_qualified(names) {
        Err(TranslateError::QualifiedNameNotAllowed)
    } else if any_nameless(names) {
        Err(TranslateError::UnsupportedStatement)
    } else {
        Ok(TranslationModel { commands: drop_commands(names), notices: Seq::empty() })
    }
}

/// What a statement translates to, given the catalog's answer for its table.
pub open spec fn translation_of(statement: ParsedStatementModel, probe: Probe) -> Result<
    TranslationModel,
    TranslateError,
> {
    match statement {
        ParsedStatementModel::CreateTable { name, columns } => create_table_translation(name, columns),
        ParsedStatementModel::Insert { table, source } => insert_translation(table, source, probe),
        ParsedStatementModel::Query { body } => select_translation(body, probe),
        ParsedStatementModel::Update { table, assignments, selection } => update_translation(
            table,
            assignments,
            selection,
        ),
        ParsedStatementModel::Drop { names } => drop_translation(names),
        ParsedStatementModel::Other => Err(TranslateError::UnsupportedStatement),
    }
}

/// The table for which the catalog has to be asked before a statement is
/// translated and executed: that of a CREATE TABLE, of an INSERT and of a
/// SELECT, where its name is a single segment.
pub open spec fn probe_target_of(statement: ParsedStatementModel) -> Option<Seq<char>> {
    match statement {
        ParsedStatementModel::CreateTable { name, .. } => name_to_probe(name),
        ParsedStatementModel::Insert { table, .. } => name_to_probe(table),
        ParsedStatementModel::Query { body: QueryBodyModel::Select { from, .. } } => {
            if from.len() > 0 && from[0] is Named {
                name_to_probe(from[0]->Named_0)
            } else {
                None
            }
        },
        _ => None,
    }
}

/// The one segment of a name, where it has exactly one.
pub open spec fn name_to_probe(name: Seq<Seq<char>>) -> Option<Seq<char>> {
    if name.len() == 1 {
        Some(name[0])
    } else {
        None
    }
}

/// Whether a failed statement ends the batch that it came in: a DROP that
/// names a qualified table does; every other failure lets the batch go on.
pub open spec fn ends_batch_spec(statement: ParsedStatementModel, error: TranslateError) -> bool {
    statement is Drop && error == TranslateError::QualifiedNameNotAllowed
}

} // verus!
