//! The statement translator: from one parsed statement to the commands it
//! stands for, or to the reason why it stands for none.

use crate::ast::{
    ColumnSpec, Condition, Constraint, DeclaredType, ParsedStatement, QueryBody, RowSource,
    SetClause, TableRef, Term,
};
use crate::command::{
    ColumnDefinition, ColumnModifier, ColumnType, Command, CommandModel, Equality, Literal,
};
use crate::execute::Probe;
use crate::translation::{
    admitted, all_columns, any_qualified, assignment_notices, assignments_upto, column_of,
    columns_of, columns_projected, condition_notices, create_table_translation, drop_commands, drop_translation,
    ends_batch_spec, insert_commands, insert_notices, insert_translation, is_qualified,
    lemma_modifiers_are_a_set, literal_of, modifier_of, modifiers_upto, name_to_probe,
    predicate_of, predicates_of, probe_target_of, row_notices, row_values, select_translation,
    single_name, translated_model, translation_of, update_translation, Notice, TranslateError,
    Translation,
};
use vstd::prelude::*;

verus! {

/// The model of a table name that was checked.
pub open spec fn named_model(table: Result<String, TranslateError>) -> Result<
    Seq<char>,
    TranslateError,
> {
    match table {
        Ok(name) => Ok(name@),
        Err(error) => Err(error),
    }
}

/// Checks that a name has one segment and hands that segment out.
pub fn single_segment(name: &Vec<String>) -> (table: Result<String, TranslateError>)
    ensures
        named_model(table) == single_name(name.deep_view()),
{
    if name.len() > 1 {
        Err(TranslateError::QualifiedNameNotAllowed)
    } else if name.len() == 0 {
        Err(TranslateError::UnsupportedStatement)
    } else {
        Ok(name[0].clone())
    }
}

/// Reads the catalog's answer for a statement that needs its table.
pub fn check_presence(probe: Probe) -> (admission: Result<(), TranslateError>)
    ensures
        admission == admitted(probe),
{
    match probe {
        Probe::Present => Ok(()),
        Probe::Absent => Err(TranslateError::TableNotFound),
        Probe::Unavailable => Err(TranslateError::CatalogUnavailable),
    }
}

/// Reads a constraint as a modifier.
pub fn modifier_from(constraint: Constraint) -> (modifier: Option<ColumnModifier>)
    ensures
        modifier == modifier_of(constraint),
{
    match constraint {
        Constraint::NotNull => Some(ColumnModifier::NotNull),
        Constraint::Unique { is_primary } => if is_primary {
            Some(ColumnModifier::PrimaryKey)
        } else {
            Some(ColumnModifier::Unique)
        },
        Constraint::Other => None,
    }
}

/// Tells whether a modifier stands in a list.
pub fn has_modifier(options: &Vec<ColumnModifier>, modifier: ColumnModifier) -> (found: bool)
    ensures
        found == options@.contains(modifier),
{
    let mut i: usize = 0;
    while i < options.len()
        invariant
            i <= options.len(),
            forall|j: int| 0 <= j < i ==> options[j] != modifier,
        decreases options.len() - i,
    {
        if options[i] == modifier {
            return true;
        }
        i += 1;
    }
    false
}

/// Translates one parsed column. Its modifiers are a set in order.
pub fn translate_column(spec: &ColumnSpec) -> (column: ColumnDefinition)
    ensures
        column@ == column_of(spec@),
        column@.well_formed(),
{
    let column_type = match spec.declared {
        DeclaredType::Integer => ColumnType::Integer,
        DeclaredType::Text => ColumnType::Text,
        DeclaredType::Other => ColumnType::Unknown,
    };
    let mut options: Vec<ColumnModifier> = Vec::new();
    let mut i: usize = 0;
    while i < spec.constraints.len()
        invariant
            i <= spec.constraints.len(),
            options@ == modifiers_upto(spec.constraints@, i as nat),
        decreases spec.constraints.len() - i,
    {
        match modifier_from(spec.constraints[i]) {
            Some(modifier) => {
                if !has_modifier(&options, modifier) {
                    options.push(modifier);
                }
            },
            None => {},
        }
        i += 1;
    }
    proof {
        lemma_modifiers_are_a_set(spec.constraints@, spec.constraints.len() as nat);
    }
    ColumnDefinition { name: spec.name.clone(), column_type, options }
}

/// Translates the columns of a CREATE TABLE statement, one for one.
pub fn translate_columns(specs: &Vec<ColumnSpec>) -> (columns: Vec<ColumnDefinition>)
    ensures
        columns.deep_view() == columns_of(specs.deep_view()),
{
    let mut columns: Vec<ColumnDefinition> = Vec::new();
    let mut i: usize = 0;
    while i < specs.len()
        invariant
            i <= specs.len(),
            columns.len() == i,
            forall|j: int| 0 <= j < i ==> (#[trigger] columns[j])@ == column_of(specs[j]@),
        decreases specs.len() - i,
    {
        columns.push(translate_column(&specs[i]));
        i += 1;
    }
    columns
}

/// Reads a term as a literal.
pub fn literal_from(term: &Term) -> (literal: Option<Literal>)
    ensures
        literal.deep_view() == literal_of(term@),
{
    match term {
        Term::Text(s) => Some(Literal::Text(s.clone())),
        Term::Number(n) => Some(Literal::Number(n.clone())),
        _ => None,
    }
}

/// Collects the values of one row of an INSERT, and a notice for each term
/// that is left out.
pub fn translate_row(terms: &Vec<Term>, row: usize, notices: &mut Vec<Notice>) -> (values: Vec<
    String,
>)
    ensures
        values.deep_view() == row_values(terms.deep_view(), terms.len() as nat),
        final(notices)@ == old(notices)@ + row_notices(
            terms.deep_view(),
            row,
            terms.len() as nat,
        ),
{
    let ghost before = notices@;
    let mut values: Vec<String> = Vec::new();
    let mut i: usize = 0;
    while i < terms.len()
        invariant
            i <= terms.len(),
            values.deep_view() == row_values(terms.deep_view(), i as nat),
            notices@ == before + row_notices(terms.deep_view(), row, i as nat),
        decreases terms.len() - i,
    {
        match &terms[i] {
            Term::Text(s) => {
                values.push(s.clone());
            },
            Term::Number(n) => {
                values.push(n.clone());
            },
            _ => {
                notices.push(Notice::ValueSkipped { row, index: i });
            },
        }
        i += 1;
    }
    values
}

/// Reads a condition as a predicate.
pub fn predicate_from(condition: &Condition) -> (predicate: Option<Equality>)
    ensures
        predicate.deep_view() == predicate_of(condition@),
{
    match condition {
        Condition::Comparison { left, equality, right } => {
            if !*equality {
                return None;
            }
            match left {
                Term::Identifier(column) => match literal_from(right) {
                    Some(literal) => Some(Equality { column: column.clone(), literal }),
                    None => None,
                },
                _ => None,
            }
        },
        Condition::Other => None,
    }
}

/// Translates a WHERE clause, with a notice where its condition is ignored.
pub fn translate_selection(selection: &Option<Condition>, notices: &mut Vec<Notice>) -> (predicates:
    Vec<Equality>)
    ensures
        predicates.deep_view() == predicates_of(selection.deep_view()),
        final(notices)@ == old(notices)@ + condition_notices(selection.deep_view()),
{
    let mut predicates: Vec<Equality> = Vec::new();
    match selection {
        Some(condition) => match predicate_from(condition) {
            Some(predicate) => {
                predicates.push(predicate);
            },
            None => {
                notices.push(Notice::ConditionIgnored);
            },
        },
        None => {},
    }
    predicates
}

/// Translates a SET clause list, with a notice for each assignment that is
/// left out.
pub fn translate_assignments(clauses: &Vec<SetClause>, notices: &mut Vec<Notice>) -> (assignments:
    Vec<Equality>)
    ensures
        assignments.deep_view() == assignments_upto(clauses.deep_view(), clauses.len() as nat),
        final(notices)@ == old(notices)@ + assignment_notices(
            clauses.deep_view(),
            clauses.len() as nat,
        ),
{
    let ghost before = notices@;
    let mut assignments: Vec<Equality> = Vec::new();
    let mut i: usize = 0;
    while i < clauses.len()
        invariant
            i <= clauses.len(),
            assignments.deep_view() == assignments_upto(clauses.deep_view(), i as nat),
            notices@ == before + assignment_notices(clauses.deep_view(), i as nat),
        decreases clauses.len() - i,
    {
        match literal_from(&clauses[i].value) {
            Some(literal) => {
                let assignment = Equality { column: clauses[i].target.clone(), literal };
                assignments.push(assignment);
            },
            None => {
                notices.push(Notice::AssignmentSkipped { index: i });
            },
        }
        i += 1;
    }
    assignments
}

/// Translates a CREATE TABLE statement.
pub fn translate_create_table(name: &Vec<String>, columns: &Vec<ColumnSpec>) -> (result: Result<
    Translation,
    TranslateError,
>)
    ensures
        translated_model(result) == create_table_translation(
            name.deep_view(),
            columns.deep_view(),
        ),
{
    match single_segment(name) {
        Err(error) => Err(error),
        Ok(table) => {
            let command = Command::CreateTable { table, columns: translate_columns(columns) };
            let ghost model = command@;
            let mut commands: Vec<Command> = Vec::new();
            commands.push(command);
            let translation = Translation { commands, notices: Vec::new() };
            assert(translation@.commands =~= seq![model]);
            Ok(translation)
        },
    }
}

/// Translates an INSERT statement.
pub fn translate_insert(table: &Vec<String>, source: &RowSource, probe: Probe) -> (result: Result<
    Translation,
    TranslateError,
>)
    ensures
        translated_model(result) == insert_translation(table.deep_view(), source@, probe),
{
    let name = match single_segment(table) {
        Err(error) => { return Err(error); },
        Ok(name) => name,
    };
    match check_presence(probe) {
        Err(error) => { return Err(error); },
        Ok(_) => {},
    }
    match source {
        RowSource::Values(rows) => {
            let mut commands: Vec<Command> = Vec::new();
            let mut notices: Vec<Notice> = Vec::new();
            let mut i: usize = 0;
            while i < rows.len()
                invariant
                    i <= rows.len(),
                    commands.len() == i,
                    forall|j: int|
                        0 <= j < i ==> (#[trigger] commands[j])@ == (CommandModel::Insert {
                            table: name@,
                            values: row_values(rows.deep_view()[j], rows.deep_view()[j].len()),
                        }),
                    notices@ == insert_notices(rows.deep_view(), i as nat),
                decreases rows.len() - i,
            {
                let values = translate_row(&rows[i], i, &mut notices);
                commands.push(Command::Insert { table: name.clone(), values });
                i += 1;
            }
            let translation = Translation { commands, notices };
            assert(translation@.commands =~= insert_commands(name@, rows.deep_view()));
            Ok(translation)
        },
        _ => Err(TranslateError::UnsupportedStatement),
    }
}

/// Translates a query.
pub fn translate_select(body: &QueryBody, probe: Probe) -> (result: Result<
    Translation,
    TranslateError,
>)
    ensures
        translated_model(result) == select_translation(body@, probe),
{
    match body {
        QueryBody::Select { projection, from, selection } => {
            if from.len() == 0 {
                return Err(TranslateError::UnsupportedStatement);
            }
            match &from[0] {
                TableRef::Named(name) => {
                    let table = match single_segment(name) {
                        Err(error) => { return Err(error); },
                        Ok(table) => table,
                    };
                    match check_presence(probe) {
                        Err(error) => { return Err(error); },
                        Ok(_) => {},
                    }
                    let columns = match projected_columns(projection) {
                        None => { return Err(TranslateError::UnsupportedExpression); },
                        Some(columns) => columns,
                    };
                    let mut notices: Vec<Notice> = Vec::new();
                    let predicates = translate_selection(selection, &mut notices);
                    let command = Command::Select { table, columns, predicates };
                    let ghost model = command@;
                    let mut commands: Vec<Command> = Vec::new();
                    commands.push(command);
                    let translation = Translation { commands, notices };
                    assert(translation@.commands =~= seq![model]);
                    Ok(translation)
                },
                TableRef::Other => Err(TranslateError::UnsupportedStatement),
            }
        },
        QueryBody::Other => Err(TranslateError::UnsupportedStatement),
    }
}

/// Collects the projected column references, if every item is one.
pub fn projected_columns(projection: &Vec<Option<String>>) -> (columns: Option<Vec<String>>)
    ensures
        columns is Some <==> all_columns(projection.deep_view()),
        columns is Some ==> columns->Some_0.deep_view() == columns_projected(
            projection.deep_view(),
        ),
{
    let mut columns: Vec<String> = Vec::new();
    let mut i: usize = 0;
    while i < projection.len()
        invariant
            i <= projection.len(),
            columns.len() == i,
            forall|j: int| 0 <= j < i ==> (#[trigger] projection.deep_view()[j]) is Some,
            forall|j: int|
                0 <= j < i ==> (#[trigger] columns[j])@ == projection.deep_view()[j]->Some_0,
        decreases projection.len() - i,
    {
        assert(projection.deep_view()[i as int] == projection[i as int].deep_view());
        match &projection[i] {
            Some(column) => {
                columns.push(column.clone());
            },
            None => {
                return None;
            },
        }
        i += 1;
    }
    Some(columns)
}

/// Translates an UPDATE statement.
pub fn translate_update(
    table: &TableRef,
    assignments: &Vec<SetClause>,
    selection: &Option<Condition>,
) -> (result: Result<Translation, TranslateError>)
    ensures
        translated_model(result) == update_translation(
            table@,
            assignments.deep_view(),
            selection.deep_view(),
        ),
{
    match table {
        TableRef::Named(name) => {
            let table = match single_segment(name) {
                Err(error) => { return Err(error); },
                Ok(table) => table,
            };
            let mut notices: Vec<Notice> = Vec::new();
            let kept = translate_assignments(assignments, &mut notices);
            if kept.len() == 0 {
                return Err(TranslateError::UnsupportedExpression);
            }
            let predicates = translate_selection(selection, &mut notices);
            let command = Command::Update { table, assignments: kept, predicates };
            let ghost model = command@;
            let mut commands: Vec<Command> = Vec::new();
            commands.push(command);
            let translation = Translation { commands, notices };
            assert(translation@.commands =~= seq![model]);
            Ok(translation)
        },
        TableRef::Other => Err(TranslateError::UnsupportedStatement),
    }
}

/// Translates a DROP statement: every name is checked before the first
/// command is made.
pub fn translate_drop(names: &Vec<Vec<String>>) -> (result: Result<Translation, TranslateError>)
    ensures
        translated_model(result) == drop_translation(names.deep_view()),
{
    let mut k: usize = 0;
    while k < names.len()
        invariant
            k <= names.len(),
            forall|j: int| 0 <= j < k ==> !is_qualified(#[trigger] names.deep_view()[j]),
        decreases names.len() - k,
    {
        if names[k].len() > 1 {
            assert(is_qualified(names.deep_view()[k as int]));
            return Err(TranslateError::QualifiedNameNotAllowed);
        }
        k += 1;
    }
    let mut commands: Vec<Command> = Vec::new();
    let mut i: usize = 0;
    while i < names.len()
        invariant
            i <= names.len(),
            commands.len() == i,
            !any_qualified(names.deep_view()),
            forall|j: int| 0 <= j < i ==> (#[trigger] names.deep_view()[j]).len() == 1,
            forall|j: int|
                0 <= j < i ==> (#[trigger] commands[j])@ == (CommandModel::Drop {
                    table: names.deep_view()[j][0],
                }),
        decreases names.len() - i,
    {
        match single_segment(&names[i]) {
            Err(error) => {
                assert(names.deep_view()[i as int].len() == 0);
                return Err(TranslateError::UnsupportedStatement);
            },
            Ok(table) => {
                commands.push(Command::Drop { table });
            },
        }
        i += 1;
    }
    let translation = Translation { commands, notices: Vec::new() };
    assert(translation@.commands =~= drop_commands(names.deep_view()));
    Ok(translation)
}

/// Translates one parsed statement into its commands.
///
/// `probe` is the catalog's answer for the table that `probe_target` names;
/// it is looked at for INSERT and SELECT only, and only once the name has
/// been accepted.
pub fn translate(statement: &ParsedStatement, probe: Probe) -> (result: Result<
    Translation,
    TranslateError,
>)
    ensures
        translated_model(result) == translation_of(statement@, probe),
{
    match statement {
        ParsedStatement::CreateTable { name, columns } => translate_create_table(name, columns),
        ParsedStatement::Insert { table, source } => translate_insert(table, source, probe),
        ParsedStatement::Query { body } => translate_select(body, probe),
        ParsedStatement::Update { table, assignments, selection } => translate_update(
            table,
            assignments,
            selection,
        ),
        ParsedStatement::Drop { names } => translate_drop(names),
        ParsedStatement::Other => Err(TranslateError::UnsupportedStatement),
    }
}

/// The one segment of a name, where it has exactly one.
pub fn probe_name(name: &Vec<String>) -> (table: Option<String>)
    ensures
        table.deep_view() == name_to_probe(name.deep_view()),
{
    if name.len() == 1 {
        Some(name[0].clone())
    } else {
        None
    }
}

/// Names the table for which the catalog has to be asked before the
/// statement is translated, if there is one.
pub fn probe_target(statement: &ParsedStatement) -> (table: Option<String>)
    ensures
        table.deep_view() == probe_target_of(statement@),
{
    match statement {
        ParsedStatement::CreateTable { name, .. } => probe_name(name),
        ParsedStatement::Insert { table, .. } => probe_name(table),
        ParsedStatement::Query { body } => match body {
            QueryBody::Select { from, .. } => {
                if from.len() == 0 {
                    return None;
                }
                match &from[0] {
                    TableRef::Named(name) => probe_name(name),
                    TableRef::Other => None,
                }
            },
            QueryBody::Other => None,
        },
        _ => None,
    }
}

/// Tells whether a failed statement ends the batch that it came in.
pub fn ends_batch(statement: &ParsedStatement, error: TranslateError) -> (ends: bool)
    ensures
        ends == ends_batch_spec(statement@, error),
{
    match statement {
        ParsedStatement::Drop { .. } => match error {
            TranslateError::QualifiedNameNotAllowed => true,
            _ => false,
        },
        _ => false,
    }
}

/// The sentence that reports a translation error for `table`.
pub open spec fn translate_error_text(error: TranslateError, table: Seq<char>) -> Seq<char> {
    match error {
        TranslateError::UnsupportedStatement => "Unimplemented statement."@,
        TranslateError::UnsupportedExpression => "Unimplemented expression."@,
        TranslateError::QualifiedNameNotAllowed =>
            "Sorry, WackyDB doesn't do schemas or databases! Only tables are allowed in this land."@,
        TranslateError::TableNotFound => "Error: Table '"@ + table + "' does not exist."@,
        TranslateError::CatalogUnavailable => "Error: Table '"@ + table
            + "' could not be looked up."@,
    }
}

impl TranslateError {
    /// The sentence that reports this error; `table` is the table that the
    /// catalog was asked for, and is named where the error is about it.
    pub fn message(&self, table: &str) -> (text: String)
        ensures
            text@ == translate_error_text(*self, table@),
    {
        match self {
            TranslateError::UnsupportedStatement => String::from_str("Unimplemented statement."),
            TranslateError::UnsupportedExpression => String::from_str("Unimplemented expression."),
            TranslateError::QualifiedNameNotAllowed => String::from_str(
                "Sorry, WackyDB doesn't do schemas or databases! Only tables are allowed in this land.",
            ),
            TranslateError::TableNotFound => {
                let mut text = String::from_str("Error: Table '");
                text.append(table);
                text.append("' does not exist.");
                text
            },
            TranslateError::CatalogUnavailable => {
                let mut text = String::from_str("Error: Table '");
                text.append(table);
                text.append("' could not be looked up.");
                text
            },
        }
    }
}

} // verus!
