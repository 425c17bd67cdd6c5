//! From statement text to parsed statements. The grammar is that of the
//! `sqlparser` crate; this module calls it and carries what it returns over
//! into the statements of `ast`, piece by piece.

use crate::ast::{
    ColumnSpec, ColumnSpecModel, Condition, ConditionModel, Constraint, DeclaredType,
    ParsedStatement, ParsedStatementModel, QueryBody, QueryBodyModel, RowSource, RowSourceModel,
    SetClause, SetClauseModel, TableRef, TableRefModel, Term, TermModel,
};
use crate::guard::{check_text, refusal_of, refusal_text, upsets_parser, RECURSION_LIMIT};
use sqlparser::ast::{
    BinaryOperator, ColumnOption, DataType, Expr, SelectItem, SetExpr, TableFactor, Value,
    WildcardAdditionalOptions,
};
use sqlparser::dialect::GenericDialect;
use sqlparser::parser::Parser;
use vstd::prelude::*;

verus! {

/// `sqlparser::ast::Statement`, a statement tree of the parser. It is opaque
/// here: it is read through the functions below only.
#[verifier::external_type_specification]
#[verifier::external_body]
pub struct ExStatement(sqlparser::ast::Statement);

/// `sqlparser::ast::Query`, a query tree of the parser, opaque here.
#[verifier::external_type_specification]
#[verifier::external_body]
pub struct ExQuery(sqlparser::ast::Query);

/// `sqlparser::ast::Expr`, an expression tree of the parser, opaque here.
#[verifier::external_type_specification]
#[verifier::external_body]
pub struct ExExpr(sqlparser::ast::Expr);

/// `sqlparser::ast::ObjectName`, a name in segments, opaque here.
#[verifier::external_type_specification]
#[verifier::external_body]
pub struct ExObjectName(sqlparser::ast::ObjectName);

/// `sqlparser::ast::ColumnDef`, a column of a CREATE TABLE, opaque here.
#[verifier::external_type_specification]
#[verifier::external_body]
pub struct ExColumnDef(sqlparser::ast::ColumnDef);

/// `sqlparser::ast::TableWithJoins`, a source of a FROM clause, opaque here.
#[verifier::external_type_specification]
#[verifier::external_body]
pub struct ExTableWithJoins(sqlparser::ast::TableWithJoins);

/// `sqlparser::ast::Assignment`, an assignment of a SET clause, opaque here.
#[verifier::external_type_specification]
#[verifier::external_body]
pub struct ExAssignment(sqlparser::ast::Assignment);

/// `sqlparser::ast::SelectItem`, a projected item of a SELECT, opaque here.
#[verifier::external_type_specification]
#[verifier::external_body]
pub struct ExSelectItem(sqlparser::ast::SelectItem);

/// `sqlparser::parser::ParserError`, the error of the parser, opaque here.
#[verifier::external_type_specification]
#[verifier::external_body]
pub struct ExParserError(sqlparser::parser::ParserError);

/// Text that is no SQL the parser accepts, with the parser's own words.
#[derive(Clone, Debug, PartialEq, Eq)]
pub struct ParseError {
    pub message: String,
}

/// The parts of a statement tree that the shell looks at, each where it
/// stands in the tree.
pub enum StatementParts<'a> {
    CreateTable { name: &'a sqlparser::ast::ObjectName, columns: &'a Vec<sqlparser::ast::ColumnDef> },
    Insert { table: &'a sqlparser::ast::ObjectName, source: Option<&'a sqlparser::ast::Query> },
    Query { query: &'a sqlparser::ast::Query },
    Update {
        table: &'a sqlparser::ast::TableWithJoins,
        assignments: &'a Vec<sqlparser::ast::Assignment>,
        selection: Option<&'a sqlparser::ast::Expr>,
    },
    Drop { names: &'a Vec<sqlparser::ast::ObjectName> },
    Other,
}

/// The model of a `StatementParts`.
pub enum StatementPartsModel {
    CreateTable { name: sqlparser::ast::ObjectName, columns: Seq<sqlparser::ast::ColumnDef> },
    Insert { table: sqlparser::ast::ObjectName, source: Option<sqlparser::ast::Query> },
    Query { query: sqlparser::ast::Query },
    Update {
        table: sqlparser::ast::TableWithJoins,
        assignments: Seq<sqlparser::ast::Assignment>,
        selection: Option<sqlparser::ast::Expr>,
    },
    Drop { names: Seq<sqlparser::ast::ObjectName> },
    Other,
}

/// What a reference that may be missing points to.
pub open spec fn pointed<T>(part: Option<&T>) -> Option<T> {
    match part {
        Some(value) => Some(*value),
        None => None,
    }
}

impl<'a> View for StatementParts<'a> {
    type V = StatementPartsModel;

    open spec fn view(&self) -> StatementPartsModel {
        match *self {
            StatementParts::CreateTable { name, columns } => StatementPartsModel::CreateTable {
                name: *name,
                columns: columns@,
            },
            StatementParts::Insert { table, source } => StatementPartsModel::Insert {
                table: *table,
                source: pointed(source),
            },
            StatementParts::Query { query } => StatementPartsModel::Query { query: *query },
            StatementParts::Update { table, assignments, selection } => StatementPartsModel::Update {
                table: *table,
                assignments: assignments@,
                selection: pointed(selection),
            },
            StatementParts::Drop { names } => StatementPartsModel::Drop { names: names@ },
            StatementParts::Other => StatementPartsModel::Other,
        }
    }
}

/// The parts of a query tree that the shell looks at, each where it stands
/// in the tree.
pub enum QueryParts<'a> {
    Values { rows: &'a Vec<Vec<sqlparser::ast::Expr>> },
    Select {
        projection: &'a Vec<sqlparser::ast::SelectItem>,
        from: &'a Vec<sqlparser::ast::TableWithJoins>,
        selection: Option<&'a sqlparser::ast::Expr>,
    },
    Other,
}

/// The model of a `QueryParts`.
pub enum QueryPartsModel {
    Values { rows: Seq<Seq<sqlparser::ast::Expr>> },
    Select {
        projection: Seq<sqlparser::ast::SelectItem>,
        from: Seq<sqlparser::ast::TableWithJoins>,
        selection: Option<sqlparser::ast::Expr>,
    },
    Other,
}

/// The rows of a list of rows, each as a sequence.
pub open spec fn nested(rows: Seq<Vec<sqlparser::ast::Expr>>) -> Seq<Seq<sqlparser::ast::Expr>> {
    Seq::new(rows.len(), |i: int| rows[i]@)
}

impl<'a> View for QueryParts<'a> {
    type V = QueryPartsModel;

    open spec fn view(&self) -> QueryPartsModel {
        match *self {
            QueryParts::Values { rows } => QueryPartsModel::Values { rows: nested(rows@) },
            QueryParts::Select { projection, from, selection } => QueryPartsModel::Select {
                projection: projection@,
                from: from@,
                selection: pointed(selection),
            },
            QueryParts::Other => QueryPartsModel::Other,
        }
    }
}

/// What the parser with `GenericDialect` makes of a text when it is let go
/// `depth` levels deep. The grammar takes a book to state; the result
/// depends on the text and the depth alone.
pub uninterp spec fn sql_trees(text: Seq<char>, depth: usize) -> Result<
    Seq<sqlparser::ast::Statement>,
    sqlparser::parser::ParserError,
>;

/// The `Display` text of a `ParserError`.
pub uninterp spec fn error_words(error: sqlparser::parser::ParserError) -> Seq<char>;

/// What `statement_parts` reads of a `Statement`.
pub uninterp spec fn statement_read(statement: sqlparser::ast::Statement) -> StatementPartsModel;

/// What `query_parts` reads of a `Query`.
pub uninterp spec fn query_read(query: sqlparser::ast::Query) -> QueryPartsModel;

/// What `column_text` reads of a `SelectItem`.
pub uninterp spec fn item_read(item: sqlparser::ast::SelectItem) -> Option<Seq<char>>;

/// The values of the identifiers of an `ObjectName`, in order.
pub uninterp spec fn segments_read(name: sqlparser::ast::ObjectName) -> Seq<Seq<char>>;

/// The name of the table that a `TableWithJoins` is, if it is a plain table.
pub uninterp spec fn relation_read(table: sqlparser::ast::TableWithJoins) -> Option<
    sqlparser::ast::ObjectName,
>;

/// What `column_spec` reads of a `ColumnDef`.
pub uninterp spec fn column_read(column: sqlparser::ast::ColumnDef) -> ColumnSpecModel;

/// What `term_of` reads of an `Expr`.
pub uninterp spec fn term_read(expr: sqlparser::ast::Expr) -> TermModel;

/// What `comparison_parts` reads of an `Expr`.
pub uninterp spec fn comparison_read(expr: sqlparser::ast::Expr) -> Option<
    (sqlparser::ast::Expr, bool, sqlparser::ast::Expr),
>;

/// What `assignment_parts` reads of an `Assignment`.
pub uninterp spec fn assignment_read(assignment: sqlparser::ast::Assignment) -> (
    Seq<char>,
    sqlparser::ast::Expr,
);

/// The operands of a comparison, for the references to them.
pub open spec fn comparison_model(
    parts: Option<(&sqlparser::ast::Expr, bool, &sqlparser::ast::Expr)>,
) -> Option<(sqlparser::ast::Expr, bool, sqlparser::ast::Expr)> {
    match parts {
        Some((left, equality, right)) => Some((*left, equality, *right)),
        None => None,
    }
}

/// The model of what `parse_sql` returns.
pub open spec fn trees_model(
    parsed: Result<Vec<sqlparser::ast::Statement>, sqlparser::parser::ParserError>,
) -> Result<Seq<sqlparser::ast::Statement>, sqlparser::parser::ParserError> {
    match parsed {
        Ok(trees) => Ok(trees@),
        Err(error) => Err(error),
    }
}

/// What `sqlparser::parser::Parser::parse_sql` does with `GenericDialect`
/// (`Parser::new`, `try_with_sql`, `parse_statements`), with the depth that
/// the parser counts set by `with_recursion_limit`: the statements of a
/// text, or the parser's error. The claim is that the text and the depth
/// decide what comes back, which `sql_trees` names; nothing is claimed of
/// which statements or which error that is.
///
/// Three kinds of text are left out, because the parser does not come back
/// from every one of them.
///
/// It panics where it unwraps what follows `GRANTED BY` in a GRANT or a
/// REVOKE, and what follows `FOR CHANNEL` in a FLUSH of `RELAY LOGS`. It
/// knows a keyword by an unquoted word of the text whose upper-case form is
/// the keyword. Of the seven keywords only `FLUSH` has letters that a
/// character outside ASCII gives: the long s and the ligature of f and l. So
/// a text that reaches one of these places holds the word `grant` or
/// `revoke`, and `granted` and `by`; or `flush`, spelt out or with one of
/// the two, and `relay` and `channel`.
///
/// It recurses as deep as the text nests. Where it counts its depth (in
/// statements, queries and expressions) it stops at `depth` levels with an
/// error; a depth above `RECURSION_LIMIT` is left out. Where it does not
/// count (in table factors and in nested types) it goes one level deeper
/// for an opening bracket at a time, and so does a derived table, the
/// costliest of the counted levels; a text with more than `BRACKET_LIMIT`
/// opening brackets is left out. The trees it returns are as deep as the
/// text is long at most, and dropping them recurses as deep; a text longer
/// than `TEXT_LIMIT` is left out. Within the three bounds the call and the
/// drop were measured, on the deepest texts found, to fit a stack of 2 MiB.
#[verifier::external_body]
fn parse_sql(text: &str, depth: usize) -> (parsed: Result<
    Vec<sqlparser::ast::Statement>,
    sqlparser::parser::ParserError,
>)
    requires
        !upsets_parser(text@),
        depth <= RECURSION_LIMIT,
    ensures
        trees_model(parsed) == sql_trees(text@, depth),
{
    Parser::new(&GenericDialect {}).with_recursion_limit(depth).try_with_sql(text)?.parse_statements()
}

/// `ToString::to_string` on a `ParserError`: its `Display` text, which the
/// error alone decides and `error_words` names.
#[verifier::external_body]
fn parser_error_text(error: &sqlparser::parser::ParserError) -> (text: String)
    ensures
        text@ == error_words(*error),
{
    error.to_string()
}

/// Reads a `sqlparser::ast::Statement`: tells its variants apart and points
/// to the fields that the shell reads, which are the name and columns of a
/// CREATE TABLE, the table name and source of an INSERT, the query of a
/// query, the table, assignments and selection of an UPDATE, the names of a
/// DROP. Nothing is copied or written out: each part is a reference into
/// the statement. The claim is that the statement alone decides what comes
/// back, which `statement_read` names.
#[verifier::external_body]
fn statement_parts<'a>(statement: &'a sqlparser::ast::Statement) -> (parts: StatementParts<'a>)
    ensures
        parts@ == statement_read(*statement),
{
    match statement {
        sqlparser::ast::Statement::CreateTable(c) => StatementParts::CreateTable {
            name: &c.name,
            columns: &c.columns,
        },
        sqlparser::ast::Statement::Insert(i) => StatementParts::Insert {
            table: &i.table_name,
            source: i.source.as_deref(),
        },
        sqlparser::ast::Statement::Query(q) => StatementParts::Query { query: &**q },
        sqlparser::ast::Statement::Update { table, assignments, selection, .. } =>
            StatementParts::Update { table, assignments, selection: selection.as_ref() },
        sqlparser::ast::Statement::Drop { names, .. } => StatementParts::Drop { names },
        _ => StatementParts::Other,
    }
}

/// Reads the body of a `sqlparser::ast::Query`: the rows of a VALUES list;
/// of a SELECT the projected items, the sources and the selection. Nothing
/// is copied or written out: each part is a reference into the query. The
/// claim is that the query alone decides what comes back, which `query_read`
/// names.
#[verifier::external_body]
fn query_parts<'a>(query: &'a sqlparser::ast::Query) -> (parts: QueryParts<'a>)
    ensures
        parts@ == query_read(*query),
{
    match &*query.body {
        SetExpr::Values(values) => QueryParts::Values { rows: &values.rows },
        SetExpr::Select(select) => QueryParts::Select {
            projection: &select.projection,
            from: &select.from,
            selection: select.selection.as_ref(),
        },
        _ => QueryParts::Other,
    }
}

/// Reads a `sqlparser::ast::SelectItem`: where it is a column reference,
/// its `Display` text, and `None` for every other item. A column reference
/// is an unnamed `Expr::Identifier` or `Expr::CompoundIdentifier`, a
/// `Wildcard` or a `QualifiedWildcard`, the two without a REPLACE option.
/// Such an item holds names only and no expression, so writing it out does
/// not recurse. The claim is that the item alone decides what comes back,
/// which `item_read` names.
#[verifier::external_body]
fn column_text(item: &sqlparser::ast::SelectItem) -> (text: Option<String>)
    ensures
        text.deep_view() == item_read(*item),
{
    match item {
        SelectItem::UnnamedExpr(Expr::Identifier(_) | Expr::CompoundIdentifier(_))
        | SelectItem::Wildcard(WildcardAdditionalOptions { opt_replace: None, .. })
        | SelectItem::QualifiedWildcard(
            _,
            WildcardAdditionalOptions { opt_replace: None, .. },
        ) => Some(item.to_string()),
        _ => None,
    }
}

/// Reads a `sqlparser::ast::ObjectName`: the `value` of each identifier, in
/// order, which `segments_read` names.
#[verifier::external_body]
fn name_segments(name: &sqlparser::ast::ObjectName) -> (segments: Vec<String>)
    ensures
        segments.deep_view() == segments_read(*name),
{
    name.0.iter().map(|ident| ident.value.clone()).collect()
}

/// Reads the `relation` of a `sqlparser::ast::TableWithJoins`: the name of
/// the table where it is `TableFactor::Table`, and `None` for every other
/// relation, which `relation_read` names.
#[verifier::external_body]
fn relation_name(table: &sqlparser::ast::TableWithJoins) -> (name: Option<
    sqlparser::ast::ObjectName,
>)
    ensures
        name == relation_read(*table),
{
    match &table.relation {
        TableFactor::Table { name, .. } => Some(name.clone()),
        _ => None,
    }
}

/// Reads a `sqlparser::ast::ColumnDef` field by field: the `value` of its
/// name; its data type as `DataType::Integer`, `DataType::Text` or another;
/// of each option whether it is `ColumnOption::NotNull`,
/// `ColumnOption::Unique` (with its `is_primary`) or another. The claim is
/// that the column alone decides what comes back, which `column_read` names.
#[verifier::external_body]
fn column_spec(column: &sqlparser::ast::ColumnDef) -> (spec: ColumnSpec)
    ensures
        spec@ == column_read(*column),
{
    let declared = match column.data_type {
        DataType::Integer(_) => DeclaredType::Integer,
        DataType::Text => DeclaredType::Text,
        _ => DeclaredType::Other,
    };
    let constraints = column.options.iter().map(|def| match def.option {
        ColumnOption::NotNull => Constraint::NotNull,
        ColumnOption::Unique { is_primary, .. } => Constraint::Unique { is_primary },
        _ => Constraint::Other,
    }).collect();
    ColumnSpec { name: column.name.value.clone(), declared, constraints }
}

/// Reads a `sqlparser::ast::Expr`: a `Value::SingleQuotedString`, a
/// `Value::Number` (its digits), an `Expr::Identifier` (its `value`), or
/// another expression. The claim is that the expression alone decides what
/// comes back, which `term_read` names.
#[verifier::external_body]
fn term_of(expr: &sqlparser::ast::Expr) -> (term: Term)
    ensures
        term@ == term_read(*expr),
{
    match expr {
        Expr::Value(Value::SingleQuotedString(s)) => Term::Text(s.clone()),
        Expr::Value(Value::Number(n, _)) => Term::Number(n.clone()),
        Expr::Identifier(ident) => Term::Identifier(ident.value.clone()),
        _ => Term::Other,
    }
}

/// Reads a `sqlparser::ast::Expr` as a comparison: the operands of an
/// `Expr::BinaryOp` and whether its operator is `BinaryOperator::Eq`; `None`
/// for every other expression. The operands are references into the
/// expression. The claim is that the expression alone decides what comes
/// back, which `comparison_read` names.
#[verifier::external_body]
fn comparison_parts<'a>(expr: &'a sqlparser::ast::Expr) -> (parts: Option<
    (&'a sqlparser::ast::Expr, bool, &'a sqlparser::ast::Expr),
>)
    ensures
        comparison_model(parts) == comparison_read(*expr),
{
    match expr {
        Expr::BinaryOp { left, op, right } => Some(
            (&**left, matches!(op, BinaryOperator::Eq), &**right),
        ),
        _ => None,
    }
}

/// Reads a `sqlparser::ast::Assignment`: the `Display` text of its target,
/// which is a name or a list of names, and a reference to its value; both
/// are what `assignment_read` names.
#[verifier::external_body]
fn assignment_parts<'a>(assignment: &'a sqlparser::ast::Assignment) -> (parts: (
    String,
    &'a sqlparser::ast::Expr,
))
    ensures
        parts.0@ == assignment_read(*assignment).0,
        *parts.1 == assignment_read(*assignment).1,
{
    (assignment.target.to_string(), &assignment.value)
}

/// The condition that an expression is: a comparison of two terms where the
/// parser made a binary operation of it, and `Other` for everything else.
pub open spec fn condition_model(expr: sqlparser::ast::Expr) -> ConditionModel {
    match comparison_read(expr) {
        Some((left, equality, right)) => ConditionModel::Comparison {
            left: term_read(left),
            equality,
            right: term_read(right),
        },
        None => ConditionModel::Other,
    }
}

/// The condition of a WHERE clause, where there is one.
pub open spec fn selection_model(selection: Option<sqlparser::ast::Expr>) -> Option<
    ConditionModel,
> {
    match selection {
        Some(expr) => Some(condition_model(expr)),
        None => None,
    }
}

/// The table that a source of a FROM clause is: a named table by the
/// segments of its name, and `Other` for every other relation.
pub open spec fn table_model(table: sqlparser::ast::TableWithJoins) -> TableRefModel {
    match relation_read(table) {
        Some(name) => TableRefModel::Named(segments_read(name)),
        None => TableRefModel::Other,
    }
}

/// The terms of one row, one for each expression.
pub open spec fn row_model(row: Seq<sqlparser::ast::Expr>) -> Seq<TermModel> {
    Seq::new(row.len(), |j: int| term_read(row[j]))
}

/// The rows of a VALUES list, row for row and term for term.
pub open spec fn rows_model(rows: Seq<Seq<sqlparser::ast::Expr>>) -> Seq<Seq<TermModel>> {
    Seq::new(rows.len(), |i: int| row_model(rows[i]))
}

/// The sources of a FROM clause, one for one.
pub open spec fn tables_model(from: Seq<sqlparser::ast::TableWithJoins>) -> Seq<TableRefModel> {
    Seq::new(from.len(), |i: int| table_model(from[i]))
}

/// The body that a query is: a plain SELECT with its projected items,
/// sources and condition carried over, and `Other` for every other body, a
/// VALUES list too.
pub open spec fn query_model(query: sqlparser::ast::Query) -> QueryBodyModel {
    match query_read(query) {
        QueryPartsModel::Select { projection, from, selection } => QueryBodyModel::Select {
            projection: Seq::new(projection.len(), |i: int| item_read(projection[i])),
            from: tables_model(from),
            selection: selection_model(selection),
        },
        _ => QueryBodyModel::Other,
    }
}

/// The source of an INSERT: `Missing` without a query, the rows of a VALUES
/// list, and `Other` for every other query.
pub open spec fn source_model(source: Option<sqlparser::ast::Query>) -> RowSourceModel {
    match source {
        None => RowSourceModel::Missing,
        Some(query) => match query_read(query) {
            QueryPartsModel::Values { rows } => RowSourceModel::Values(rows_model(rows)),
            _ => RowSourceModel::Other,
        },
    }
}

/// The SET clause that an assignment is: its target as written, and its
/// value as a term.
pub open spec fn set_clause_model(assignment: sqlparser::ast::Assignment) -> SetClauseModel {
    SetClauseModel {
        target: assignment_read(assignment).0,
        value: term_read(assignment_read(assignment).1),
    }
}

/// The statement that a tree of the parser is, each of its parts carried
/// over: names by their segments, columns, sources, assignments and
/// conditions one for one. A tree of any other kind is `Other`.
pub open spec fn statement_model(statement: sqlparser::ast::Statement) -> ParsedStatementModel {
    match statement_read(statement) {
        StatementPartsModel::CreateTable { name, columns } => ParsedStatementModel::CreateTable {
            name: segments_read(name),
            columns: Seq::new(columns.len(), |i: int| column_read(columns[i])),
        },
        StatementPartsModel::Insert { table, source } => ParsedStatementModel::Insert {
            table: segments_read(table),
            source: source_model(source),
        },
        StatementPartsModel::Query { query } => ParsedStatementModel::Query {
            body: query_model(query),
        },
        StatementPartsModel::Update { table, assignments, selection } => {
            ParsedStatementModel::Update {
                table: table_model(table),
                assignments: Seq::new(
                    assignments.len(),
                    |i: int| set_clause_model(assignments[i]),
                ),
                selection: selection_model(selection),
            }
        },
        StatementPartsModel::Drop { names } => ParsedStatementModel::Drop {
            names: Seq::new(names.len(), |i: int| segments_read(names[i])),
        },
        StatementPartsModel::Other => ParsedStatementModel::Other,
    }
}

/// What a text parses to: the statement of each tree that the parser made
/// of it, in order, or the words of the parser's error. A text that is kept
/// from the parser is an error of its own.
pub open spec fn parse_model(text: Seq<char>) -> Result<Seq<ParsedStatementModel>, Seq<char>> {
    if refusal_of(text) is Some {
        Err(refusal_text(refusal_of(text)->Some_0))
    } else {
        match sql_trees(text, RECURSION_LIMIT) {
            Ok(trees) => Ok(Seq::new(trees.len(), |i: int| statement_model(trees[i]))),
            Err(error) => Err(error_words(error)),
        }
    }
}

/// The model of what `parse` returns.
pub open spec fn parsed_model(parsed: Result<Vec<ParsedStatement>, ParseError>) -> Result<
    Seq<ParsedStatementModel>,
    Seq<char>,
> {
    match parsed {
        Ok(statements) => Ok(statements.deep_view()),
        Err(error) => Err(error.message@),
    }
}

/// Carries a condition over.
fn convert_condition(expr: &sqlparser::ast::Expr) -> (condition: Condition)
    ensures
        condition@ == condition_model(*expr),
{
    match comparison_parts(expr) {
        Some((left, equality, right)) => Condition::Comparison {
            left: term_of(left),
            equality,
            right: term_of(right),
        },
        None => Condition::Other,
    }
}

/// Carries a WHERE clause over.
fn convert_selection(selection: Option<&sqlparser::ast::Expr>) -> (condition: Option<Condition>)
    ensures
        condition.deep_view() == selection_model(pointed(selection)),
{
    match selection {
        Some(expr) => Some(convert_condition(expr)),
        None => None,
    }
}

/// Carries a source of a FROM clause over.
fn convert_table(table: &sqlparser::ast::TableWithJoins) -> (converted: TableRef)
    ensures
        converted@ == table_model(*table),
{
    match relation_name(table) {
        Some(name) => TableRef::Named(name_segments(&name)),
        None => TableRef::Other,
    }
}

/// Carries the rows of a VALUES list over, term for term.
fn convert_rows(rows: &Vec<Vec<sqlparser::ast::Expr>>) -> (converted: Vec<Vec<Term>>)
    ensures
        converted.deep_view() == rows_model(nested(rows@)),
{
    let mut converted: Vec<Vec<Term>> = Vec::new();
    let mut i: usize = 0;
    while i < rows.len()
        invariant
            i <= rows.len(),
            converted.len() == i,
            forall|k: int|
                0 <= k < i ==> (#[trigger] converted[k]).deep_view() == row_model(rows[k]@),
        decreases rows.len() - i,
    {
        let row = &rows[i];
        let mut terms: Vec<Term> = Vec::new();
        let mut j: usize = 0;
        while j < row.len()
            invariant
                j <= row.len(),
                terms.len() == j,
                forall|k: int| 0 <= k < j ==> (#[trigger] terms[k])@ == term_read(row[k]),
            decreases row.len() - j,
        {
            terms.push(term_of(&row[j]));
            j += 1;
        }
        converted.push(terms);
        i += 1;
    }
    converted
}

/// Carries a query over.
fn convert_query(query: &sqlparser::ast::Query) -> (body: QueryBody)
    ensures
        body@ == query_model(*query),
{
    match query_parts(query) {
        QueryParts::Select { projection, from, selection } => {
            let mut sources: Vec<TableRef> = Vec::new();
            let mut i: usize = 0;
            while i < from.len()
                invariant
                    i <= from.len(),
                    sources.len() == i,
                    forall|k: int| 0 <= k < i ==> (#[trigger] sources[k])@ == table_model(from[k]),
                decreases from.len() - i,
            {
                sources.push(convert_table(&from[i]));
                i += 1;
            }
            assert(sources.deep_view() =~= tables_model(from@));
            let mut items: Vec<Option<String>> = Vec::new();
            let mut j: usize = 0;
            while j < projection.len()
                invariant
                    j <= projection.len(),
                    items.len() == j,
                    forall|k: int|
                        0 <= k < j ==> (#[trigger] items[k]).deep_view() == item_read(
                            projection[k],
                        ),
                decreases projection.len() - j,
            {
                items.push(column_text(&projection[j]));
                j += 1;
            }
            assert(items.deep_view() =~= Seq::new(
                projection@.len(),
                |i: int| item_read(projection@[i]),
            ));
            QueryBody::Select {
                projection: items,
                from: sources,
                selection: convert_selection(selection),
            }
        },
        _ => QueryBody::Other,
    }
}

/// Carries the source of an INSERT over.
fn convert_source(source: Option<&sqlparser::ast::Query>) -> (converted: RowSource)
    ensures
        converted@ == source_model(pointed(source)),
{
    match source {
        None => RowSource::Missing,
        Some(query) => match query_parts(query) {
            QueryParts::Values { rows } => RowSource::Values(convert_rows(rows)),
            _ => RowSource::Other,
        },
    }
}

/// Carries one statement tree over.
fn convert_statement(statement: &sqlparser::ast::Statement) -> (converted: ParsedStatement)
    ensures
        converted@ == statement_model(*statement),
{
    match statement_parts(statement) {
        StatementParts::CreateTable { name, columns } => {
            let mut specs: Vec<ColumnSpec> = Vec::new();
            let mut i: usize = 0;
            while i < columns.len()
                invariant
                    i <= columns.len(),
                    specs.len() == i,
                    forall|k: int| 0 <= k < i ==> (#[trigger] specs[k])@ == column_read(columns[k]),
                decreases columns.len() - i,
            {
                specs.push(column_spec(&columns[i]));
                i += 1;
            }
            assert(specs.deep_view() =~= Seq::new(
                columns@.len(),
                |i: int| column_read(columns@[i]),
            ));
            ParsedStatement::CreateTable { name: name_segments(name), columns: specs }
        },
        StatementParts::Insert { table, source } => ParsedStatement::Insert {
            table: name_segments(table),
            source: convert_source(source),
        },
        StatementParts::Query { query } => ParsedStatement::Query { body: convert_query(query) },
        StatementParts::Update { table, assignments, selection } => {
            let mut clauses: Vec<SetClause> = Vec::new();
            let mut i: usize = 0;
            while i < assignments.len()
                invariant
                    i <= assignments.len(),
                    clauses.len() == i,
                    forall|k: int|
                        0 <= k < i ==> (#[trigger] clauses[k])@ == set_clause_model(
                            assignments[k],
                        ),
                decreases assignments.len() - i,
            {
                let (target, value) = assignment_parts(&assignments[i]);
                clauses.push(SetClause { target, value: term_of(value) });
                i += 1;
            }
            assert(clauses.deep_view() =~= Seq::new(
                assignments@.len(),
                |i: int| set_clause_model(assignments@[i]),
            ));
            ParsedStatement::Update {
                table: convert_table(table),
                assignments: clauses,
                selection: convert_selection(selection),
            }
        },
        StatementParts::Drop { names } => {
            let mut targets: Vec<Vec<String>> = Vec::new();
            let mut i: usize = 0;
            while i < names.len()
                invariant
                    i <= names.len(),
                    targets.len() == i,
                    forall|k: int|
                        0 <= k < i ==> (#[trigger] targets[k]).deep_view() == segments_read(
                            names[k],
                        ),
                decreases names.len() - i,
            {
                targets.push(name_segments(&names[i]));
                i += 1;
            }
            assert(targets.deep_view() =~= Seq::new(
                names@.len(),
                |i: int| segments_read(names@[i]),
            ));
            ParsedStatement::Drop { names: targets }
        },
        StatementParts::Other => ParsedStatement::Other,
    }
}

/// Parses a line of input into its statements, in the order in which they
/// were written, one for each statement that the parser found; where the
/// parser refuses the text, the error carries the parser's words.
///
/// A text is refused before the parser sees it where `check_text` finds a
/// ground: it is longer than `TEXT_LIMIT`, it holds more than
/// `BRACKET_LIMIT` opening brackets, or it holds the words of a statement on
/// which the parser would stop the program. The parser itself answers with
/// an error where statements, queries and expressions stand more than
/// `RECURSION_LIMIT` deep in one another.
///
/// The grammar is the parser's: which trees a text gives is named, not
/// stated. What is made of each tree is stated, by `statement_model`.
pub fn parse(text: &str) -> (parsed: Result<Vec<ParsedStatement>, ParseError>)
    ensures
        parsed_model(parsed) == parse_model(text@),
{
    match check_text(text) {
        Some(refusal) => {
            return Err(ParseError { message: refusal.message() });
        },
        None => {},
    }
    match parse_sql(text, RECURSION_LIMIT) {
        Err(error) => Err(ParseError { message: parser_error_text(&error) }),
        Ok(trees) => {
            let mut statements: Vec<ParsedStatement> = Vec::new();
            let mut i: usize = 0;
            while i < trees.len()
                invariant
                    i <= trees.len(),
                    statements.len() == i,
                    forall|k: int|
                        0 <= k < i ==> (#[trigger] statements[k])@ == statement_model(trees[k]),
                decreases trees.len() - i,
            {
                statements.push(convert_statement(&trees[i]));
                i += 1;
            }
            assert(statements.deep_view() =~= Seq::new(
                trees@.len(),
                |i: int| statement_model(trees@[i]),
            ));
            Ok(statements)
        },
    }
}

} // verus!
