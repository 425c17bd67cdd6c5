//! The statement text of each command: what it is, and the code that writes it.

use crate::command::{ColumnDefinition, ColumnModel, ColumnModifier, ColumnType, Equality, EqualityModel, Literal, LiteralModel};
use crate::text::{join, joined, texts};
use vstd::prelude::*;

verus! {

/// The keyword of a column type.
pub open spec fn type_text(column_type: ColumnType) -> Seq<char> {
    match column_type {
        ColumnType::Integer => "INTEGER"@,
        ColumnType::Text => "TEXT"@,
        ColumnType::Unknown => "UNKNOWN"@,
    }
}

/// The keywords of a column modifier.
pub open spec fn modifier_text(modifier: ColumnModifier) -> Seq<char> {
    match modifier {
        ColumnModifier::NotNull => "NOT NULL"@,
        ColumnModifier::PrimaryKey => "PRIMARY KEY"@,
        ColumnModifier::Unique => "UNIQUE"@,
    }
}

/// The first `n` modifiers, each behind a space.
pub open spec fn options_text(options: Seq<ColumnModifier>, n: nat) -> Seq<char>
    decreases n,
{
    if n == 0 {
        Seq::empty()
    } else {
        options_text(options, (n - 1) as nat) + " "@ + modifier_text(options[n - 1])
    }
}

/// A column as it stands in a CREATE TABLE statement: name, type, modifiers.
pub open spec fn column_text(column: ColumnModel) -> Seq<char> {
    column.name + " "@ + type_text(column.column_type) + options_text(
        column.options,
        column.options.len(),
    )
}

/// The text of each column of a list.
pub open spec fn column_texts(columns: Seq<ColumnModel>) -> Seq<Seq<char>> {
    Seq::new(columns.len(), |i: int| column_text(columns[i]))
}

/// `CREATE TABLE <table> (<column>, <column>, ...)`.
pub open spec fn create_table_sql(table: Seq<char>, columns: Seq<ColumnModel>) -> Seq<char> {
    "CREATE TABLE "@ + table + " ("@ + joined(column_texts(columns), ", "@) + ")"@
}

/// `n` placeholders, one for each value to bind.
pub open spec fn placeholders(n: nat) -> Seq<Seq<char>> {
    Seq::new(n, |i: int| "?"@)
}

/// `INSERT INTO <table> VALUES (?, ?, ...)` with `n` placeholders.
pub open spec fn insert_sql(table: Seq<char>, n: nat) -> Seq<char> {
    "INSERT INTO "@ + table + " VALUES ("@ + joined(placeholders(n), ", "@) + ")"@
}

/// A literal as it stands in a statement: text between single quotes, a
/// number bare. The text is written as it is: a quote inside it is not
/// doubled.
pub open spec fn literal_text(literal: LiteralModel) -> Seq<char> {
    match literal {
        LiteralModel::Text(s) => "'"@ + s + "'"@,
        LiteralModel::Number(n) => n,
    }
}

/// `<column> = <literal>`.
pub open spec fn equality_text(equality: EqualityModel) -> Seq<char> {
    equality.column + " = "@ + literal_text(equality.literal)
}

/// The text of each equality of a list.
pub open spec fn equality_texts(equalities: Seq<EqualityModel>) -> Seq<Seq<char>> {
    Seq::new(equalities.len(), |i: int| equality_text(equalities[i]))
}

/// The condition of a WHERE clause: the predicates joined by `AND`, or the
/// condition that always holds where there is none.
pub open spec fn where_text(predicates: Seq<EqualityModel>) -> Seq<char> {
    if predicates.len() == 0 {
        "1 = 1"@
    } else {
        joined(equality_texts(predicates), " AND "@)
    }
}

/// `SELECT <columns> FROM <table> WHERE <condition>`.
pub open spec fn select_sql(
    table: Seq<char>,
    columns: Seq<Seq<char>>,
    predicates: Seq<EqualityModel>,
) -> Seq<char> {
    "SELECT "@ + joined(columns, ", "@) + " FROM "@ + table + " WHERE "@ + where_text(predicates)
}

/// `UPDATE <table> SET <assignments> WHERE <condition>`.
pub open spec fn update_sql(
    table: Seq<char>,
    assignments: Seq<EqualityModel>,
    predicates: Seq<EqualityModel>,
) -> Seq<char> {
    "UPDATE "@ + table + " SET "@ + joined(equality_texts(assignments), ", "@) + " WHERE "@
        + where_text(predicates)
}

/// `DROP TABLE <table>`.
pub open spec fn drop_sql(table: Seq<char>) -> Seq<char> {
    "DROP TABLE "@ + table
}

/// The query that asks the engine's catalog for a table, its name bound as
/// the one parameter.
pub open spec fn probe_sql() -> Seq<char> {
    "SELECT name FROM sqlite_master WHERE type='table' AND name=?"@
}

fn type_keyword(column_type: ColumnType) -> (word: &'static str)
    ensures
        word@ == type_text(column_type),
{
    match column_type {
        ColumnType::Integer => "INTEGER",
        ColumnType::Text => "TEXT",
        ColumnType::Unknown => "UNKNOWN",
    }
}

fn modifier_keyword(modifier: ColumnModifier) -> (word: &'static str)
    ensures
        word@ == modifier_text(modifier),
{
    match modifier {
        ColumnModifier::NotNull => "NOT NULL",
        ColumnModifier::PrimaryKey => "PRIMARY KEY",
        ColumnModifier::Unique => "UNIQUE",
    }
}

/// Writes one column of a CREATE TABLE statement.
pub fn render_column(column: &ColumnDefinition) -> (out: String)
    ensures
        out@ == column_text(column@),
{
    let mut out = column.name.clone();
    out.append(" ");
    out.append(type_keyword(column.column_type));
    let ghost head = out@;
    let mut i: usize = 0;
    while i < column.options.len()
        invariant
            i <= column.options.len(),
            head == column.name@ + " "@ + type_text(column.column_type),
            out@ == head + options_text(column.options@, i as nat),
        decreases column.options.len() - i,
    {
        out.append(" ");
        out.append(modifier_keyword(column.options[i]));
        i += 1;
    }
    out
}

/// Writes a CREATE TABLE statement.
pub fn render_create_table(table: &str, columns: &Vec<ColumnDefinition>) -> (sql: String)
    ensures
        sql@ == create_table_sql(table@, columns.deep_view()),
{
    let mut rendered: Vec<String> = Vec::new();
    let mut i: usize = 0;
    while i < columns.len()
        invariant
            i <= columns.len(),
            rendered.len() == i,
            forall|j: int| 0 <= j < i ==> rendered[j]@ == column_text(#[trigger] columns[j]@),
        decreases columns.len() - i,
    {
        rendered.push(render_column(&columns[i]));
        i += 1;
    }
    assert(texts(rendered@) =~= column_texts(columns.deep_view()));
    let mut sql = String::from_str("CREATE TABLE ");
    sql.append(table);
    sql.append(" (");
    sql.append(join(&rendered, ", ").as_str());
    sql.append(")");
    sql
}

/// Writes an INSERT statement with `n` placeholders.
pub fn render_insert(table: &str, n: usize) -> (sql: String)
    ensures
        sql@ == insert_sql(table@, n as nat),
{
    let mut marks: Vec<String> = Vec::new();
    let mut i: usize = 0;
    while i < n
        invariant
            i <= n,
            marks.len() == i,
            forall|j: int| 0 <= j < i ==> (#[trigger] marks[j])@ == "?"@,
        decreases n - i,
    {
        marks.push(String::from_str("?"));
        i += 1;
    }
    assert(texts(marks@) =~= placeholders(n as nat));
    let mut sql = String::from_str("INSERT INTO ");
    sql.append(table);
    sql.append(" VALUES (");
    sql.append(join(&marks, ", ").as_str());
    sql.append(")");
    sql
}

/// Writes `<column> = <literal>`.
pub fn render_equality(equality: &Equality) -> (out: String)
    ensures
        out@ == equality_text(equality@),
{
    let mut out = equality.column.clone();
    out.append(" = ");
    match &equality.literal {
        Literal::Text(s) => {
            let mut quoted = String::from_str("'");
            quoted.append(s.as_str());
            quoted.append("'");
            out.append(quoted.as_str());
        },
        Literal::Number(n) => {
            out.append(n.as_str());
        },
    }
    out
}

/// Writes each equality of a list and joins them with `sep`.
pub fn render_equalities(equalities: &Vec<Equality>, sep: &str) -> (out: String)
    ensures
        out@ == joined(equality_texts(equalities.deep_view()), sep@),
{
    let mut rendered: Vec<String> = Vec::new();
    let mut i: usize = 0;
    while i < equalities.len()
        invariant
            i <= equalities.len(),
            rendered.len() == i,
            forall|j: int|
                0 <= j < i ==> rendered[j]@ == equality_text(#[trigger] equalities[j]@),
        decreases equalities.len() - i,
    {
        rendered.push(render_equality(&equalities[i]));
        i += 1;
    }
    assert(texts(rendered@) =~= equality_texts(equalities.deep_view()));
    join(&rendered, sep)
}

/// Writes the condition of a WHERE clause.
pub fn render_where(predicates: &Vec<Equality>) -> (out: String)
    ensures
        out@ == where_text(predicates.deep_view()),
{
    if predicates.len() == 0 {
        String::from_str("1 = 1")
    } else {
        render_equalities(predicates, " AND ")
    }
}

/// Writes a SELECT statement.
pub fn render_select(table: &str, columns: &Vec<String>, predicates: &Vec<Equality>) -> (sql:
    String)
    ensures
        sql@ == select_sql(table@, columns.deep_view(), predicates.deep_view()),
{
    assert(texts(columns@) =~= columns.deep_view());
    let mut sql = String::from_str("SELECT ");
    sql.append(join(columns, ", ").as_str());
    sql.append(" FROM ");
    sql.append(table);
    sql.append(" WHERE ");
    sql.append(render_where(predicates).as_str());
    sql
}

/// Writes an UPDATE statement.
pub fn render_update(table: &str, assignments: &Vec<Equality>, predicates: &Vec<Equality>) -> (sql:
    String)
    ensures
        sql@ == update_sql(table@, assignments.deep_view(), predicates.deep_view()),
{
    let mut sql = String::from_str("UPDATE ");
    sql.append(table);
    sql.append(" SET ");
    sql.append(render_equalities(assignments, ", ").as_str());
    sql.append(" WHERE ");
    sql.append(render_where(predicates).as_str());
    sql
}

/// Writes a DROP TABLE statement.
pub fn render_drop(table: &str) -> (sql: String)
    ensures
        sql@ == drop_sql(table@),
{
    let mut sql = String::from_str("DROP TABLE ");
    sql.append(table);
    sql
}

} // verus!
