use wacky_db::command::{ColumnDefinition, ColumnModifier, ColumnType, Equality, Literal};
use wacky_db::render::{
    render_column, render_create_table, render_drop, render_equalities, render_equality,
    render_insert, render_select, render_update, render_where,
};
use wacky_db::text::join;

fn column(name: &str, column_type: ColumnType, options: Vec<ColumnModifier>) -> ColumnDefinition {
    ColumnDefinition { name: name.to_string(), column_type, options }
}

fn text(column: &str, value: &str) -> Equality {
    Equality { column: column.to_string(), literal: Literal::Text(value.to_string()) }
}

fn number(column: &str, value: &str) -> Equality {
    Equality { column: column.to_string(), literal: Literal::Number(value.to_string()) }
}

#[test]
fn join_of_nothing_is_empty() {
    assert_eq!(join(&vec![], ", "), "");
}

#[test]
fn join_of_one_has_no_separator() {
    assert_eq!(join(&vec!["a".to_string()], ", "), "a");
}

#[test]
fn join_puts_separator_between() {
    let parts = vec!["a".to_string(), "".to_string(), "c".to_string()];
    assert_eq!(join(&parts, ", "), "a, , c");
    assert_eq!(join(&parts, ""), "ac");
}

#[test]
fn column_without_options() {
    assert_eq!(render_column(&column("id", ColumnType::Integer, vec![])), "id INTEGER");
    assert_eq!(render_column(&column("x", ColumnType::Unknown, vec![])), "x UNKNOWN");
}

#[test]
fn column_with_options_in_order() {
    let c = column(
        "data",
        ColumnType::Text,
        vec![ColumnModifier::NotNull, ColumnModifier::Unique, ColumnModifier::PrimaryKey],
    );
    assert_eq!(render_column(&c), "data TEXT NOT NULL UNIQUE PRIMARY KEY");
}

#[test]
fn create_table_statement() {
    let columns = vec![
        column("id", ColumnType::Integer, vec![ColumnModifier::PrimaryKey]),
        column("data", ColumnType::Text, vec![ColumnModifier::NotNull]),
    ];
    assert_eq!(
        render_create_table("records", &columns),
        "CREATE TABLE records (id INTEGER PRIMARY KEY, data TEXT NOT NULL)"
    );
}

#[test]
fn create_table_without_columns() {
    assert_eq!(render_create_table("t", &vec![]), "CREATE TABLE t ()");
}

#[test]
fn insert_has_one_placeholder_per_value() {
    assert_eq!(render_insert("t", 0), "INSERT INTO t VALUES ()");
    assert_eq!(render_insert("t", 1), "INSERT INTO t VALUES (?)");
    assert_eq!(render_insert("t", 3), "INSERT INTO t VALUES (?, ?, ?)");
}

#[test]
fn text_literal_is_quoted_and_number_is_bare() {
    assert_eq!(render_equality(&text("data", "b")), "data = 'b'");
    assert_eq!(render_equality(&number("id", "1")), "id = 1");
    assert_eq!(render_equality(&text("data", "")), "data = ''");
}

#[test]
fn equalities_joined() {
    let list = vec![number("id", "1"), text("data", "a")];
    assert_eq!(render_equalities(&list, ", "), "id = 1, data = 'a'");
    assert_eq!(render_equalities(&list, " AND "), "id = 1 AND data = 'a'");
}

#[test]
fn where_without_predicate_always_holds() {
    assert_eq!(render_where(&vec![]), "1 = 1");
}

#[test]
fn where_with_predicates_is_a_conjunction() {
    assert_eq!(render_where(&vec![number("id", "1")]), "id = 1");
    assert_eq!(
        render_where(&vec![number("id", "1"), text("data", "a"), number("n", "2.5")]),
        "id = 1 AND data = 'a' AND n = 2.5"
    );
}

#[test]
fn select_statement() {
    let columns = vec!["id".to_string(), "data".to_string()];
    assert_eq!(
        render_select("t", &columns, &vec![]),
        "SELECT id, data FROM t WHERE 1 = 1"
    );
    assert_eq!(
        render_select("t", &vec!["*".to_string()], &vec![text("data", "a")]),
        "SELECT * FROM t WHERE data = 'a'"
    );
}

#[test]
fn update_statement() {
    assert_eq!(
        render_update("t", &vec![text("data", "b")], &vec![number("id", "1")]),
        "UPDATE t SET data = 'b' WHERE id = 1"
    );
    assert_eq!(
        render_update("t", &vec![text("data", "b"), number("n", "7")], &vec![]),
        "UPDATE t SET data = 'b', n = 7 WHERE 1 = 1"
    );
}

#[test]
fn drop_statement() {
    assert_eq!(render_drop("records"), "DROP TABLE records");
}

#[test]
fn text_literal_is_written_as_it_is() {
    assert_eq!(render_equality(&text("data", "it's")), "data = 'it's'");
    assert_eq!(render_equality(&number("n", "-1.5e3")), "n = -1.5e3");
}
