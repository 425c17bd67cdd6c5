use wacky_db::ast::{
    ColumnSpec, Condition, Constraint, DeclaredType, ParsedStatement, QueryBody, RowSource,
    SetClause, TableRef, Term,
};
use wacky_db::command::{
    ColumnDefinition, ColumnModifier, ColumnType, Command, Equality, Literal,
};
use wacky_db::execute::Probe;
use wacky_db::translate::{
    check_presence, ends_batch, probe_target, single_segment, translate, translate_column,
};
use wacky_db::translation::{Notice, TranslateError, Translation};

fn name(segments: &[&str]) -> Vec<String> {
    segments.iter().map(|s| s.to_string()).collect()
}

fn columns(list: &[&str]) -> Vec<Option<String>> {
    list.iter().map(|s| Some(s.to_string())).collect()
}

fn text(value: &str) -> Term {
    Term::Text(value.to_string())
}

fn number(value: &str) -> Term {
    Term::Number(value.to_string())
}

fn ident(value: &str) -> Term {
    Term::Identifier(value.to_string())
}

fn equals(left: Term, right: Term) -> Option<Condition> {
    Some(Condition::Comparison { left, equality: true, right })
}

fn select_from(table: TableRef, selection: Option<Condition>) -> ParsedStatement {
    ParsedStatement::Query {
        body: QueryBody::Select { projection: columns(&["id", "data"]), from: vec![table], selection },
    }
}

const PROBES: [Probe; 3] = [Probe::Present, Probe::Absent, Probe::Unavailable];

#[test]
fn single_segment_names() {
    assert_eq!(single_segment(&name(&["t"])), Ok("t".to_string()));
    assert_eq!(single_segment(&name(&["s", "t"])), Err(TranslateError::QualifiedNameNotAllowed));
    assert_eq!(
        single_segment(&name(&["d", "s", "t"])),
        Err(TranslateError::QualifiedNameNotAllowed)
    );
    assert_eq!(single_segment(&name(&[])), Err(TranslateError::UnsupportedStatement));
}

#[test]
fn presence_check() {
    assert_eq!(check_presence(Probe::Present), Ok(()));
    assert_eq!(check_presence(Probe::Absent), Err(TranslateError::TableNotFound));
    assert_eq!(check_presence(Probe::Unavailable), Err(TranslateError::CatalogUnavailable));
}

#[test]
fn column_types_and_modifiers() {
    let spec = ColumnSpec {
        name: "id".to_string(),
        declared: DeclaredType::Integer,
        constraints: vec![
            Constraint::Other,
            Constraint::Unique { is_primary: true },
            Constraint::Other,
            Constraint::NotNull,
            Constraint::Unique { is_primary: false },
        ],
    };
    assert_eq!(
        translate_column(&spec),
        ColumnDefinition {
            name: "id".to_string(),
            column_type: ColumnType::Integer,
            options: vec![
                ColumnModifier::PrimaryKey,
                ColumnModifier::NotNull,
                ColumnModifier::Unique
            ],
        }
    );
    let other =
        ColumnSpec { name: "x".to_string(), declared: DeclaredType::Other, constraints: vec![] };
    assert_eq!(translate_column(&other).column_type, ColumnType::Unknown);
    let text =
        ColumnSpec { name: "x".to_string(), declared: DeclaredType::Text, constraints: vec![] };
    assert_eq!(translate_column(&text).column_type, ColumnType::Text);
}

#[test]
fn repeated_modifiers_are_kept_once_where_they_first_stand() {
    let spec = ColumnSpec {
        name: "id".to_string(),
        declared: DeclaredType::Integer,
        constraints: vec![
            Constraint::NotNull,
            Constraint::NotNull,
            Constraint::Unique { is_primary: true },
            Constraint::Unique { is_primary: false },
            Constraint::NotNull,
            Constraint::Unique { is_primary: true },
        ],
    };
    assert_eq!(
        translate_column(&spec).options,
        vec![ColumnModifier::NotNull, ColumnModifier::PrimaryKey, ColumnModifier::Unique]
    );
}

#[test]
fn create_table_gives_one_command_whatever_the_catalog_says() {
    let statement = ParsedStatement::CreateTable {
        name: name(&["t"]),
        columns: vec![ColumnSpec {
            name: "id".to_string(),
            declared: DeclaredType::Integer,
            constraints: vec![Constraint::Unique { is_primary: true }],
        }],
    };
    let expected = Translation {
        commands: vec![Command::CreateTable {
            table: "t".to_string(),
            columns: vec![ColumnDefinition {
                name: "id".to_string(),
                column_type: ColumnType::Integer,
                options: vec![ColumnModifier::PrimaryKey],
            }],
        }],
        notices: vec![],
    };
    for probe in PROBES {
        assert_eq!(translate(&statement, probe), Ok(expected.clone()));
    }
    assert_eq!(probe_target(&statement), Some("t".to_string()));
}

#[test]
fn qualified_names_are_rejected_in_every_statement() {
    let qualified = name(&["main", "t"]);
    let statements = vec![
        ParsedStatement::CreateTable { name: qualified.clone(), columns: vec![] },
        ParsedStatement::Insert {
            table: qualified.clone(),
            source: RowSource::Values(vec![vec![number("1")]]),
        },
        select_from(TableRef::Named(qualified.clone()), None),
        ParsedStatement::Update {
            table: TableRef::Named(qualified.clone()),
            assignments: vec![SetClause { target: "data".to_string(), value: text("b") }],
            selection: None,
        },
        ParsedStatement::Drop { names: vec![qualified.clone()] },
        ParsedStatement::Drop { names: vec![name(&["a"]), qualified.clone(), name(&["b"])] },
    ];
    for statement in &statements {
        for probe in PROBES {
            assert_eq!(translate(statement, probe), Err(TranslateError::QualifiedNameNotAllowed));
        }
        assert_eq!(probe_target(statement), None);
    }
}

#[test]
fn insert_into_missing_table_is_table_not_found() {
    let statement = ParsedStatement::Insert {
        table: name(&["t"]),
        source: RowSource::Values(vec![vec![number("1"), text("a")]]),
    };
    assert_eq!(translate(&statement, Probe::Absent), Err(TranslateError::TableNotFound));
    assert_eq!(translate(&statement, Probe::Unavailable), Err(TranslateError::CatalogUnavailable));
    assert_eq!(probe_target(&statement), Some("t".to_string()));
}

#[test]
fn insert_gives_one_command_per_row() {
    let statement = ParsedStatement::Insert {
        table: name(&["t"]),
        source: RowSource::Values(vec![
            vec![number("1"), text("a")],
            vec![number("2"), text("b")],
        ]),
    };
    assert_eq!(
        translate(&statement, Probe::Present),
        Ok(Translation {
            commands: vec![
                Command::Insert { table: "t".to_string(), values: name(&["1", "a"]) },
                Command::Insert { table: "t".to_string(), values: name(&["2", "b"]) },
            ],
            notices: vec![],
        })
    );
}

#[test]
fn insert_leaves_out_what_is_no_literal() {
    let statement = ParsedStatement::Insert {
        table: name(&["t"]),
        source: RowSource::Values(vec![
            vec![number("1"), Term::Other, text("a")],
            vec![ident("x"), number("2")],
            vec![Term::Other],
        ]),
    };
    assert_eq!(
        translate(&statement, Probe::Present),
        Ok(Translation {
            commands: vec![
                Command::Insert { table: "t".to_string(), values: name(&["1", "a"]) },
                Command::Insert { table: "t".to_string(), values: name(&["2"]) },
                Command::Insert { table: "t".to_string(), values: vec![] },
            ],
            notices: vec![
                Notice::ValueSkipped { row: 0, index: 1 },
                Notice::ValueSkipped { row: 1, index: 0 },
                Notice::ValueSkipped { row: 2, index: 0 },
            ],
        })
    );
}

#[test]
fn insert_needs_a_values_list() {
    for source in [RowSource::Other, RowSource::Missing] {
        let statement = ParsedStatement::Insert { table: name(&["t"]), source };
        assert_eq!(translate(&statement, Probe::Present), Err(TranslateError::UnsupportedStatement));
        assert_eq!(translate(&statement, Probe::Absent), Err(TranslateError::TableNotFound));
    }
}

#[test]
fn select_without_condition() {
    let statement = select_from(TableRef::Named(name(&["t"])), None);
    assert_eq!(
        translate(&statement, Probe::Present),
        Ok(Translation {
            commands: vec![Command::Select {
                table: "t".to_string(),
                columns: name(&["id", "data"]),
                predicates: vec![],
            }],
            notices: vec![],
        })
    );
    assert_eq!(translate(&statement, Probe::Absent), Err(TranslateError::TableNotFound));
    assert_eq!(translate(&statement, Probe::Unavailable), Err(TranslateError::CatalogUnavailable));
    assert_eq!(probe_target(&statement), Some("t".to_string()));
}

#[test]
fn select_keeps_the_kind_of_the_literal() {
    let by_number = select_from(TableRef::Named(name(&["t"])), equals(ident("id"), number("1")));
    let by_text = select_from(TableRef::Named(name(&["t"])), equals(ident("data"), text("a")));
    let predicates = |statement: &ParsedStatement| match translate(statement, Probe::Present) {
        Ok(Translation { commands, notices }) => {
            assert!(notices.is_empty());
            match &commands[..] {
                [Command::Select { predicates, .. }] => predicates.clone(),
                other => panic!("unexpected {:?}", other),
            }
        }
        Err(error) => panic!("unexpected {:?}", error),
    };
    assert_eq!(
        predicates(&by_number),
        vec![Equality { column: "id".to_string(), literal: Literal::Number("1".to_string()) }]
    );
    assert_eq!(
        predicates(&by_text),
        vec![Equality { column: "data".to_string(), literal: Literal::Text("a".to_string()) }]
    );
}

#[test]
fn select_ignores_a_condition_of_another_shape() {
    let conditions = vec![
        Some(Condition::Other),
        Some(Condition::Comparison { left: ident("id"), equality: false, right: number("1") }),
        equals(number("1"), ident("id")),
        equals(ident("id"), ident("other")),
        equals(ident("id"), Term::Other),
        equals(Term::Other, number("1")),
        equals(text("id"), number("1")),
    ];
    for condition in conditions {
        let statement = select_from(TableRef::Named(name(&["t"])), condition);
        assert_eq!(
            translate(&statement, Probe::Present),
            Ok(Translation {
                commands: vec![Command::Select {
                    table: "t".to_string(),
                    columns: name(&["id", "data"]),
                    predicates: vec![],
                }],
                notices: vec![Notice::ConditionIgnored],
            })
        );
    }
}

#[test]
fn select_needs_a_plain_table() {
    let no_source = ParsedStatement::Query {
        body: QueryBody::Select { projection: columns(&["a"]), from: vec![], selection: None },
    };
    let statements = vec![
        no_source,
        select_from(TableRef::Other, None),
        select_from(TableRef::Named(vec![]), None),
        ParsedStatement::Query { body: QueryBody::Other },
    ];
    for statement in &statements {
        for probe in PROBES {
            assert_eq!(translate(statement, probe), Err(TranslateError::UnsupportedStatement));
        }
        assert_eq!(probe_target(statement), None);
    }
}

#[test]
fn select_reads_the_first_source() {
    let statement = ParsedStatement::Query {
        body: QueryBody::Select {
            projection: columns(&["*"]),
            from: vec![TableRef::Named(name(&["t"])), TableRef::Named(name(&["s", "u"]))],
            selection: None,
        },
    };
    match translate(&statement, Probe::Present) {
        Ok(translation) => assert_eq!(translation.commands[0].table(), "t"),
        Err(error) => panic!("unexpected {:?}", error),
    }
}

#[test]
fn update_does_not_ask_the_catalog() {
    let statement = ParsedStatement::Update {
        table: TableRef::Named(name(&["t"])),
        assignments: vec![SetClause { target: "data".to_string(), value: text("b") }],
        selection: equals(ident("id"), number("1")),
    };
    let expected = Translation {
        commands: vec![Command::Update {
            table: "t".to_string(),
            assignments: vec![Equality {
                column: "data".to_string(),
                literal: Literal::Text("b".to_string()),
            }],
            predicates: vec![Equality {
                column: "id".to_string(),
                literal: Literal::Number("1".to_string()),
            }],
        }],
        notices: vec![],
    };
    for probe in PROBES {
        assert_eq!(translate(&statement, probe), Ok(expected.clone()));
    }
    assert_eq!(probe_target(&statement), None);
}

#[test]
fn update_leaves_out_assignments_that_set_no_literal() {
    let statement = ParsedStatement::Update {
        table: TableRef::Named(name(&["t"])),
        assignments: vec![
            SetClause { target: "a".to_string(), value: Term::Other },
            SetClause { target: "b".to_string(), value: number("2") },
            SetClause { target: "c".to_string(), value: ident("b") },
        ],
        selection: Some(Condition::Other),
    };
    assert_eq!(
        translate(&statement, Probe::Absent),
        Ok(Translation {
            commands: vec![Command::Update {
                table: "t".to_string(),
                assignments: vec![Equality {
                    column: "b".to_string(),
                    literal: Literal::Number("2".to_string()),
                }],
                predicates: vec![],
            }],
            notices: vec![
                Notice::AssignmentSkipped { index: 0 },
                Notice::AssignmentSkipped { index: 2 },
                Notice::ConditionIgnored,
            ],
        })
    );
}

#[test]
fn update_without_a_literal_assignment_is_unsupported() {
    let none = ParsedStatement::Update {
        table: TableRef::Named(name(&["t"])),
        assignments: vec![SetClause { target: "a".to_string(), value: Term::Other }],
        selection: None,
    };
    assert_eq!(translate(&none, Probe::Present), Err(TranslateError::UnsupportedExpression));
    let empty = ParsedStatement::Update {
        table: TableRef::Named(name(&["t"])),
        assignments: vec![],
        selection: None,
    };
    assert_eq!(translate(&empty, Probe::Present), Err(TranslateError::UnsupportedExpression));
    let joined =
        ParsedStatement::Update { table: TableRef::Other, assignments: vec![], selection: None };
    assert_eq!(translate(&joined, Probe::Present), Err(TranslateError::UnsupportedStatement));
}

#[test]
fn drop_gives_one_command_per_name() {
    let statement = ParsedStatement::Drop { names: vec![name(&["a"]), name(&["b"])] };
    assert_eq!(
        translate(&statement, Probe::Absent),
        Ok(Translation {
            commands: vec![
                Command::Drop { table: "a".to_string() },
                Command::Drop { table: "b".to_string() },
            ],
            notices: vec![],
        })
    );
    assert_eq!(probe_target(&statement), None);
}

#[test]
fn drop_with_one_qualified_name_drops_nothing_and_ends_the_batch() {
    let statement =
        ParsedStatement::Drop { names: vec![name(&["a"]), vec![], name(&["s", "b"])] };
    let result = translate(&statement, Probe::Present);
    assert_eq!(result, Err(TranslateError::QualifiedNameNotAllowed));
    assert!(ends_batch(&statement, TranslateError::QualifiedNameNotAllowed));
    let nameless = ParsedStatement::Drop { names: vec![name(&["a"]), vec![]] };
    assert_eq!(translate(&nameless, Probe::Present), Err(TranslateError::UnsupportedStatement));
    assert!(!ends_batch(&nameless, TranslateError::UnsupportedStatement));
}

#[test]
fn only_a_drop_ends_the_batch() {
    let create = ParsedStatement::CreateTable { name: name(&["s", "t"]), columns: vec![] };
    assert!(!ends_batch(&create, TranslateError::QualifiedNameNotAllowed));
    assert!(!ends_batch(&ParsedStatement::Other, TranslateError::UnsupportedStatement));
}

#[test]
fn other_statements_are_unsupported() {
    for probe in PROBES {
        assert_eq!(
            translate(&ParsedStatement::Other, probe),
            Err(TranslateError::UnsupportedStatement)
        );
    }
    assert_eq!(probe_target(&ParsedStatement::Other), None);
}

#[test]
fn translate_error_messages() {
    assert_eq!(
        TranslateError::QualifiedNameNotAllowed.message("t"),
        "Sorry, WackyDB doesn't do schemas or databases! Only tables are allowed in this land."
    );
    assert_eq!(TranslateError::TableNotFound.message("t"), "Error: Table 't' does not exist.");
    assert_eq!(
        TranslateError::CatalogUnavailable.message("t"),
        "Error: Table 't' could not be looked up."
    );
    assert_eq!(TranslateError::UnsupportedStatement.message("t"), "Unimplemented statement.");
    assert_eq!(TranslateError::UnsupportedExpression.message("t"), "Unimplemented expression.");
}

#[test]
fn select_projects_column_references_only() {
    let statement = |projection| ParsedStatement::Query {
        body: QueryBody::Select {
            projection,
            from: vec![TableRef::Named(name(&["t"]))],
            selection: None,
        },
    };
    for projection in [
        vec![None],
        vec![Some("id".to_string()), None],
        vec![None, Some("id".to_string())],
    ] {
        let refused = statement(projection);
        assert_eq!(translate(&refused, Probe::Present), Err(TranslateError::UnsupportedExpression));
        assert_eq!(translate(&refused, Probe::Absent), Err(TranslateError::TableNotFound));
    }
    let nothing = statement(vec![]);
    match translate(&nothing, Probe::Present) {
        Ok(translation) => assert_eq!(
            translation.commands,
            vec![Command::Select { table: "t".to_string(), columns: vec![], predicates: vec![] }]
        ),
        Err(error) => panic!("unexpected {:?}", error),
    }
}
