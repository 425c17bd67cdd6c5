use wacky_db::chaos::{ChaosVerdict, DivertKind};
use wacky_db::command::{ColumnDefinition, ColumnModifier, ColumnType, Command, Equality, Literal};
use wacky_db::db::WackyDB;
use wacky_db::execute::{
    calls_for_verdict, execute, plan_create_table, plan_drop, plan_insert, plan_select, plan_update,
    probe_from_answer, probe_table, Action, ExecutionError, Operation, Outcome, Probe,
};

fn two_columns() -> Vec<ColumnDefinition> {
    vec![
        ColumnDefinition {
            name: "id".to_string(),
            column_type: ColumnType::Integer,
            options: vec![ColumnModifier::PrimaryKey],
        },
        ColumnDefinition {
            name: "data".to_string(),
            column_type: ColumnType::Text,
            options: vec![ColumnModifier::NotNull],
        },
    ]
}

fn create_action() -> Action {
    Action {
        operation: Operation::CreateTable,
        table: "t".to_string(),
        sql: "CREATE TABLE t (id INTEGER PRIMARY KEY, data TEXT NOT NULL)".to_string(),
        params: vec![],
    }
}

fn insert_action() -> Action {
    Action {
        operation: Operation::Insert,
        table: "t".to_string(),
        sql: "INSERT INTO t VALUES (?, ?)".to_string(),
        params: vec!["1".to_string(), "a".to_string()],
    }
}

fn row() -> Vec<String> {
    vec!["1".to_string(), "a".to_string()]
}

const ALL_VERDICTS: [ChaosVerdict; 5] = [
    ChaosVerdict::Proceed,
    ChaosVerdict::Divert(DivertKind::GamingDiversion),
    ChaosVerdict::Divert(DivertKind::SimulatedCorruption),
    ChaosVerdict::Divert(DivertKind::SimulatedLoss),
    ChaosVerdict::Divert(DivertKind::NoOp),
];

#[test]
fn probe_query_binds_the_table_name() {
    let action = probe_table("records");
    assert_eq!(action.operation, Operation::Probe);
    assert_eq!(action.table, "records");
    assert_eq!(action.sql, "SELECT name FROM sqlite_master WHERE type='table' AND name=?");
    assert_eq!(action.params, vec!["records".to_string()]);
}

#[test]
fn probe_answers() {
    assert_eq!(probe_from_answer(Some(true)), Probe::Present);
    assert_eq!(probe_from_answer(Some(false)), Probe::Absent);
    assert_eq!(probe_from_answer(None), Probe::Unavailable);
}

#[test]
fn create_table_proceeds_when_absent() {
    assert_eq!(
        plan_create_table("t", &two_columns(), Probe::Absent, ChaosVerdict::Proceed, true),
        Ok(Outcome::Run(create_action()))
    );
}

#[test]
fn create_table_refused_when_present_under_every_verdict() {
    for verdict in ALL_VERDICTS {
        for won in [true, false] {
            assert_eq!(
                plan_create_table("t", &two_columns(), Probe::Present, verdict, won),
                Err(ExecutionError::TableAlreadyExists)
            );
        }
    }
}

#[test]
fn create_table_refused_when_catalog_unavailable() {
    for verdict in ALL_VERDICTS {
        assert_eq!(
            plan_create_table("t", &two_columns(), Probe::Unavailable, verdict, true),
            Err(ExecutionError::CatalogUnavailable)
        );
    }
}

#[test]
fn create_table_diverted() {
    let columns = two_columns();
    let plan = |kind, won| {
        plan_create_table("t", &columns, Probe::Absent, ChaosVerdict::Divert(kind), won)
    };
    assert_eq!(plan(DivertKind::NoOp, false), Ok(Outcome::Skipped));
    assert_eq!(plan(DivertKind::GamingDiversion, true), Ok(Outcome::Skipped));
    assert_eq!(
        plan(DivertKind::GamingDiversion, false),
        Err(ExecutionError::Diverted(DivertKind::GamingDiversion))
    );
    assert_eq!(
        plan(DivertKind::SimulatedCorruption, true),
        Err(ExecutionError::Diverted(DivertKind::SimulatedCorruption))
    );
    assert_eq!(
        plan(DivertKind::SimulatedLoss, true),
        Err(ExecutionError::Diverted(DivertKind::SimulatedLoss))
    );
}

#[test]
fn insert_proceeds_with_bound_values() {
    assert_eq!(
        plan_insert("t", row(), ChaosVerdict::Proceed, true),
        Ok(Outcome::Run(insert_action()))
    );
}

#[test]
fn insert_values_are_bound_not_written_into_the_statement() {
    let hostile = vec!["x'); DROP TABLE t; --".to_string()];
    match plan_insert("t", hostile.clone(), ChaosVerdict::Proceed, true) {
        Ok(Outcome::Run(action)) => {
            assert_eq!(action.sql, "INSERT INTO t VALUES (?)");
            assert_eq!(action.params, hostile);
        }
        other => panic!("unexpected {:?}", other),
    }
}

#[test]
fn insert_noop_reports_success_without_action() {
    assert_eq!(
        plan_insert("t", row(), ChaosVerdict::Divert(DivertKind::NoOp), true),
        Ok(Outcome::Skipped)
    );
}

#[test]
fn insert_corruption_and_loss_fail_with_fixed_message() {
    let burnt = plan_insert("t", row(), ChaosVerdict::Divert(DivertKind::SimulatedCorruption), true);
    assert_eq!(burnt, Err(ExecutionError::Diverted(DivertKind::SimulatedCorruption)));
    assert_eq!(burnt.unwrap_err().message("t"), "Oh no, the database is on fire! 🔥");
    let lost = plan_insert("t", row(), ChaosVerdict::Divert(DivertKind::SimulatedLoss), true);
    assert_eq!(lost, Err(ExecutionError::Diverted(DivertKind::SimulatedLoss)));
    assert_eq!(
        lost.unwrap_err().message("another"),
        "Oops, I dropped your data in the trash! I think I can recover it?"
    );
}

#[test]
fn insert_game_lost_fails_with_fixed_message() {
    let lost = plan_insert("t", row(), ChaosVerdict::Divert(DivertKind::GamingDiversion), false);
    assert_eq!(lost, Err(ExecutionError::Diverted(DivertKind::GamingDiversion)));
    assert_eq!(
        lost.unwrap_err().message("t"),
        "You lost the game! You also lost some PRECIOUS data as well!"
    );
}

#[test]
fn error_messages_name_the_table() {
    assert_eq!(ExecutionError::TableAlreadyExists.message("t"), "Table 't' already exists.");
    assert_eq!(
        ExecutionError::CatalogUnavailable.message("t"),
        "Could not look up table 't' in the catalog."
    );
}

#[test]
fn select_update_and_drop_plans() {
    let predicates =
        vec![Equality { column: "id".to_string(), literal: Literal::Number("1".to_string()) }];
    let assignments =
        vec![Equality { column: "data".to_string(), literal: Literal::Text("b".to_string()) }];
    let read = plan_select("t", &vec!["*".to_string()], &predicates);
    assert_eq!(read.operation, Operation::Select);
    assert_eq!(read.sql, "SELECT * FROM t WHERE id = 1");
    assert!(read.params.is_empty());
    let write = plan_update("t", &assignments, &predicates);
    assert_eq!(write.operation, Operation::Update);
    assert_eq!(write.table, "t");
    assert_eq!(write.sql, "UPDATE t SET data = 'b' WHERE id = 1");
    assert!(write.params.is_empty());
    let drop = plan_drop("t");
    assert_eq!(drop.operation, Operation::DropTable);
    assert_eq!(drop.sql, "DROP TABLE t");
    assert!(drop.params.is_empty());
}

#[test]
fn execute_dispatches_on_the_command() {
    let create = Command::CreateTable { table: "t".to_string(), columns: two_columns() };
    assert_eq!(
        execute(create.clone(), Probe::Absent, ChaosVerdict::Proceed, true),
        Ok(Outcome::Run(create_action()))
    );
    assert_eq!(
        execute(create, Probe::Present, ChaosVerdict::Proceed, true),
        Err(ExecutionError::TableAlreadyExists)
    );
    let insert = Command::Insert { table: "t".to_string(), values: row() };
    assert_eq!(
        execute(insert, Probe::Present, ChaosVerdict::Proceed, true),
        Ok(Outcome::Run(insert_action()))
    );
}

#[test]
fn reads_updates_and_drops_are_never_diverted() {
    let commands = vec![
        Command::Select { table: "t".to_string(), columns: vec!["*".to_string()], predicates: vec![] },
        Command::Update {
            table: "t".to_string(),
            assignments: vec![Equality {
                column: "data".to_string(),
                literal: Literal::Text("b".to_string()),
            }],
            predicates: vec![],
        },
        Command::Drop { table: "t".to_string() },
    ];
    for command in commands {
        assert!(!command.is_gated());
        let plain = execute(command.clone(), Probe::Absent, ChaosVerdict::Proceed, true);
        assert!(matches!(plain, Ok(Outcome::Run(_))));
        for verdict in ALL_VERDICTS {
            for probe in [Probe::Present, Probe::Absent, Probe::Unavailable] {
                assert_eq!(execute(command.clone(), probe, verdict, false), plain);
            }
        }
    }
}

#[test]
fn gated_commands_are_create_and_insert() {
    assert!(Command::CreateTable { table: "t".to_string(), columns: vec![] }.is_gated());
    assert!(Command::Insert { table: "t".to_string(), values: vec![] }.is_gated());
    assert_eq!(Command::Drop { table: "gone".to_string() }.table(), "gone");
}

#[test]
fn database_create_table_refuses_present_table() {
    let mut db = WackyDB::new("wacky_db.sqlite").unwrap();
    for _ in 0..50 {
        assert_eq!(
            db.create_table("t", &two_columns(), Probe::Present),
            Err(ExecutionError::TableAlreadyExists)
        );
    }
    assert_eq!(db.name(), "wacky_db.sqlite");
}

#[test]
fn database_insert_ends_in_one_of_the_planned_ways() {
    let mut db = WackyDB::new("wacky_db.sqlite").unwrap();
    let mut ran = 0;
    for _ in 0..500 {
        match db.insert("t", row()) {
            Ok(Outcome::Run(action)) => {
                assert_eq!(action, insert_action());
                ran += 1;
            }
            Ok(Outcome::Skipped) => {}
            Err(ExecutionError::Diverted(kind)) => {
                assert!(
                    kind == DivertKind::SimulatedCorruption || kind == DivertKind::SimulatedLoss
                );
            }
            Err(other) => panic!("unexpected {:?}", other),
        }
    }
    assert!(ran > 200);
}

#[test]
fn database_run_leaves_reads_alone() {
    let mut db = WackyDB::new("db").unwrap();
    let read =
        Command::Select { table: "t".to_string(), columns: vec!["id".to_string()], predicates: vec![] };
    for _ in 0..50 {
        match db.run(read.clone(), Probe::Present) {
            Ok(Outcome::Run(action)) => assert_eq!(action.sql, "SELECT id FROM t WHERE 1 = 1"),
            other => panic!("unexpected {:?}", other),
        }
    }
    assert_eq!(db.select("t", &vec!["id".to_string()], &vec![]).sql, "SELECT id FROM t WHERE 1 = 1");
    assert_eq!(db.drop_table("t").sql, "DROP TABLE t");
    assert_eq!(db.table_exists("t"), probe_table("t"));
}

#[test]
fn database_update_is_planned_without_a_verdict() {
    let db = WackyDB::new("db").unwrap();
    let assignments =
        vec![Equality { column: "data".to_string(), literal: Literal::Text("b".to_string()) }];
    let predicates =
        vec![Equality { column: "id".to_string(), literal: Literal::Number("1".to_string()) }];
    let action = db.update("t", &assignments, &predicates);
    assert_eq!(action, plan_update("t", &assignments, &predicates));
    assert_eq!(action.sql, "UPDATE t SET data = 'b' WHERE id = 1");
}

#[test]
fn database_create_table_ends_in_one_of_the_planned_ways() {
    let mut db = WackyDB::new("db").unwrap();
    let mut ran = 0;
    for _ in 0..500 {
        match db.create_table("t", &two_columns(), Probe::Absent) {
            Ok(Outcome::Run(action)) => {
                assert_eq!(action, create_action());
                ran += 1;
            }
            Ok(Outcome::Skipped) => {}
            Err(ExecutionError::Diverted(kind)) => {
                assert!(
                    kind == DivertKind::SimulatedCorruption || kind == DivertKind::SimulatedLoss
                );
            }
            Err(other) => panic!("unexpected {:?}", other),
        }
    }
    assert!(ran > 200);
}

#[test]
fn verdict_is_drawn_only_where_it_decides() {
    let create = Command::CreateTable { table: "t".to_string(), columns: two_columns() };
    assert!(calls_for_verdict(&create, Probe::Absent));
    assert!(!calls_for_verdict(&create, Probe::Present));
    assert!(!calls_for_verdict(&create, Probe::Unavailable));
    let insert = Command::Insert { table: "t".to_string(), values: row() };
    let drop = Command::Drop { table: "t".to_string() };
    let read =
        Command::Select { table: "t".to_string(), columns: vec!["*".to_string()], predicates: vec![] };
    let update = Command::Update { table: "t".to_string(), assignments: vec![], predicates: vec![] };
    for probe in [Probe::Present, Probe::Absent, Probe::Unavailable] {
        assert!(calls_for_verdict(&insert, probe));
        assert!(!calls_for_verdict(&drop, probe));
        assert!(!calls_for_verdict(&read, probe));
        assert!(!calls_for_verdict(&update, probe));
    }
}
