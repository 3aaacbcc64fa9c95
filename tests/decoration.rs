use pg_upsert::action::{do_nothing, do_update};
use pg_upsert::column::{Assignment, Column};
use pg_upsert::error::CompositionError;
use pg_upsert::extension::OnConflictExtension;
use pg_upsert::statement::insert_into;
use pg_upsert::target::{on_constraint, ConflictTarget};
use pg_upsert::values::{InsertValues, Record};

fn col(table: &str, name: &str) -> Column {
    Column::new(table, name).unwrap()
}

fn user(id: &str, name: &str) -> Record {
    Record::new(vec![col("users", "id").eq(id), col("users", "name").eq(name)])
}

fn user_with_hair(id: &str, name: &str, hair: &str) -> Record {
    Record::new(vec![col("users", "id").eq(id), col("users", "name").eq(name), col("users", "hair_color").eq(hair)])
}

const ROWS: &str = "INSERT INTO users (id, name) VALUES (1, 'Sean')";

#[test]
fn bare_decoration_on_single_record() {
    let record = user("1", "'Sean'");
    let decorated = record.on_conflict_do_nothing();
    assert_eq!(decorated.trailing_clause(), Some("ON CONFLICT DO NOTHING".to_string()));
    let statement = insert_into("users").unwrap().values(&decorated).unwrap();
    assert_eq!(statement.append_clause(ROWS.to_string()), format!("{} ON CONFLICT DO NOTHING", ROWS));
}

#[test]
fn bare_decoration_on_lone_assignment() {
    let single: Assignment = col("users", "id").eq("1");
    let decorated = single.on_conflict_do_nothing();
    assert_eq!(decorated.trailing_clause(), Some("ON CONFLICT DO NOTHING".to_string()));
    assert!(insert_into("users").unwrap().values(&decorated).is_ok());
}

#[test]
fn bare_decoration_on_vector_of_records() {
    let records = vec![user("1", "'Sean'"), user("1", "'Sean'")];
    let decorated = records.on_conflict_do_nothing();
    assert_eq!(decorated.trailing_clause(), Some("ON CONFLICT DO NOTHING".to_string()));
    let statement = insert_into("users").unwrap().values(&decorated).unwrap();
    assert_eq!(statement.trailing_clause(), Some("ON CONFLICT DO NOTHING".to_string()));
}

#[test]
fn bare_decoration_on_optional_record() {
    let record = Some(user("1", "'Sean'"));
    let decorated = record.on_conflict_do_nothing();
    assert_eq!(decorated.trailing_clause(), Some("ON CONFLICT DO NOTHING".to_string()));
    let none: Option<Record> = None;
    let decorated = none.on_conflict_do_nothing();
    assert!(insert_into("users").unwrap().values(&decorated).is_ok());
}

#[test]
fn statement_decoration_matches_row_decoration() {
    let record = user("1", "'Sean'");
    let by_rows = insert_into("users").unwrap().values(&record.on_conflict_do_nothing()).unwrap().append_clause(ROWS.to_string());
    let by_statement = insert_into("users").unwrap().values(&record).unwrap().on_conflict_do_nothing().append_clause(ROWS.to_string());
    assert_eq!(by_rows, by_statement);
    assert_eq!(by_statement, "INSERT INTO users (id, name) VALUES (1, 'Sean') ON CONFLICT DO NOTHING");
}

#[test]
fn undecorated_statement_has_no_trailing_clause() {
    let record = user("1", "'Sean'");
    let statement = insert_into("users").unwrap().values(&record).unwrap();
    assert_eq!(statement.trailing_clause(), None);
    assert_eq!(statement.append_clause(ROWS.to_string()), ROWS);
    let records = vec![user("1", "'Sean'")];
    let statement = insert_into("users").unwrap().values(records).unwrap().on_conflict_do_nothing();
    assert_eq!(statement.trailing_clause(), Some("ON CONFLICT DO NOTHING".to_string()));
}

#[test]
fn secondary_column_target_is_rendered() {
    let same_name_different_id = user("2", "'Sean'");
    let decorated = same_name_different_id.on_conflict(ConflictTarget::column(col("users", "name")), do_nothing());
    let statement = insert_into("users").unwrap().values(&decorated).unwrap();
    assert_eq!(statement.trailing_clause(), Some("ON CONFLICT (name) DO NOTHING".to_string()));
}

#[test]
fn tuple_target_is_rendered() {
    let record = user_with_hair("2", "'Sean'", "'brown'");
    let target = ConflictTarget::columns(vec![col("users", "name"), col("users", "hair_color")]).unwrap();
    let decorated = record.on_conflict(target, do_nothing());
    let statement = insert_into("users").unwrap().values(&decorated).unwrap();
    assert_eq!(statement.trailing_clause(), Some("ON CONFLICT (name, hair_color) DO NOTHING".to_string()));
}

#[test]
fn constraint_target_decoration() {
    let record = user("1", "'Pascal'");
    let decorated = record.on_conflict(on_constraint("users_name").unwrap(), do_nothing());
    assert_eq!(decorated.trailing_clause(), Some("ON CONFLICT ON CONSTRAINT users_name DO NOTHING".to_string()));
}

#[test]
fn update_decoration_renders_assignments() {
    let record = user("1", "'Pascal'");
    let action = do_update(vec![col("users", "name").eq("excluded.name")]).unwrap();
    let decorated = record.on_conflict(ConflictTarget::column(col("users", "id")), action);
    let statement = insert_into("users").unwrap().values(&decorated).unwrap();
    assert_eq!(
        statement.append_clause(ROWS.to_string()),
        format!("{} ON CONFLICT (id) DO UPDATE SET name = excluded.name", ROWS)
    );
}

#[test]
fn foreign_rows_are_rejected() {
    let record = Record::new(vec![col("posts", "id").eq("1")]);
    assert!(matches!(insert_into("users").unwrap().values(&record), Err(CompositionError::ForeignColumn)));
    let records = vec![user("1", "'Sean'"), Record::new(vec![col("posts", "id").eq("1")])];
    assert!(matches!(insert_into("users").unwrap().values(&records), Err(CompositionError::ForeignColumn)));
}

#[test]
fn foreign_clause_columns_are_rejected() {
    let record = user("1", "'Sean'");
    let decorated = record.on_conflict(ConflictTarget::column(col("posts", "title")), do_nothing());
    assert!(matches!(insert_into("users").unwrap().values(&decorated), Err(CompositionError::ForeignColumn)));
    let action = do_update(vec![col("posts", "title").eq("'x'")]).unwrap();
    let decorated = record.on_conflict(ConflictTarget::NoTarget, action);
    assert!(matches!(insert_into("users").unwrap().values(&decorated), Err(CompositionError::ForeignColumn)));
}

#[test]
fn invalid_table_name_is_rejected() {
    assert!(matches!(insert_into("my table"), Err(CompositionError::InvalidIdentifier)));
}

#[test]
fn bare_decoration_on_slice_of_records() {
    let records = vec![user("1", "'Sean'"), user("1", "'Sean'")];
    let slice: &[Record] = &records;
    let decorated = slice.on_conflict_do_nothing();
    assert_eq!(decorated.trailing_clause(), Some("ON CONFLICT DO NOTHING".to_string()));
    let statement = insert_into("users").unwrap().values(&decorated).unwrap();
    assert_eq!(statement.append_clause(ROWS.to_string()), format!("{} ON CONFLICT DO NOTHING", ROWS));
}
