use pg_upsert::action::{do_nothing, do_update, do_update_where, ConflictAction};
use pg_upsert::clause::OnConflictClause;
use pg_upsert::column::{check_identifier, Column};
use pg_upsert::error::CompositionError;
use pg_upsert::target::{on_constraint, ConflictTarget};

fn col(table: &str, name: &str) -> Column {
    Column::new(table, name).unwrap()
}

#[test]
fn columns_target_do_nothing_keeps_column_order() {
    let target = ConflictTarget::columns(vec![col("users", "name"), col("users", "hair_color")]).unwrap();
    let clause = OnConflictClause::new(target, do_nothing());
    assert_eq!(clause.render(), "ON CONFLICT (name, hair_color) DO NOTHING");

    let target = ConflictTarget::columns(vec![col("users", "hair_color"), col("users", "name"), col("users", "id")]).unwrap();
    let clause = OnConflictClause::new(target, do_nothing());
    assert_eq!(clause.render(), "ON CONFLICT (hair_color, name, id) DO NOTHING");
}

#[test]
fn single_column_target_renders_in_parentheses() {
    let clause = OnConflictClause::new(ConflictTarget::column(col("users", "id")), do_nothing());
    assert_eq!(clause.render(), "ON CONFLICT (id) DO NOTHING");
}

#[test]
fn no_target_do_nothing_has_single_spaces() {
    let clause = OnConflictClause::new(ConflictTarget::NoTarget, do_nothing());
    assert_eq!(clause.render(), "ON CONFLICT DO NOTHING");
    assert_eq!(OnConflictClause::do_nothing().render(), "ON CONFLICT DO NOTHING");
}

#[test]
fn constraint_target_renders_its_name() {
    let clause = OnConflictClause::new(on_constraint("users_name").unwrap(), do_nothing());
    assert_eq!(clause.render(), "ON CONFLICT ON CONSTRAINT users_name DO NOTHING");
}

#[test]
fn target_renders_alone() {
    assert_eq!(ConflictTarget::NoTarget.render(), "");
    assert_eq!(on_constraint("users_pkey").unwrap().render(), "ON CONSTRAINT users_pkey");
    assert_eq!(ConflictTarget::column(col("users", "id")).render(), "(id)");
}

#[test]
fn update_with_no_assignment_is_rejected() {
    assert!(matches!(do_update(vec![]), Err(CompositionError::EmptyAssignments)));
}

#[test]
fn update_of_one_column_twice_is_rejected() {
    let name = col("users", "name");
    let r = do_update(vec![name.eq("'Sean'"), col("users", "id").eq("2"), name.eq("'Tess'")]);
    assert!(matches!(r, Err(CompositionError::DuplicateColumn)));
}

#[test]
fn update_of_two_tables_is_rejected() {
    let r = do_update(vec![col("users", "name").eq("'Sean'"), col("posts", "title").eq("'Hi'")]);
    assert!(matches!(r, Err(CompositionError::MixedTables)));
}

#[test]
fn update_of_two_columns_keeps_order() {
    let action = do_update(vec![col("users", "name").eq("'Sean'"), col("users", "hair_color").eq("'black'")]).unwrap();
    assert_eq!(action.render(), "DO UPDATE SET name = 'Sean', hair_color = 'black'");
    let action = do_update(vec![col("users", "hair_color").eq("'black'"), col("users", "name").eq("'Sean'")]).unwrap();
    assert_eq!(action.render(), "DO UPDATE SET hair_color = 'black', name = 'Sean'");
}

#[test]
fn update_clause_renders_target_and_assignments() {
    let action = do_update(vec![col("users", "name").eq("excluded.name")]).unwrap();
    let clause = OnConflictClause::new(ConflictTarget::column(col("users", "id")), action);
    assert_eq!(clause.render(), "ON CONFLICT (id) DO UPDATE SET name = excluded.name");
    let action = do_update(vec![col("users", "name").eq("excluded.name")]).unwrap();
    let clause = OnConflictClause::new(ConflictTarget::NoTarget, action);
    assert_eq!(clause.render(), "ON CONFLICT DO UPDATE SET name = excluded.name");
}

#[test]
fn do_nothing_action_renders() {
    assert_eq!(ConflictAction::DoNothing.render(), "DO NOTHING");
}

#[test]
fn empty_column_target_is_rejected() {
    assert!(matches!(ConflictTarget::columns(vec![]), Err(CompositionError::EmptyTarget)));
}

#[test]
fn duplicate_column_target_is_rejected() {
    let r = ConflictTarget::columns(vec![col("users", "name"), col("users", "name")]);
    assert!(matches!(r, Err(CompositionError::DuplicateColumn)));
}

#[test]
fn mixed_table_target_is_rejected() {
    let r = ConflictTarget::columns(vec![col("users", "name"), col("posts", "name")]);
    assert!(matches!(r, Err(CompositionError::MixedTables)));
}

#[test]
fn unquotable_names_are_rejected() {
    assert!(matches!(Column::new("users", "first name"), Err(CompositionError::InvalidIdentifier)));
    assert!(matches!(Column::new("1users", "name"), Err(CompositionError::InvalidIdentifier)));
    assert!(matches!(Column::new("", "name"), Err(CompositionError::InvalidIdentifier)));
    assert!(matches!(on_constraint("users\"; DROP"), Err(CompositionError::InvalidIdentifier)));
    let bad = Column { table: "users".to_string(), name: "a-b".to_string() };
    let r = ConflictTarget::columns(vec![col("users", "id"), bad]);
    assert!(matches!(r, Err(CompositionError::InvalidIdentifier)));
}

#[test]
fn identifiers_are_recognised() {
    assert!(check_identifier("users_name"));
    assert!(check_identifier("_x9"));
    assert!(check_identifier("Z"));
    assert!(!check_identifier(""));
    assert!(!check_identifier("9x"));
    assert!(!check_identifier("a b"));
    assert!(!check_identifier("é"));
}

#[test]
fn filtered_update_renders_its_condition() {
    let action = do_update_where(vec![col("users", "name").eq("excluded.name")], "users.name <> excluded.name").unwrap();
    assert_eq!(action.render(), "DO UPDATE SET name = excluded.name WHERE users.name <> excluded.name");
    let clause = OnConflictClause::new(ConflictTarget::column(col("users", "id")), action);
    assert_eq!(clause.render(), "ON CONFLICT (id) DO UPDATE SET name = excluded.name WHERE users.name <> excluded.name");
}

#[test]
fn filtered_update_is_validated_like_an_update() {
    assert!(matches!(do_update_where(vec![], "true"), Err(CompositionError::EmptyAssignments)));
    let id = col("users", "id");
    let r = do_update_where(vec![id.eq("1"), id.eq("2")], "true");
    assert!(matches!(r, Err(CompositionError::DuplicateColumn)));
}
