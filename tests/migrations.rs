use crane::db::{Database, LATEST_SCHEMA_VERSION};
use crane::workspaces::{add_workspace, fetch_all_workspaces, WorkspaceInput};

#[test]
fn migrations_fill_the_ledger_in_order() {
    let mut db = Database::empty();
    db.run_migrations("t0".to_string());
    assert_eq!(db.ledger, vec![1, 2, 3]);
    assert_eq!(db.ledger.len() as u32, LATEST_SCHEMA_VERSION);
    assert!(db.settings.is_some());
}

#[test]
fn second_migration_run_changes_nothing() {
    let mut db = Database::new("t0".to_string());
    assert!(add_workspace(
        &mut db,
        WorkspaceInput {
            title: "Work".to_string(),
            description: String::new(),
            is_favourite: false,
            is_selected: true,
        },
        "t1".to_string()
    ));
    let ledger = db.ledger.clone();
    let settings_at = db.settings.as_ref().unwrap().created_at.clone();
    db.run_migrations("t2".to_string());
    db.run_migrations("t3".to_string());
    assert_eq!(db.ledger, ledger);
    assert_eq!(db.settings.as_ref().unwrap().created_at, settings_at);
    assert_eq!(fetch_all_workspaces(&db).len(), 1);
}

#[test]
fn partial_ledger_applies_only_pending_migrations() {
    let mut db = Database::empty();
    db.ledger = vec![1, 2];
    db.run_migrations("t9".to_string());
    assert_eq!(db.ledger, vec![1, 2, 3]);
    assert_eq!(db.settings.as_ref().unwrap().created_at, "t9");
}

fn workspace(id: u32) -> crane::workspaces::Workspace {
    crane::workspaces::Workspace {
        id,
        title: format!("w{}", id),
        description: String::new(),
        is_favourite: false,
        is_selected: false,
        created_at: "t".to_string(),
        modified_at: "t".to_string(),
        deleted_at: String::new(),
    }
}

fn seeded() -> crane::settings::UserSettings {
    Database::new("t".to_string()).settings.unwrap()
}

#[test]
fn rows_read_back_in_order_make_a_store() {
    let db = Database::from_parts(vec![1, 2, 3], vec![workspace(1), workspace(4)], vec![], Some(seeded()))
        .unwrap();
    assert_eq!(fetch_all_workspaces(&db)[0].id, 4);
}

#[test]
fn rows_out_of_order_are_refused() {
    assert!(Database::from_parts(vec![1, 2, 3], vec![workspace(4), workspace(1)], vec![], Some(seeded())).is_none());
    assert!(Database::from_parts(vec![1, 2, 3], vec![workspace(2), workspace(2)], vec![], Some(seeded())).is_none());
}

#[test]
fn broken_ledger_or_settings_are_refused() {
    assert!(Database::from_parts(vec![2, 3], vec![], vec![], None).is_none());
    assert!(Database::from_parts(vec![1, 2, 3, 4], vec![], vec![], Some(seeded())).is_none());
    assert!(Database::from_parts(vec![1, 2, 3], vec![], vec![], None).is_none());
    assert!(Database::from_parts(vec![1], vec![], vec![], Some(seeded())).is_none());
    let mut other = seeded();
    other.id = 1;
    assert!(Database::from_parts(vec![1, 2, 3], vec![], vec![], Some(other)).is_none());
    assert!(Database::from_parts(vec![1, 2], vec![], vec![], None).is_some());
}
