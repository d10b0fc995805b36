use crane::chronographs::{
    add_chronograph, delete_chronograph, fetch_all_chronographs, update_chronograph,
    ChronographInput, ChronographUpdateInput,
};
use crane::db::Database;
use crane::workspaces::{add_workspace, WorkspaceInput};

fn store_with_workspaces(n: u32) -> Database {
    let mut db = Database::new("t0".to_string());
    for i in 0..n {
        assert!(add_workspace(
            &mut db,
            WorkspaceInput {
                title: format!("w{}", i),
                description: String::new(),
                is_favourite: false,
                is_selected: false,
            },
            "t0".to_string()
        ));
    }
    db
}

fn chrono(workspace_id: u32, name: &str, kind: &str) -> ChronographInput {
    ChronographInput {
        workspace_id,
        name: name.to_string(),
        kind: kind.to_string(),
        state: "stopped".to_string(),
        duration: 60,
        is_favourite: false,
    }
}

#[test]
fn listing_filters_by_workspace_and_kind_newest_first() {
    let mut db = store_with_workspaces(2);
    assert!(add_chronograph(&mut db, chrono(1, "a", "timer"), "t".to_string()));
    assert!(add_chronograph(&mut db, chrono(1, "b", "stopwatch"), "t".to_string()));
    assert!(add_chronograph(&mut db, chrono(2, "c", "timer"), "t".to_string()));
    assert!(add_chronograph(&mut db, chrono(1, "d", "timer"), "t".to_string()));
    let timers = fetch_all_chronographs(&db, 1, "timer".to_string());
    let names: Vec<&str> = timers.iter().map(|c| c.name.as_str()).collect();
    assert_eq!(names, vec!["d", "a"]);
    assert_eq!(timers[0].id, 4);
    assert_eq!(timers[1].id, 1);
    assert!(timers.iter().all(|c| c.workspace_id == 1 && c.kind == "timer"));
    let watches = fetch_all_chronographs(&db, 1, "stopwatch".to_string());
    assert_eq!(watches.len(), 1);
    assert_eq!(watches[0].name, "b");
    assert!(fetch_all_chronographs(&db, 3, "timer".to_string()).is_empty());
}

#[test]
fn added_chronograph_holds_its_input() {
    let mut db = store_with_workspaces(1);
    assert!(add_chronograph(
        &mut db,
        ChronographInput {
            workspace_id: 1,
            name: "pomodoro".to_string(),
            kind: "timer".to_string(),
            state: "running".to_string(),
            duration: 1500,
            is_favourite: true,
        },
        "t5".to_string()
    ));
    let c = &fetch_all_chronographs(&db, 1, "timer".to_string())[0];
    assert_eq!(c.id, 1);
    assert_eq!(c.name, "pomodoro");
    assert_eq!(c.state, "running");
    assert_eq!(c.duration, 1500);
    assert!(c.is_favourite);
    assert_eq!(c.created_at, "t5");
}

#[test]
fn chronograph_of_missing_workspace_is_not_added() {
    let mut db = store_with_workspaces(1);
    assert!(!add_chronograph(&mut db, chrono(7, "x", "timer"), "t".to_string()));
    assert!(db.chronographs.is_empty());
}

#[test]
fn update_chronograph_of_existing_key_replaces_fields() {
    let mut db = store_with_workspaces(1);
    assert!(add_chronograph(&mut db, chrono(1, "a", "timer"), "t1".to_string()));
    assert!(update_chronograph(
        &mut db,
        1,
        1,
        ChronographUpdateInput {
            name: "b".to_string(),
            kind: "stopwatch".to_string(),
            state: "paused".to_string(),
            duration: 42,
            is_favourite: true,
        },
        "t2".to_string()
    ));
    assert!(fetch_all_chronographs(&db, 1, "timer".to_string()).is_empty());
    let c = &fetch_all_chronographs(&db, 1, "stopwatch".to_string())[0];
    assert_eq!(c.id, 1);
    assert_eq!(c.name, "b");
    assert_eq!(c.state, "paused");
    assert_eq!(c.duration, 42);
    assert!(c.is_favourite);
    assert_eq!(c.created_at, "t1");
    assert_eq!(c.modified_at, "t2");
}

#[test]
fn update_chronograph_of_other_workspace_changes_nothing() {
    let mut db = store_with_workspaces(2);
    assert!(add_chronograph(&mut db, chrono(1, "a", "timer"), "t1".to_string()));
    let update = ChronographUpdateInput {
        name: "hijack".to_string(),
        kind: "timer".to_string(),
        state: "running".to_string(),
        duration: 1,
        is_favourite: true,
    };
    assert!(!update_chronograph(&mut db, 1, 2, update, "t2".to_string()));
    let c = &fetch_all_chronographs(&db, 1, "timer".to_string())[0];
    assert_eq!(c.name, "a");
    assert_eq!(c.duration, 60);
    assert_eq!(c.modified_at, "t1");
}

#[test]
fn delete_chronograph_by_compound_key() {
    let mut db = store_with_workspaces(2);
    assert!(add_chronograph(&mut db, chrono(1, "a", "timer"), "t".to_string()));
    assert!(add_chronograph(&mut db, chrono(2, "b", "timer"), "t".to_string()));
    assert!(!delete_chronograph(&mut db, 2, 1));
    assert!(delete_chronograph(&mut db, 1, 1));
    assert!(fetch_all_chronographs(&db, 1, "timer".to_string()).is_empty());
    assert_eq!(fetch_all_chronographs(&db, 2, "timer".to_string()).len(), 1);
    assert!(!delete_chronograph(&mut db, 1, 1));
}
