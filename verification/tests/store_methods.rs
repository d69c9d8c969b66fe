use team_store::{Member, Team, TeamStore};

fn member(id: usize, name: &str, age: u8) -> Member {
    Member::new(id, String::from(name), age)
}

fn pair() -> Team {
    Team { members: vec![member(1, "a", 10), member(2, "b", 20)] }
}

#[test]
fn new_store_holds_no_team() {
    let store = TeamStore::new();
    assert_eq!(store.get_team(0), None);
    assert_eq!(store.get_team(1), None);
    assert_eq!(store.get_team(usize::MAX), None);
}

#[test]
fn insert_team_then_get_team_returns_it() {
    let mut store = TeamStore::new();
    store.insert_team(7, pair());
    assert_eq!(store.get_team(7), Some(pair()));
    assert_eq!(store.get_team(6), None);
    assert_eq!(store.get_team(8), None);
}

#[test]
fn insert_team_replaces_a_team_under_the_same_id() {
    let mut store = TeamStore::new();
    store.insert_team(7, pair());
    store.insert_team(7, Team { members: vec![member(9, "z", 99)] });
    assert_eq!(store.get_team(7), Some(Team { members: vec![member(9, "z", 99)] }));
}

#[test]
fn get_team_returns_a_copy() {
    let mut store = TeamStore::new();
    store.insert_team(0, pair());
    let mut copy = store.get_team(0).unwrap();
    copy.push(member(3, "c", 30));
    assert_eq!(store.get_team(0), Some(pair()));
}

#[test]
fn store_add_member_appends_and_reports_true() {
    let mut store = TeamStore::new();
    store.insert_team(0, pair());
    assert!(store.add_member(0, member(3, "c", 30)));
    assert_eq!(
        store.get_team(0),
        Some(Team { members: vec![member(1, "a", 10), member(2, "b", 20), member(3, "c", 30)] })
    );
}

#[test]
fn store_add_member_to_absent_team_reports_false_and_adds_nothing() {
    let mut store = TeamStore::new();
    store.insert_team(0, pair());
    assert!(!store.add_member(1, member(3, "c", 30)));
    assert_eq!(store.get_team(1), None);
    assert_eq!(store.get_team(0), Some(pair()));
}

#[test]
fn store_remove_member_filters_the_team() {
    let mut store = TeamStore::new();
    store.insert_team(0, pair());
    store.remove_member(0, 1);
    assert_eq!(store.get_team(0), Some(Team { members: vec![member(2, "b", 20)] }));
}

#[test]
fn store_remove_member_files_an_empty_team_under_an_absent_id() {
    let mut store = TeamStore::new();
    store.remove_member(4, 1);
    assert_eq!(store.get_team(4), Some(Team::new()));
    assert_eq!(store.get_team(1), None);
}

#[test]
fn store_operations_leave_other_teams_alone() {
    let mut store = TeamStore::new();
    store.insert_team(0, pair());
    store.insert_team(1, Team { members: vec![member(1, "x", 1)] });
    store.remove_member(0, 1);
    assert!(store.add_member(0, member(5, "e", 50)));
    store.insert_team(2, Team::new());
    assert_eq!(store.get_team(1), Some(Team { members: vec![member(1, "x", 1)] }));
    assert_eq!(
        store.get_team(0),
        Some(Team { members: vec![member(2, "b", 20), member(5, "e", 50)] })
    );
    assert_eq!(store.get_team(2), Some(Team::new()));
}
