use std::sync::Mutex;
use team_store::{add_member, create_team, fetch_team, remove_member};
use team_store::{IdCounter, Member, Status, Team, TeamStore};

#[test]
fn operations_run_on_a_store_behind_a_lock() {
    let ids = Mutex::new(IdCounter::new());
    let table = Mutex::new(TeamStore::new());
    for n in 0..3usize {
        let team = Team { members: vec![Member::new(n, String::from("first"), 20)] };
        let mut ids = ids.lock().unwrap();
        let mut table = table.lock().ok();
        assert_eq!(create_team(&mut ids, table.as_deref_mut(), team), Status::Success);
    }
    {
        let mut table = table.lock().ok();
        let late = Member::new(9, String::from("late"), 30);
        assert_eq!(add_member(table.as_deref_mut(), 1, late), Status::Success);
    }
    {
        let mut table = table.lock().ok();
        assert_eq!(remove_member(table.as_deref_mut(), 2, 2), Status::Success);
    }
    let table = table.lock().ok();
    assert_eq!(
        fetch_team(table.as_deref(), 0),
        Some(Team { members: vec![Member::new(0, String::from("first"), 20)] })
    );
    assert_eq!(
        fetch_team(table.as_deref(), 1),
        Some(Team {
            members: vec![
                Member::new(1, String::from("first"), 20),
                Member::new(9, String::from("late"), 30),
            ],
        })
    );
    assert_eq!(fetch_team(table.as_deref(), 2), Some(Team::new()));
    assert_eq!(fetch_team(table.as_deref(), 3), None);
    assert_eq!(ids.lock().unwrap().peek(), 3);
}
