use team_store::{Member, Team};

fn member(id: usize, name: &str, age: u8) -> Member {
    Member::new(id, String::from(name), age)
}

#[test]
fn member_new_keeps_its_fields() {
    let m = member(3, "Ada", 36);
    assert_eq!(m.id, 3);
    assert_eq!(m.name, "Ada");
    assert_eq!(m.age, 36);
}

#[test]
fn member_age_covers_the_whole_byte() {
    assert_eq!(member(1, "young", 0).age, 0);
    assert_eq!(member(2, "old", 255).age, 255);
}

#[test]
fn member_clone_equals_its_source() {
    let m = member(usize::MAX, "Grace", 85);
    let copy = m.clone();
    assert_eq!(copy, m);
    assert_eq!(copy.id, usize::MAX);
    assert_eq!(copy.name, "Grace");
    assert_eq!(copy.age, 85);
}

#[test]
fn members_differ_when_any_field_differs() {
    let m = member(1, "Ada", 36);
    assert_ne!(m, member(2, "Ada", 36));
    assert_ne!(m, member(1, "Eda", 36));
    assert_ne!(m, member(1, "Ada", 37));
    assert_eq!(m, member(1, "Ada", 36));
}

#[test]
fn new_team_is_empty() {
    let team = Team::new();
    assert!(team.members.is_empty());
    assert_eq!(team, Team { members: vec![] });
}

#[test]
fn push_appends_at_the_end() {
    let mut team = Team { members: vec![member(1, "a", 10)] };
    team.push(member(2, "b", 20));
    team.push(member(0, "c", 30));
    assert_eq!(
        team,
        Team { members: vec![member(1, "a", 10), member(2, "b", 20), member(0, "c", 30)] }
    );
}

#[test]
fn push_accepts_a_duplicate_id() {
    let mut team = Team { members: vec![member(1, "a", 10)] };
    team.push(member(1, "again", 11));
    assert_eq!(team.members.len(), 2);
    assert_eq!(team.members[1], member(1, "again", 11));
}

#[test]
fn without_member_removes_the_one_match_and_keeps_order() {
    let team = Team {
        members: vec![member(1, "a", 10), member(2, "b", 20), member(3, "c", 30)],
    };
    let kept = team.without_member(2);
    assert_eq!(kept, Team { members: vec![member(1, "a", 10), member(3, "c", 30)] });
    assert_eq!(team.members.len(), 3);
}

#[test]
fn without_member_removes_every_match() {
    let team = Team {
        members: vec![
            member(5, "x", 1),
            member(1, "a", 10),
            member(5, "y", 2),
            member(2, "b", 20),
            member(5, "z", 3),
        ],
    };
    let kept = team.without_member(5);
    assert_eq!(kept, Team { members: vec![member(1, "a", 10), member(2, "b", 20)] });
}

#[test]
fn without_member_of_an_absent_id_keeps_everything() {
    let team = Team { members: vec![member(1, "a", 10), member(2, "b", 20)] };
    assert_eq!(team.without_member(9), team);
}

#[test]
fn without_member_on_an_empty_team_is_empty() {
    assert_eq!(Team::new().without_member(0), Team::new());
}

#[test]
fn without_member_can_empty_a_team() {
    let team = Team { members: vec![member(4, "a", 10), member(4, "b", 20)] };
    assert_eq!(team.without_member(4), Team::new());
}

#[test]
fn without_member_twice_is_the_same_as_once() {
    let team = Team {
        members: vec![member(1, "a", 10), member(2, "b", 20), member(1, "c", 30)],
    };
    let once = team.without_member(1);
    assert_eq!(once.without_member(1), once);
}

#[test]
fn team_clone_equals_its_source() {
    let team = Team { members: vec![member(1, "a", 10), member(2, "b", 20)] };
    let copy = team.clone();
    assert_eq!(copy, team);
    assert_eq!(copy.members[0].name, "a");
    assert_eq!(copy.members[1].age, 20);
}

#[test]
fn teams_differ_in_length_order_or_content() {
    let team = Team { members: vec![member(1, "a", 10), member(2, "b", 20)] };
    assert_ne!(team, Team { members: vec![member(1, "a", 10)] });
    assert_ne!(team, Team { members: vec![member(2, "b", 20), member(1, "a", 10)] });
    assert_ne!(team, Team { members: vec![member(1, "a", 10), member(2, "b", 21)] });
    assert_ne!(team, Team::new());
    assert_eq!(team, Team { members: vec![member(1, "a", 10), member(2, "b", 20)] });
}
