//! What holds between the store's operations, stated over its value.

use vstd::prelude::*;
use crate::counter::{lemma_issued_ids_differ, nth_id};
use crate::member::MemberView;
use crate::store::{team_at, with_member, with_team, without_member, Table};
use crate::team::{lemma_without_absent_id, lemma_without_id_twice, lemma_without_single_id};

verus! {

/// `table` after the teams of `teams` have been filed one after the other,
/// under the ids that a counter standing at `first` issues.
pub open spec fn with_teams(table: Table, first: usize, teams: Seq<Seq<MemberView>>) -> Table
    decreases teams.len(),
{
    if teams.len() == 0 {
        table
    } else {
        with_team(
            with_teams(table, first, teams.drop_last()),
            nth_id(first, (teams.len() - 1) as nat),
            teams.last(),
        )
    }
}

/// A team that was just filed under an id is what a lookup of that id finds.
pub proof fn lemma_fetch_after_create(table: Table, id: usize, team: Seq<MemberView>)
    ensures
        team_at(with_team(table, id, team), id) == Some(team),
{
}

/// Filing a team under an id that holds none makes the table one entry
/// larger; filing it under an id that holds one leaves the number of entries
/// as it was.
pub proof fn lemma_create_grows_table(table: Table, id: usize, team: Seq<MemberView>)
    requires
        table.dom().finite(),
    ensures
        with_team(table, id, team).dom().finite(),
        with_team(table, id, team).dom().len() == if table.contains_key(id) {
            table.dom().len()
        } else {
            table.dom().len() + 1
        },
{
}

/// Filing a team under one id leaves the lookup of every other id as it was.
pub proof fn lemma_create_leaves_others(table: Table, id: usize, team: Seq<MemberView>, other: usize)
    requires
        other != id,
    ensures
        team_at(with_team(table, id, team), other) == team_at(table, other),
{
}

/// Teams filed under different ids may be filed in either order.
pub proof fn lemma_creates_commute(
    table: Table,
    a: usize,
    team_a: Seq<MemberView>,
    b: usize,
    team_b: Seq<MemberView>,
)
    requires
        a != b,
    ensures
        with_team(with_team(table, a, team_a), b, team_b) == with_team(
            with_team(table, b, team_b),
            a,
            team_a,
        ),
{
}

/// After a run of creations with ids from one counter, each team is found
/// under the id that was issued for it, provided the run is no longer than
/// the number of values of `usize`.
pub proof fn lemma_created_teams_all_found(
    table: Table,
    first: usize,
    teams: Seq<Seq<MemberView>>,
    k: int,
)
    requires
        teams.len() <= usize::MAX + 1,
        0 <= k < teams.len(),
    ensures
        team_at(with_teams(table, first, teams), nth_id(first, k as nat)) == Some(teams[k]),
    decreases teams.len(),
{
    let last = (teams.len() - 1) as nat;
    if k < last {
        lemma_created_teams_all_found(table, first, teams.drop_last(), k);
        lemma_issued_ids_differ(first, k as nat, last);
    }
}

/// After a member has been added to a team that is there, a lookup finds the
/// former list with the member appended at its end.
pub proof fn lemma_fetch_after_add_member(table: Table, id: usize, member: MemberView)
    requires
        table.contains_key(id),
    ensures
        team_at(with_member(table, id, member), id) == Some(table[id].push(member)),
{
}

/// Adding a member to a team that is not there changes nothing: no entry
/// appears under that id.
pub proof fn lemma_add_member_to_absent_team(table: Table, id: usize, member: MemberView)
    requires
        !table.contains_key(id),
    ensures
        with_member(table, id, member) == table,
        team_at(with_member(table, id, member), id) is None,
{
}

/// Adding a member to one team leaves the lookup of every other id as it was.
pub proof fn lemma_add_member_leaves_others(
    table: Table,
    id: usize,
    member: MemberView,
    other: usize,
)
    requires
        other != id,
    ensures
        team_at(with_member(table, id, member), other) == team_at(table, other),
{
}

/// Where exactly one member of the team under `id` has the id `member_id`, at
/// index `k`, removal leaves the team with that entry cut out and the others
/// in their former order.
pub proof fn lemma_remove_single_member(table: Table, id: usize, member_id: usize, k: int)
    requires
        table.contains_key(id),
        0 <= k < table[id].len(),
        forall|i: int|
            0 <= i < table[id].len() ==> ((#[trigger] table[id][i]).id == member_id <==> i == k),
    ensures
        team_at(without_member(table, id, member_id), id) == Some(table[id].remove(k)),
{
    lemma_without_single_id(table[id], member_id, k);
}

/// Removing a member from a team that is not there files an empty team under
/// that id.
pub proof fn lemma_remove_member_from_absent_team(table: Table, id: usize, member_id: usize)
    requires
        !table.contains_key(id),
    ensures
        team_at(without_member(table, id, member_id), id) == Some(Seq::<MemberView>::empty()),
{
}

/// Removing a member id that no member of the team has changes nothing.
pub proof fn lemma_remove_absent_member(table: Table, id: usize, member_id: usize)
    requires
        table.contains_key(id),
        forall|i: int| 0 <= i < table[id].len() ==> (#[trigger] table[id][i]).id != member_id,
    ensures
        without_member(table, id, member_id) == table,
{
    lemma_without_absent_id(table[id], member_id);
}

/// Removing the same member id from the same team a second time changes
/// nothing, whether or not the team was there at first.
pub proof fn lemma_remove_member_twice(table: Table, id: usize, member_id: usize)
    ensures
        without_member(without_member(table, id, member_id), id, member_id) == without_member(
            table,
            id,
            member_id,
        ),
{
    if table.contains_key(id) {
        lemma_without_id_twice(table[id], member_id);
    } else {
        lemma_without_absent_id(Seq::<MemberView>::empty(), member_id);
    }
}

/// Removing a member from one team leaves the lookup of every other id as it
/// was.
pub proof fn lemma_remove_member_leaves_others(
    table: Table,
    id: usize,
    member_id: usize,
    other: usize,
)
    requires
        other != id,
    ensures
        team_at(without_member(table, id, member_id), other) == team_at(table, other),
{
}

} // verus!
