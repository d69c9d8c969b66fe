//! Runs of operations, and what they can and cannot bring about.

use vstd::prelude::*;
use crate::member::MemberView;
use crate::store::{team_at, with_member, with_team, without_member, Table};

verus! {

/// One operation on the store, with its arguments.
pub enum Step {
    /// A team is filed under an id.
    CreateTeam { id: usize, team: Seq<MemberView> },
    /// A member is appended to the team under an id.
    AddMember { id: usize, member: MemberView },
    /// A member id is taken out of the team under an id.
    RemoveMember { id: usize, member_id: usize },
}

/// `table` after `step`.
pub open spec fn after_step(table: Table, step: Step) -> Table {
    match step {
        Step::CreateTeam { id, team } => with_team(table, id, team),
        Step::AddMember { id, member } => with_member(table, id, member),
        Step::RemoveMember { id, member_id } => without_member(table, id, member_id),
    }
}

/// `table` after the steps of `steps`, first to last.
pub open spec fn after_steps(table: Table, steps: Seq<Step>) -> Table
    decreases steps.len(),
{
    if steps.len() == 0 {
        table
    } else {
        after_step(after_steps(table, steps.drop_last()), steps.last())
    }
}

/// Whether `step` files a team under `id`: a creation under that id does, and
/// so does a member removal that names it. Adding a member never does.
pub open spec fn files_under(step: Step, id: usize) -> bool {
    match step {
        Step::CreateTeam { id: target, .. } => target == id,
        Step::AddMember { .. } => false,
        Step::RemoveMember { id: target, .. } => target == id,
    }
}

/// An id under which no team is filed stays without one for as long as no
/// step files a team under it.
pub proof fn lemma_absent_until_filed(table: Table, steps: Seq<Step>, id: usize)
    requires
        !table.contains_key(id),
        forall|k: int| 0 <= k < steps.len() ==> !files_under(#[trigger] steps[k], id),
    ensures
        team_at(after_steps(table, steps), id) is None,
    decreases steps.len(),
{
    if steps.len() > 0 {
        lemma_absent_until_filed(table, steps.drop_last(), id);
    }
}

/// No step removes a team: an id under which a team is filed keeps one through
/// every run of steps.
pub proof fn lemma_teams_are_never_deleted(table: Table, steps: Seq<Step>, id: usize)
    requires
        table.contains_key(id),
    ensures
        after_steps(table, steps).contains_key(id),
    decreases steps.len(),
{
    if steps.len() > 0 {
        lemma_teams_are_never_deleted(table, steps.drop_last(), id);
    }
}

/// Once a step has filed a team under an id, a team is found under it after
/// every later step.
pub proof fn lemma_present_once_filed(table: Table, steps: Seq<Step>, id: usize, k: int)
    requires
        0 <= k < steps.len(),
        files_under(steps[k], id),
    ensures
        after_steps(table, steps).contains_key(id),
    decreases steps.len(),
{
    if k < steps.len() - 1 {
        lemma_present_once_filed(table, steps.drop_last(), id, k);
    }
}

} // verus!
