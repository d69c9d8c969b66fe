//! The table of teams, keyed by team id.

use std::collections::hash_map::Entry;
use std::collections::HashMap;
use vstd::prelude::*;
use vstd::std_specs::hash::group_hash_axioms;
use crate::member::{Member, MemberView};
use crate::team::{without_id, Team};

verus! {

/// The mathematical value of a [`TeamStore`]: the member list filed under each
/// team id that is present.
pub type Table = Map<usize, Seq<MemberView>>;

/// What a lookup of `id` finds in `table`.
pub open spec fn team_at(table: Table, id: usize) -> Option<Seq<MemberView>> {
    if table.contains_key(id) {
        Some(table[id])
    } else {
        None
    }
}

/// `table` after `team` has been filed under `id`, replacing whatever was
/// there.
pub open spec fn with_team(table: Table, id: usize, team: Seq<MemberView>) -> Table {
    table.insert(id, team)
}

/// `table` after `member` has been appended to the team under `id`. A table
/// without that team is left as it is.
pub open spec fn with_member(table: Table, id: usize, member: MemberView) -> Table {
    if table.contains_key(id) {
        table.insert(id, table[id].push(member))
    } else {
        table
    }
}

/// `table` after every member with id `member_id` has been taken out of the
/// team under `id`. The filtered list is filed under `id` whether or not a team
/// was there before: where none was, an empty team appears.
pub open spec fn without_member(table: Table, id: usize, member_id: usize) -> Table {
    if table.contains_key(id) {
        table.insert(id, without_id(table[id], member_id))
    } else {
        table.insert(id, Seq::empty())
    }
}

/// The value of an optional team.
pub open spec fn team_view(team: Option<Team>) -> Option<Seq<MemberView>> {
    match team {
        Some(t) => Some(t@),
        None => None,
    }
}

/// The table of teams. Every operation on it is a single step: callers that
/// share a store between threads keep it behind one lock and run one
/// operation per acquisition.
pub struct TeamStore {
    teams: HashMap<usize, Team>,
}

impl View for TeamStore {
    type V = Table;

    closed spec fn view(&self) -> Table {
        Map::new(|id: usize| self.teams@.contains_key(id), |id: usize| self.teams@[id]@)
    }
}

impl TeamStore {
    /// A store holds finitely many teams.
    pub proof fn lemma_finite(&self)
        ensures
            self@.dom().finite(),
    {
        broadcast use group_hash_axioms;

        assert(self@.dom() =~= self.teams@.dom());
    }

    /// A store that holds no team.
    pub fn new() -> (store: TeamStore)
        ensures
            store@ == Map::<usize, Seq<MemberView>>::empty(),
    {
        TeamStore { teams: HashMap::new() }
    }

    /// Files `team` under `id`. A team already filed under `id` is replaced.
    pub fn insert_team(&mut self, id: usize, team: Team)
        ensures
            final(self)@ == with_team(old(self)@, id, team@),
    {
        broadcast use group_hash_axioms;

        self.teams.insert(id, team);
    }

    /// A copy of the team filed under `id`, or `None` where there is none.
    pub fn get_team(&self, id: usize) -> (found: Option<Team>)
        ensures
            team_view(found) == team_at(self@, id),
    {
        broadcast use group_hash_axioms;

        match self.teams.get(&id) {
            Some(team) => Some(team.clone()),
            None => None,
        }
    }

    /// Appends `member` to the team filed under `id` and returns `true`; where
    /// no team is filed under `id`, changes nothing and returns `false`.
    pub fn add_member(&mut self, id: usize, member: Member) -> (found: bool)
        ensures
            found == old(self)@.contains_key(id),
            final(self)@ == with_member(old(self)@, id, member@),
    {
        broadcast use group_hash_axioms;

        match self.teams.entry(id) {
            Entry::Occupied(mut slot) => {
                slot.get_mut().push(member);
                true
            },
            Entry::Vacant(_) => false,
        }
    }

    /// Rebuilds the team filed under `id` without the members whose id is
    /// `member_id`, and files the result under `id`. Where no team was filed
    /// under `id`, an empty one is filed there.
    pub fn remove_member(&mut self, id: usize, member_id: usize)
        ensures
            final(self)@ == without_member(old(self)@, id, member_id),
    {
        broadcast use group_hash_axioms;

        let kept = match self.teams.get(&id) {
            Some(team) => team.without_member(member_id),
            None => Team::new(),
        };
        self.teams.insert(id, kept);
    }
}

} // verus!
