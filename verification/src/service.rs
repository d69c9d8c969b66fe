//! The four operations, as a request handler runs them.
//!
//! A handler first tries to acquire the lock that guards the store and hands
//! the outcome to one of these functions: `Some` with the store where the lock
//! was acquired, `None` where it was not. A failed acquisition is never
//! reported as such; each operation folds it into its ordinary failure.
//!
//! In the contracts, `store@` is the table as the call finds it and
//! `final(store)@` the table as the call leaves it.

use vstd::prelude::*;
use crate::counter::{id_after, IdCounter};
use crate::member::Member;
use crate::status::Status;
use crate::store::{team_at, team_view, with_member, with_team, without_member, TeamStore};
use crate::team::Team;

verus! {

/// Issues the next id and files `team` under it. The id is issued whether or
/// not the lock was acquired; without the lock the team is dropped. The caller
/// is told `Success` either way, and is not told the id.
pub fn create_team(ids: &mut IdCounter, table: Option<&mut TeamStore>, team: Team) -> (status:
    Status)
    ensures
        status == Status::Success,
        final(ids)@ == id_after(old(ids)@),
        match table {
            Some(store) => final(store)@ == with_team(store@, old(ids)@, team@),
            None => true,
        },
{
    let id = ids.issue();
    match table {
        Some(store) => {
            store.insert_team(id, team);
        },
        None => {},
    }
    Status::Success
}

/// A copy of the team filed under `id`. `None` where no team is filed under
/// `id`, and where the lock was not acquired.
pub fn fetch_team(table: Option<&TeamStore>, id: usize) -> (found: Option<Team>)
    ensures
        team_view(found) == match table {
            Some(store) => team_at(store@, id),
            None => None,
        },
{
    match table {
        Some(store) => store.get_team(id),
        None => None,
    }
}

/// Appends `member` to the team filed under `id`. `BadRequest`, with the store
/// unchanged, where no team is filed under `id`; `BadRequest` also where the
/// lock was not acquired.
pub fn add_member(table: Option<&mut TeamStore>, id: usize, member: Member) -> (status: Status)
    ensures
        match table {
            Some(store) => {
                &&& final(store)@ == with_member(store@, id, member@)
                &&& status == if store@.contains_key(id) {
                    Status::Success
                } else {
                    Status::BadRequest
                }
            },
            None => status == Status::BadRequest,
        },
{
    match table {
        Some(store) => {
            if store.add_member(id, member) {
                Status::Success
            } else {
                Status::BadRequest
            }
        },
        None => Status::BadRequest,
    }
}

/// Takes every member with id `member_id` out of the team filed under `id`.
/// `Success` whenever the lock was acquired, also where no team was filed
/// under `id`: an empty team is then filed there. `BadRequest` only where the
/// lock was not acquired.
pub fn remove_member(table: Option<&mut TeamStore>, id: usize, member_id: usize) -> (status:
    Status)
    ensures
        match table {
            Some(store) => {
                &&& final(store)@ == without_member(store@, id, member_id)
                &&& status == Status::Success
            },
            None => status == Status::BadRequest,
        },
{
    match table {
        Some(store) => {
            store.remove_member(id, member_id);
            Status::Success
        },
        None => Status::BadRequest,
    }
}

} // verus!
