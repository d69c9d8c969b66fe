//! A team: an ordered list of members.

use vstd::prelude::*;
use crate::member::{Member, MemberView};

verus! {

/// The values of a sequence of members, in the same order.
pub open spec fn member_views(members: Seq<Member>) -> Seq<MemberView> {
    members.map_values(|m: Member| m@)
}

/// The test that member removal applies: true of every member whose id is
/// not `member_id`.
pub open spec fn has_other_id(member_id: usize) -> spec_fn(MemberView) -> bool {
    |m: MemberView| m.id != member_id
}

/// `members` with every member whose id is `member_id` taken out; the rest keep
/// their relative order.
pub open spec fn without_id(members: Seq<MemberView>, member_id: usize) -> Seq<MemberView> {
    members.filter(has_other_id(member_id))
}

/// A team. Members appear in the order in which they were given at creation,
/// followed by later additions in the order in which they were added.
#[derive(Debug)]
pub struct Team {
    pub members: Vec<Member>,
}

impl View for Team {
    type V = Seq<MemberView>;

    open spec fn view(&self) -> Seq<MemberView> {
        member_views(self.members@)
    }
}

impl Team {
    /// A team with no members.
    pub fn new() -> (team: Team)
        ensures
            team@ == Seq::<MemberView>::empty(),
    {
        Team { members: Vec::new() }
    }

    /// Appends `member` at the end of the list. No check is made for a member
    /// with the same id.
    pub fn push(&mut self, member: Member)
        ensures
            final(self)@ == old(self)@.push(member@),
    {
        self.members.push(member);
    }

    /// A copy of this team that leaves out every member whose id is
    /// `member_id`.
    pub fn without_member(&self, member_id: usize) -> (kept: Team)
        ensures
            kept@ == without_id(self@, member_id),
    {
        let mut kept: Vec<Member> = Vec::new();
        let mut i: usize = 0;
        while i < self.members.len()
            invariant
                i <= self.members.len(),
                member_views(kept@) == without_id(self@.take(i as int), member_id),
            decreases self.members.len() - i,
        {
            let member = &self.members[i];
            proof {
                let seen = self@.take(i as int);
                assert(self@.take(i + 1) == seen.push(member@));
                seen.lemma_filter_push(member@, has_other_id(member_id));
            }
            if member.id != member_id {
                kept.push(member.clone());
            }
            i += 1;
        }
        proof {
            assert(self@.take(i as int) == self@);
        }
        Team { members: kept }
    }
}

impl PartialEq for Team {
    /// Two teams are equal when they list equal members in the same order.
    fn eq(&self, other: &Team) -> (equal: bool) {
        if self.members.len() != other.members.len() {
            assert(self@.len() != other@.len());
            return false;
        }
        let mut i: usize = 0;
        while i < self.members.len()
            invariant
                i <= self.members.len(),
                self.members.len() == other.members.len(),
                forall|j: int| 0 <= j < i ==> (#[trigger] self@[j]) == other@[j],
            decreases self.members.len() - i,
        {
            if self.members[i] != other.members[i] {
                assert(self@[i as int] != other@[i as int]);
                return false;
            }
            i += 1;
        }
        assert(self@ =~= other@);
        true
    }
}

impl Eq for Team {

}

impl vstd::std_specs::cmp::PartialEqSpecImpl for Team {
    open spec fn obeys_eq_spec() -> bool {
        true
    }

    open spec fn eq_spec(&self, other: &Team) -> bool {
        self@ == other@
    }
}

impl Clone for Team {
    fn clone(&self) -> (copy: Team)
        ensures
            copy@ == self@,
    {
        Team { members: self.members.clone() }
    }
}

/// Taking an id out of a list in two parts is taking it out of each part.
pub proof fn lemma_without_id_concat(
    front: Seq<MemberView>,
    back: Seq<MemberView>,
    member_id: usize,
)
    ensures
        without_id(front + back, member_id) == without_id(front, member_id) + without_id(
            back,
            member_id,
        ),
{
}

/// No member of the result has the id that was taken out.
pub proof fn lemma_without_id_leaves_none(members: Seq<MemberView>, member_id: usize)
    ensures
        forall|i: int|
            0 <= i < without_id(members, member_id).len() ==> (#[trigger] without_id(
                members,
                member_id,
            )[i]).id != member_id,
{
}

/// Every member with another id is still in the result.
pub proof fn lemma_without_id_keeps_others(members: Seq<MemberView>, member_id: usize, i: int)
    requires
        0 <= i < members.len(),
        members[i].id != member_id,
    ensures
        without_id(members, member_id).contains(members[i]),
{
}

/// Taking out an id that no member has leaves the list as it is.
pub proof fn lemma_without_absent_id(members: Seq<MemberView>, member_id: usize)
    requires
        forall|i: int| 0 <= i < members.len() ==> (#[trigger] members[i]).id != member_id,
    ensures
        without_id(members, member_id) == members,
    decreases members.len(),
{
    reveal(Seq::filter);
    if members.len() > 0 {
        lemma_without_absent_id(members.drop_last(), member_id);
    }
}

/// Taking the same id out a second time changes nothing.
pub proof fn lemma_without_id_twice(members: Seq<MemberView>, member_id: usize)
    ensures
        without_id(without_id(members, member_id), member_id) == without_id(members, member_id),
{
    lemma_without_absent_id(without_id(members, member_id), member_id);
}

/// Where exactly one member has the id, and stands at index `k`, the result is
/// the list with the entry at `k` cut out: the members before and after it
/// stay, in their order.
pub proof fn lemma_without_single_id(members: Seq<MemberView>, member_id: usize, k: int)
    requires
        0 <= k < members.len(),
        forall|i: int| 0 <= i < members.len() ==> ((#[trigger] members[i]).id == member_id <==> i == k),
    ensures
        without_id(members, member_id) == members.remove(k),
{
    let before = members.subrange(0, k);
    let hit = seq![members[k]];
    let after = members.subrange(k + 1, members.len() as int);
    assert(members == before + hit + after);
    lemma_without_absent_id(before, member_id);
    lemma_without_absent_id(after, member_id);
    assert(without_id(hit, member_id) == Seq::<MemberView>::empty()) by {
        Seq::<MemberView>::empty().lemma_filter_push(members[k], has_other_id(member_id));
    }
}

} // verus!
