//! A single member record.

use vstd::prelude::*;

verus! {

/// The mathematical value of a [`Member`]: its three fields, with the name as
/// a sequence of characters.
pub struct MemberView {
    pub id: usize,
    pub name: Seq<char>,
    pub age: u8,
}

/// One member of a team. The store attaches no meaning to the fields beyond
/// comparing `id` when members are removed; in particular, ids need not be
/// unique within a team.
#[derive(Debug)]
pub struct Member {
    pub id: usize,
    pub name: String,
    pub age: u8,
}

impl View for Member {
    type V = MemberView;

    open spec fn view(&self) -> MemberView {
        MemberView { id: self.id, name: self.name@, age: self.age }
    }
}

impl Member {
    /// Builds a member from its three fields.
    pub fn new(id: usize, name: String, age: u8) -> (member: Member)
        ensures
            member@ == (MemberView { id, name: name@, age }),
    {
        Member { id, name, age }
    }
}

impl PartialEq for Member {
    /// Two members are equal when their three fields are.
    fn eq(&self, other: &Member) -> (equal: bool) {
        self.id == other.id && self.name == other.name && self.age == other.age
    }
}

impl Eq for Member {

}

impl vstd::std_specs::cmp::PartialEqSpecImpl for Member {
    open spec fn obeys_eq_spec() -> bool {
        true
    }

    open spec fn eq_spec(&self, other: &Member) -> bool {
        self@ == other@
    }
}

impl Clone for Member {
    fn clone(&self) -> (copy: Member)
        ensures
            copy@ == self@,
    {
        Member { id: self.id, name: self.name.clone(), age: self.age }
    }
}

} // verus!
