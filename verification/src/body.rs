//! What a response body holds, before it is encoded.
//!
//! Every body of the user resource is one flat JSON object whose values are
//! strings. The library decides which members it has and in what order;
//! encoding them is left to the caller.

use vstd::prelude::*;

verus! {

/// One member of a JSON object: a key and the string that it maps to.
#[derive(Clone, Debug)]
pub struct Member {
    pub key: String,
    pub value: String,
}

impl View for Member {
    type V = (Seq<char>, Seq<char>);

    open spec fn view(&self) -> (Seq<char>, Seq<char>) {
        (self.key@, self.value@)
    }
}

impl Member {
    pub fn new(key: &str, value: String) -> (member: Member)
        ensures
            member@ == (key@, value@),
    {
        Member { key: String::from_str(key), value }
    }
}

/// The members of an object, each by its view.
pub open spec fn members_view(members: Seq<Member>) -> Seq<(Seq<char>, Seq<char>)> {
    members.map_values(|member: Member| member@)
}

/// Whether an object has a member with the given key.
pub open spec fn has_key(members: Seq<(Seq<char>, Seq<char>)>, key: Seq<char>) -> bool {
    exists|i: int| 0 <= i < members.len() && (#[trigger] members[i]).0 == key
}

} // verus!
