//! The user record, and the two requests that write it.

use crate::body::{has_key, members_view, Member};
use crate::identifier::{hyphenated_text, lemma_text_injective, uuid_hyphenated};
use crate::repository::{UserChanges, UserChangesView};
use vstd::prelude::*;

verus! {

/// A user as the store holds it. `password` is the hash string, never the
/// password as it was typed, and no response carries it.
#[derive(Clone, Debug)]
pub struct User {
    pub id: u128,
    pub username: String,
    pub password: String,
    pub email: String,
    pub first_name: String,
    pub last_name: String,
}

/// The mathematical value of a [`User`].
pub ghost struct UserView {
    pub id: u128,
    pub username: Seq<char>,
    pub password: Seq<char>,
    pub email: Seq<char>,
    pub first_name: Seq<char>,
    pub last_name: Seq<char>,
}

impl View for User {
    type V = UserView;

    open spec fn view(&self) -> UserView {
        UserView {
            id: self.id,
            username: self.username@,
            password: self.password@,
            email: self.email@,
            first_name: self.first_name@,
            last_name: self.last_name@,
        }
    }
}

impl UserView {
    /// The members of the JSON object that stands for this user in a
    /// response: the identifier in its canonical text and the four fields
    /// that the client gave. The password is no member.
    pub open spec fn members(self) -> Seq<(Seq<char>, Seq<char>)> {
        seq![
            ("id"@, hyphenated_text(self.id)),
            ("username"@, self.username),
            ("email"@, self.email),
            ("first_name"@, self.first_name),
            ("last_name"@, self.last_name),
        ]
    }

    /// Whether two users are the same but for what is stored as password.
    pub open spec fn same_but_password(self, other: UserView) -> bool {
        &&& self.id == other.id
        &&& self.username == other.username
        &&& self.email == other.email
        &&& self.first_name == other.first_name
        &&& self.last_name == other.last_name
    }
}

impl User {
    /// The members of the JSON object that a response carries for this
    /// user, in their order.
    pub fn serialized(&self) -> (members: Vec<Member>)
        ensures
            members_view(members@) == self@.members(),
    {
        let mut members: Vec<Member> = Vec::new();
        members.push(Member::new("id", uuid_hyphenated(self.id)));
        members.push(Member::new("username", self.username.clone()));
        members.push(Member::new("email", self.email.clone()));
        members.push(Member::new("first_name", self.first_name.clone()));
        members.push(Member::new("last_name", self.last_name.clone()));
        assert(members_view(members@) =~= self@.members());
        members
    }
}

/// No user is serialized with a `password` member, whatever the user holds.
pub proof fn lemma_serialized_user_has_no_password(user: UserView)
    ensures
        !has_key(user.members(), "password"@),
{
    reveal_strlit("password");
    reveal_strlit("id");
    reveal_strlit("username");
    reveal_strlit("email");
    reveal_strlit("first_name");
    reveal_strlit("last_name");
    let members = user.members();
    assert forall|i: int| 0 <= i < members.len() implies (#[trigger] members[i]).0 != "password"@ by {
        if i == 0 {
            assert(members[i].0 == "id"@);
            assert("id"@.len() != "password"@.len());
        } else if i == 1 {
            assert(members[i].0 == "username"@);
            assert("username"@[0] != "password"@[0]);
        } else if i == 2 {
            assert(members[i].0 == "email"@);
            assert("email"@.len() != "password"@.len());
        } else if i == 3 {
            assert(members[i].0 == "first_name"@);
            assert("first_name"@.len() != "password"@.len());
        } else {
            assert(members[i].0 == "last_name"@);
            assert("last_name"@.len() != "password"@.len());
        }
    }
}

/// Two users are serialized alike exactly when they are the same but for
/// the password: a response shows all of a user but the password, and
/// nothing of the password.
pub proof fn lemma_serialized_alike_iff_same_but_password(a: UserView, b: UserView)
    ensures
        a.members() == b.members() <==> a.same_but_password(b),
{
    if a.members() == b.members() {
        assert(a.members()[0] == b.members()[0]);
        assert(a.members()[1] == b.members()[1]);
        assert(a.members()[2] == b.members()[2]);
        assert(a.members()[3] == b.members()[3]);
        assert(a.members()[4] == b.members()[4]);
        lemma_text_injective(a.id, b.id);
    }
    if a.same_but_password(b) {
        assert(a.members() =~= b.members());
    }
}

/// The body of a create request. Every field is required; `password` is the
/// password as it was typed.
#[derive(Clone, Debug)]
pub struct PutUserRequest {
    pub username: String,
    pub password: String,
    pub email: String,
    pub first_name: String,
    pub last_name: String,
}

/// The mathematical value of a [`PutUserRequest`].
pub ghost struct PutUserRequestView {
    pub username: Seq<char>,
    pub password: Seq<char>,
    pub email: Seq<char>,
    pub first_name: Seq<char>,
    pub last_name: Seq<char>,
}

impl View for PutUserRequest {
    type V = PutUserRequestView;

    open spec fn view(&self) -> PutUserRequestView {
        PutUserRequestView {
            username: self.username@,
            password: self.password@,
            email: self.email@,
            first_name: self.first_name@,
            last_name: self.last_name@,
        }
    }
}

impl PutUserRequestView {
    /// The record that this request asks for, once it has an identifier and
    /// its password has been hashed.
    pub open spec fn record(self, id: u128, password_hash: Seq<char>) -> UserView {
        UserView {
            id,
            username: self.username,
            password: password_hash,
            email: self.email,
            first_name: self.first_name,
            last_name: self.last_name,
        }
    }
}

impl PutUserRequest {
    /// Makes the record to store: the fields of the request, under the
    /// given identifier, with the hash in place of the password.
    pub fn into_user(self, id: u128, password_hash: String) -> (user: User)
        ensures
            user@ == self@.record(id, password_hash@),
    {
        User {
            id,
            username: self.username,
            password: password_hash,
            email: self.email,
            first_name: self.first_name,
            last_name: self.last_name,
        }
    }
}

/// The body of a partial update. A field that is absent leaves the stored
/// value as it is; `password`, where present, is the password as typed.
#[derive(Clone, Debug)]
pub struct PostUserRequest {
    pub username: Option<String>,
    pub password: Option<String>,
    pub email: Option<String>,
    pub first_name: Option<String>,
    pub last_name: Option<String>,
}

/// The text of an optional string.
pub open spec fn text_of(field: Option<String>) -> Option<Seq<char>> {
    match field {
        Some(text) => Some(text@),
        None => None,
    }
}

/// The mathematical value of a [`PostUserRequest`].
pub ghost struct PostUserRequestView {
    pub username: Option<Seq<char>>,
    pub password: Option<Seq<char>>,
    pub email: Option<Seq<char>>,
    pub first_name: Option<Seq<char>>,
    pub last_name: Option<Seq<char>>,
}

impl View for PostUserRequest {
    type V = PostUserRequestView;

    open spec fn view(&self) -> PostUserRequestView {
        PostUserRequestView {
            username: text_of(self.username),
            password: text_of(self.password),
            email: text_of(self.email),
            first_name: text_of(self.first_name),
            last_name: text_of(self.last_name),
        }
    }
}

impl PostUserRequestView {
    /// The changes that this request asks for, with `password_hash` in
    /// place of the password.
    pub open spec fn changes(self, password_hash: Option<Seq<char>>) -> UserChangesView {
        UserChangesView {
            username: self.username,
            password: password_hash,
            email: self.email,
            first_name: self.first_name,
            last_name: self.last_name,
        }
    }
}

impl PostUserRequest {
    /// Makes the changes to store: the fields of the request, with the
    /// hash, if any, in place of the password.
    pub fn into_changes(self, password_hash: Option<String>) -> (changes: UserChanges)
        ensures
            changes@ == self@.changes(text_of(password_hash)),
    {
        UserChanges {
            username: self.username,
            password: password_hash,
            email: self.email,
            first_name: self.first_name,
            last_name: self.last_name,
        }
    }
}

} // verus!
