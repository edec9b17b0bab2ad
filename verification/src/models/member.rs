use vstd::prelude::*;

verus! {

/// A person who may borrow books and may manage a library.
#[derive(Debug, PartialEq, Eq)]
pub struct Member {
    pub id: i32,
    pub name: String,
    pub email: String,
    pub created_at: String,
    pub updated_at: String,
}

/// What a `Member` is to a contract.
pub struct MemberRow {
    pub id: int,
    pub name: Seq<char>,
    pub email: Seq<char>,
    pub created_at: Seq<char>,
    pub updated_at: Seq<char>,
}

impl View for Member {
    type V = MemberRow;

    open spec fn view(&self) -> MemberRow {
        MemberRow {
            id: self.id as int,
            name: self.name@,
            email: self.email@,
            created_at: self.created_at@,
            updated_at: self.updated_at@,
        }
    }
}

impl Clone for Member {
    fn clone(&self) -> (copy: Member)
        ensures
            copy@ == self@,
    {
        Member {
            id: self.id,
            name: self.name.clone(),
            email: self.email.clone(),
            created_at: self.created_at.clone(),
            updated_at: self.updated_at.clone(),
        }
    }
}

/// The rows of a sequence of members.
pub open spec fn member_rows(members: Seq<Member>) -> Seq<MemberRow> {
    members.map_values(|m: Member| m@)
}

/// The columns of a member that is about to be inserted.
#[derive(Debug)]
pub struct NewMember<'a> {
    pub name: &'a str,
    pub email: &'a str,
    pub created_at: &'a str,
    pub updated_at: &'a str,
}

} // verus!
