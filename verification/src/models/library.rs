use vstd::prelude::*;

verus! {

/// A library, run by the member that `manager_id` names.
#[derive(Debug, PartialEq, Eq)]
pub struct Library {
    pub id: i32,
    pub name: String,
    pub address: String,
    pub created_at: String,
    pub updated_at: String,
    pub manager_id: i32,
}

/// What a `Library` is to a contract.
pub struct LibraryRow {
    pub id: int,
    pub name: Seq<char>,
    pub address: Seq<char>,
    pub created_at: Seq<char>,
    pub updated_at: Seq<char>,
    pub manager_id: int,
}

impl View for Library {
    type V = LibraryRow;

    open spec fn view(&self) -> LibraryRow {
        LibraryRow {
            id: self.id as int,
            name: self.name@,
            address: self.address@,
            created_at: self.created_at@,
            updated_at: self.updated_at@,
            manager_id: self.manager_id as int,
        }
    }
}

impl Clone for Library {
    fn clone(&self) -> (copy: Library)
        ensures
            copy@ == self@,
    {
        Library {
            id: self.id,
            name: self.name.clone(),
            address: self.address.clone(),
            created_at: self.created_at.clone(),
            updated_at: self.updated_at.clone(),
            manager_id: self.manager_id,
        }
    }
}

/// The rows of a sequence of libraries.
pub open spec fn library_rows(libraries: Seq<Library>) -> Seq<LibraryRow> {
    libraries.map_values(|l: Library| l@)
}

/// The columns of a library that is about to be inserted.
#[derive(Debug)]
pub struct NewLibrary<'a> {
    pub name: &'a str,
    pub address: &'a str,
    pub manager_id: &'a i32,
    pub created_at: &'a str,
    pub updated_at: &'a str,
}

/// One row of the membership roster, keyed by `(library_id, member_id)`.
#[derive(Debug, Clone, Copy, PartialEq, Eq, Structural)]
pub struct LibraryMember {
    pub library_id: i32,
    pub member_id: i32,
}

/// What a `LibraryMember` is to a contract.
pub struct RosterRow {
    pub library_id: int,
    pub member_id: int,
}

impl View for LibraryMember {
    type V = RosterRow;

    open spec fn view(&self) -> RosterRow {
        RosterRow { library_id: self.library_id as int, member_id: self.member_id as int }
    }
}

/// The rows of a sequence of roster entries.
pub open spec fn roster_rows(roster: Seq<LibraryMember>) -> Seq<RosterRow> {
    roster.map_values(|r: LibraryMember| r@)
}

} // verus!
