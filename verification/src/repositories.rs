//! The three repositories over the in-memory store, and the schema that
//! they work on.

pub mod book_repository;
pub mod library_repository;
pub mod member_repository;

use crate::schema::Relation;
use crate::store::Store;
use vstd::prelude::*;

verus! {

/// Creates the six relations, each one where it does not exist yet, in the
/// order in which they refer to each other: members, library, books, then
/// the holdings, the rosters and the ledger. Rows that are there stay, so the
/// call is safe at every start.
pub fn create_tables(store: &mut Store)
    requires
        old(store).wf(),
    ensures
        final(store).wf(),
        final(store)@ == old(store)@.with_schema(),
        final(store)@.ready(),
{
    proof {
        old(store)@.lemma_with_schema();
    }
    store.create_relation(Relation::Members);
    store.create_relation(Relation::Library);
    store.create_relation(Relation::Books);
    store.create_relation(Relation::LibraryBooks);
    store.create_relation(Relation::LibraryMembers);
    store.create_relation(Relation::BorrowedBooks);
}

} // verus!
