use vstd::prelude::*;

verus! {

/// The six relations of the store.
#[derive(Debug, Clone, Copy, PartialEq, Eq, Structural)]
pub enum Relation {
    Members,
    Library,
    Books,
    LibraryBooks,
    LibraryMembers,
    BorrowedBooks,
}

/// The relations in the order in which they are created: each one after
/// those that it refers to.
pub open spec fn dependency_order() -> Seq<Relation> {
    seq![
        Relation::Members,
        Relation::Library,
        Relation::Books,
        Relation::LibraryBooks,
        Relation::LibraryMembers,
        Relation::BorrowedBooks,
    ]
}

/// The relations in the order in which they are created.
pub fn relations_in_order() -> (order: Vec<Relation>)
    ensures
        order@ == dependency_order(),
{
    let mut order: Vec<Relation> = Vec::new();
    order.push(Relation::Members);
    order.push(Relation::Library);
    order.push(Relation::Books);
    order.push(Relation::LibraryBooks);
    order.push(Relation::LibraryMembers);
    order.push(Relation::BorrowedBooks);
    proof {
        assert(order@ =~= dependency_order());
    }
    order
}

} // verus!
