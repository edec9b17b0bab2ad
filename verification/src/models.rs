//! The rows of the catalog: books, libraries, members, and the rows
//! that link them.

pub mod book;
pub mod library;
pub mod member;
