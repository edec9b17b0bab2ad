//! Where the store is kept.

use vstd::prelude::*;

verus! {

/// The location of the store where none is configured.
pub open spec fn default_database_url() -> Seq<char> {
    "sqlite://my_database.db"@
}

/// The location of the store: the configured one, or the fixed default
/// where none is configured.
pub fn database_url(configured: Option<String>) -> (url: String)
    ensures
        url@ == match configured {
            Some(location) => location@,
            None => default_database_url(),
        },
{
    match configured {
        Some(location) => location,
        None => "sqlite://my_database.db".to_owned(),
    }
}

} // verus!
