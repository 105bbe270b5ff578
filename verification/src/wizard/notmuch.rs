//! Setup of the local search-index backend: the configuration built from
//! the answered prompt.

use vstd::prelude::*;

use crate::config::NotmuchConfig;

verus! {

/// Build the search-index backend configuration from the database path the
/// user gave, if any.
pub fn start(database_path: Option<String>) -> (r: NotmuchConfig)
    ensures
        r.database_path == database_path,
{
    NotmuchConfig { database_path }
}

} // verus!
