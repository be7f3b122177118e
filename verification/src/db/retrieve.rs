//! Reading a profile from the store.

use vstd::prelude::*;
use crate::db::model::Row;
use crate::db::table::ProfileTable;
use crate::error::DBError;
use crate::profile::display::DisplayFilter;
use crate::profile::path::AttributePath;
use crate::profile::schema::Attribute;
use crate::profile::schema::Profile;

verus! {

/// The profile of the row that has the UUID and whose active flag passes the
/// filter, or `DBError::NotFound` where there is no such row.
pub open spec fn retrieved(table: Map<u128, Row>, uuid: u128, filter: DisplayFilter) -> Result<
    Map<AttributePath, Attribute>,
    DBError,
> {
    if table.contains_key(uuid) && filter.admits(table[uuid].active) {
        Ok(table[uuid].profile)
    } else {
        Err(DBError::NotFound)
    }
}

/// Whether the flag is among the flags.
fn lists_flag(flags: &[bool], flag: bool) -> (found: bool)
    ensures
        found == flags@.contains(flag),
{
    let mut i: usize = 0;
    while i < flags.len()
        invariant
            i <= flags@.len(),
            forall|j: int| 0 <= j < i ==> flags@[j] != flag,
        decreases flags@.len() - i,
    {
        if flags[i] == flag {
            assert(flags@[i as int] == flag);
            return true;
        }
        i += 1;
    }
    false
}

/// Reads the profile of the UUID, if its row passes the filter.
pub fn retrieve_profile(table: &ProfileTable, uuid: u128, filter: DisplayFilter) -> (profile:
    Result<Profile, DBError>)
    ensures
        match retrieved(table@, uuid, filter) {
            Ok(found) => profile matches Ok(p) && p@ == found,
            Err(error) => profile == Err::<Profile, DBError>(error),
        },
{
    proof {
        filter.lemma_values_are_admitted(true);
        filter.lemma_values_are_admitted(false);
    }
    match table.get(uuid) {
        Some(entry) => {
            if lists_flag(filter.filter(), entry.active) {
                Ok(entry.profile.clone())
            } else {
                Err(DBError::NotFound)
            }
        },
        None => Err(DBError::NotFound),
    }
}

/// A row is found without a filter, and with a filter exactly where its
/// active flag is the one that the filter asks for.
pub proof fn lemma_retrieval_filter(table: Map<u128, Row>, uuid: u128)
    requires
        table.contains_key(uuid),
    ensures
        retrieved(table, uuid, DisplayFilter::Any) is Ok,
        retrieved(table, uuid, DisplayFilter::True) is Ok <==> table[uuid].active,
        retrieved(table, uuid, DisplayFilter::False) is Ok <==> !table[uuid].active,
        forall|filter: DisplayFilter| #[trigger]
            retrieved(table, uuid, filter) is Err ==> retrieved(table, uuid, filter) == Err::<
                Map<AttributePath, Attribute>,
                DBError,
            >(DBError::NotFound),
{
}

/// A UUID without a row is not found, whatever the filter.
pub proof fn lemma_missing_row_is_not_found(table: Map<u128, Row>, uuid: u128, filter: DisplayFilter)
    requires
        !table.contains_key(uuid),
    ensures
        retrieved(table, uuid, filter) == Err::<Map<AttributePath, Attribute>, DBError>(
            DBError::NotFound,
        ),
{
}

} // verus!
