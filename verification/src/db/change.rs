//! Writing a profile to the store, by compare-and-set on its version.
//!
//! A version is a number from 0 to 255. Version 0 stands for a profile that
//! has no row yet. Every write advances the version by one, and the version
//! after 255 is 0: the counter wraps at 256, forwards and backwards alike.
//! A row that has come round to version 0 takes no further write, since a
//! write against version 0 expects that there is no row.

use vstd::prelude::*;
use crate::db::model::ProfileEntry;
use crate::db::model::Row;
use crate::db::model::row_for;
use crate::db::model::try_from_profile;
use crate::db::model::uuid_of;
use crate::db::table::ProfileTable;
use crate::error::DBError;
use crate::profile::path::AttributePath;
use crate::profile::schema::Attribute;
use crate::profile::schema::Profile;

verus! {

/// The number of versions: the counter wraps here.
pub const VERSION_CAP: i32 = 256;

/// The version before `v`: `v - 1`, and 255 before 0. A negative number has
/// no version before it, and gives 0.
pub open spec fn version_before(v: int) -> int {
    if v < 0 {
        0
    } else {
        (256 + v - 1) % 256
    }
}

/// The version after `v`: `v + 1`, and 0 after 255. A negative number has no
/// version after it, and gives 0.
pub open spec fn version_after(v: int) -> int {
    if v < 0 {
        0
    } else {
        (v + 1) % 256
    }
}

/// The version before `v`.
pub fn previous_version(v: i32) -> (before: i32)
    ensures
        before == version_before(v as int),
        0 <= before < 256,
{
    if v < 0 {
        0
    } else {
        (v % VERSION_CAP + VERSION_CAP - 1) % VERSION_CAP
    }
}

/// The version after `v`.
pub fn next_version(v: i32) -> (after: i32)
    ensures
        after == version_after(v as int),
        0 <= after < 256,
{
    if v < 0 {
        0
    } else {
        (v % VERSION_CAP + 1) % VERSION_CAP
    }
}

/// Going one version forwards and one backwards, or the other way round, ends
/// where it began.
pub proof fn lemma_versions_wrap_both_ways(v: int)
    requires
        0 <= v < 256,
    ensures
        version_before(version_after(v)) == v,
        version_after(version_before(v)) == v,
        0 <= version_after(v) < 256,
        0 <= version_before(v) < 256,
        version_after(v) != v,
{
}

/// The table after the row `row` was written against the version `version`.
///
/// Against version 0 the row is new: it is added, unless its UUID has a row.
/// Against any other version the row replaces the row of its UUID, if that row
/// has the version before the new row's. Else the write is a conflict.
pub open spec fn written(table: Map<u128, Row>, row: Row, version: i32) -> Result<
    Map<u128, Row>,
    DBError,
> {
    if version == 0 {
        if table.contains_key(row.uuid) {
            Err(DBError::Conflict)
        } else {
            Ok(table.insert(row.uuid, row))
        }
    } else if table.contains_key(row.uuid) && table[row.uuid].version == version_before(
        row.version as int,
    ) {
        Ok(table.insert(row.uuid, row))
    } else {
        Err(DBError::Conflict)
    }
}

/// The table after the profile was stored against the version `version`,
/// where `uuid` is what the profile's UUID was parsed to: the profile's row at
/// the version after `version` is written against `version`.
pub open spec fn stored(
    table: Map<u128, Row>,
    profile: Map<AttributePath, Attribute>,
    uuid: Option<u128>,
    version: i32,
) -> Result<Map<u128, Row>, DBError> {
    match row_for(profile, uuid, version_after(version as int) as i32) {
        Ok(row) => written(table, row, version),
        Err(error) => Err(error),
    }
}

/// Writes the row against the version `version` and hands out the profile
/// that now stands in the table. A write that is refused changes nothing.
pub fn store_entry(table: &mut ProfileTable, entry: ProfileEntry, version: i32) -> (persisted:
    Result<Profile, DBError>)
    ensures
        match written(old(table)@, entry@, version) {
            Ok(after) => persisted matches Ok(profile) && profile@ == entry@.profile
                && final(table)@ == after,
            Err(error) => final(table)@ == old(table)@ && persisted == Err::<Profile, DBError>(
                error,
            ),
        },
{
    let profile = entry.profile.clone();
    let done = if version == 0 {
        table.insert(entry)
    } else {
        let expected = previous_version(entry.version);
        table.update(entry, expected)
    };
    match done {
        Ok(()) => Ok(profile),
        Err(error) => Err(error),
    }
}

/// Stores the profile against the version `version`: the version of the row
/// that the profile was read from, or 0 for a profile that has no row yet.
/// Hands out the profile that now stands in the table, at the version after
/// `version`.
///
/// The write is refused with `DBError::InvalidProfile` or
/// `DBError::InvalidUuid` where the profile has no row, and with
/// `DBError::Conflict` where the table does not hold what the version
/// promises: then another writer came first, and the caller reads again. A
/// write that is refused changes nothing.
pub fn store_profile(table: &mut ProfileTable, p: Profile, version: i32) -> (persisted: Result<
    Profile,
    DBError,
>)
    ensures
        match stored(old(table)@, p@, uuid_of(p@), version) {
            Ok(after) => persisted matches Ok(profile) && profile@ == p@ && final(table)@ == after,
            Err(error) => final(table)@ == old(table)@ && persisted == Err::<Profile, DBError>(
                error,
            ),
        },
{
    match try_from_profile(p, next_version(version)) {
        Ok(entry) => store_entry(table, entry, version),
        Err(error) => Err(error),
    }
}

/// A write that succeeds leaves every other row as it was, and puts the new
/// row under its UUID. Where it replaces a row, the new version is the
/// version after the old one; where it adds a row, the new version is 1.
pub proof fn lemma_write_advances_the_version(
    table: Map<u128, Row>,
    profile: Map<AttributePath, Attribute>,
    uuid: Option<u128>,
    version: i32,
)
    requires
        stored(table, profile, uuid, version) is Ok,
    ensures
        uuid matches Some(id) && ({
            let after = stored(table, profile, uuid, version)->Ok_0;
            &&& after.contains_key(id)
            &&& after[id].uuid == id
            &&& after[id].profile == profile
            &&& 0 <= after[id].version < 256
            &&& table.contains_key(id) ==> after[id].version == version_after(
                table[id].version as int,
            )
            &&& !table.contains_key(id) ==> after[id].version == 1
            &&& forall|other: u128|
                other != id ==> after.contains_key(other) == table.contains_key(other) && (
                table.contains_key(other) ==> after[other] == table[other])
        }),
{
}

/// The first write of a profile, against version 0 and a table that has no
/// row for its UUID, adds its row at version 1.
pub proof fn lemma_first_write_inserts(table: Map<u128, Row>, row: Row)
    requires
        !table.contains_key(row.uuid),
        row.version == version_after(0),
    ensures
        written(table, row, 0) == Ok::<Map<u128, Row>, DBError>(table.insert(row.uuid, row)),
        row.version == 1,
{
}

/// A write against the version that the row of the UUID has replaces that
/// row, and the new row has the version after it. A write against any other
/// version is a conflict.
pub proof fn lemma_compare_and_set(table: Map<u128, Row>, row: Row, version: i32)
    requires
        table.contains_key(row.uuid),
        0 <= table[row.uuid].version < 256,
        0 <= version < 256,
        row.version == version_after(version as int),
    ensures
        version != 0 && table[row.uuid].version == version ==> written(table, row, version) == Ok::<
            Map<u128, Row>,
            DBError,
        >(table.insert(row.uuid, row)),
        version == 0 || table[row.uuid].version != version ==> written(table, row, version) == Err::<
            Map<u128, Row>,
            DBError,
        >(DBError::Conflict),
{
    lemma_versions_wrap_both_ways(version as int);
}

/// Of two writes against the same version of the same row, the second is a
/// conflict: the first has advanced the version.
pub proof fn lemma_second_writer_loses(table: Map<u128, Row>, first: Row, second: Row, version: i32)
    requires
        first.uuid == second.uuid,
        0 <= version < 256,
        first.version == version_after(version as int),
        second.version == version_after(version as int),
        written(table, first, version) is Ok,
    ensures
        written(written(table, first, version)->Ok_0, second, version) == Err::<
            Map<u128, Row>,
            DBError,
        >(DBError::Conflict),
{
    lemma_versions_wrap_both_ways(version as int);
}

} // verus!
