//! The table of profiles: at most one row for a UUID.

use vstd::prelude::*;
use crate::db::model::ProfileEntry;
use crate::db::model::Row;
use crate::error::DBError;

verus! {

/// Whether the row at `i` exists and has the UUID `uuid`.
spec fn has_uuid_at(rows: Seq<ProfileEntry>, i: int, uuid: u128) -> bool {
    0 <= i < rows.len() && rows[i].uuid == uuid
}

/// Whether no two rows have the same UUID.
spec fn distinct_uuids(rows: Seq<ProfileEntry>) -> bool {
    forall|i: int, j: int|
        0 <= i < j < rows.len() ==> (#[trigger] rows[i]).uuid != (#[trigger] rows[j]).uuid
}

/// The row as the contracts see it. The proofs about the table take it as a
/// whole.
#[verifier::opaque]
spec fn seen(entry: ProfileEntry) -> Row {
    entry@
}

/// What the proofs about the table take as a whole is the row's view.
proof fn lemma_seen(entry: ProfileEntry)
    ensures
        seen(entry) == entry@,
{
    reveal(seen);
}

/// The map that the rows stand for: from the UUIDs that have a row to their
/// rows.
spec fn map_of(rows: Seq<ProfileEntry>) -> Map<u128, Row> {
    Map::new(
        |uuid: u128| exists|i: int| has_uuid_at(rows, i, uuid),
        |uuid: u128| seen(rows[choose|i: int| has_uuid_at(rows, i, uuid)]),
    )
}

/// Every row stands in the map under its UUID, and the map has no other key.
proof fn lemma_rows_are_the_map(rows: Seq<ProfileEntry>)
    requires
        distinct_uuids(rows),
    ensures
        forall|i: int|
            0 <= i < rows.len() ==> map_of(rows).contains_key((#[trigger] rows[i]).uuid) && map_of(
                rows,
            )[rows[i].uuid] == seen(rows[i]),
        forall|uuid: u128|
            map_of(rows).contains_key(uuid) ==> exists|i: int| #[trigger] has_uuid_at(rows, i, uuid),
{
    assert forall|i: int| 0 <= i < rows.len() implies map_of(rows).contains_key(
        (#[trigger] rows[i]).uuid,
    ) && map_of(rows)[rows[i].uuid] == seen(rows[i]) by {
        let uuid = rows[i].uuid;
        assert(has_uuid_at(rows, i, uuid));
        let j = choose|j: int| has_uuid_at(rows, j, uuid);
        assert(j == i);
    }
}

/// The rows after `entry` was put in the place of the row at `at`, or behind
/// the others.
spec fn rows_with(rows: Seq<ProfileEntry>, at: Option<usize>, entry: ProfileEntry) -> Seq<
    ProfileEntry,
> {
    match at {
        Some(i) => rows.update(i as int, entry),
        None => rows.push(entry),
    }
}

/// Putting a row in the place of the row of its UUID, or behind the others
/// where its UUID has none, puts it into the map and changes nothing else.
proof fn lemma_rows_with(rows: Seq<ProfileEntry>, at: Option<usize>, entry: ProfileEntry)
    requires
        distinct_uuids(rows),
        match at {
            Some(i) => has_uuid_at(rows, i as int, entry.uuid),
            None => forall|i: int| !has_uuid_at(rows, i, entry.uuid),
        },
    ensures
        distinct_uuids(rows_with(rows, at, entry)),
        map_of(rows_with(rows, at, entry)) == map_of(rows).insert(entry.uuid, seen(entry)),
{
    let after = rows_with(rows, at, entry);
    let uuid = entry.uuid;
    let row = seen(entry);
    assert forall|a: int, b: int| 0 <= a < b < after.len() implies (#[trigger] after[a]).uuid != (
    #[trigger] after[b]).uuid by {
        match at {
            Some(i) => {
                assert(has_uuid_at(rows, i as int, uuid));
                if a != i {
                    assert(after[a] == rows[a]);
                }
                if b != i {
                    assert(after[b] == rows[b]);
                }
            },
            None => {
                assert(after[a] == rows[a]);
                if b < rows.len() {
                    assert(after[b] == rows[b]);
                } else {
                    assert(!has_uuid_at(rows, a, uuid));
                }
            },
        }
    }
    lemma_rows_are_the_map(rows);
    lemma_rows_are_the_map(after);
    assert forall|k: u128| map_of(rows).insert(uuid, row).contains_key(k) implies #[trigger]
        map_of(after).contains_key(k) by {
        if k != uuid {
            let i = choose|i: int| has_uuid_at(rows, i, k);
            assert(has_uuid_at(after, i, k));
        } else {
            let i = match at {
                Some(i) => i as int,
                None => rows.len() as int,
            };
            assert(has_uuid_at(after, i, k));
        }
    }
    assert forall|k: u128| map_of(after).contains_key(k) implies #[trigger] map_of(rows).insert(
        uuid,
        row,
    ).contains_key(k) && map_of(rows).insert(uuid, row)[k] == map_of(after)[k] by {
        let i = choose|i: int| has_uuid_at(after, i, k);
        assert(has_uuid_at(after, i, k));
        if k != uuid {
            assert(has_uuid_at(rows, i, k));
        }
    }
    assert(map_of(after) =~= map_of(rows).insert(uuid, row));
}

/// The table of profiles, keyed by UUID.
#[derive(Debug)]
pub struct ProfileTable {
    rows: Vec<ProfileEntry>,
}

impl View for ProfileTable {
    type V = Map<u128, Row>;

    /// The table as a map from the UUIDs that have a row to their rows.
    closed spec fn view(&self) -> Map<u128, Row> {
        map_of(self.rows@)
    }
}

impl ProfileTable {
    #[verifier::type_invariant]
    spec fn well_formed(&self) -> bool {
        distinct_uuids(self.rows@)
    }

    /// Every row stands under its own UUID.
    pub proof fn lemma_rows_stand_under_their_uuid(&self)
        ensures
            forall|uuid: u128| self@.contains_key(uuid) ==> (#[trigger] self@[uuid]).uuid == uuid,
    {
        assert forall|uuid: u128| self@.contains_key(uuid) implies (#[trigger] self@[uuid]).uuid
            == uuid by {
            let i = choose|i: int| has_uuid_at(self.rows@, i, uuid);
            assert(has_uuid_at(self.rows@, i, uuid));
            lemma_seen(self.rows@[i]);
        }
    }

    /// The table without any row.
    pub fn new() -> (table: ProfileTable)
        ensures
            table@ == Map::<u128, Row>::empty(),
    {
        let table = ProfileTable { rows: Vec::new() };
        assert(table@ =~= Map::<u128, Row>::empty());
        table
    }

    /// Where the row of the UUID stands, if there is one.
    fn position(&self, uuid: u128) -> (at: Option<usize>)
        ensures
            match at {
                Some(i) => has_uuid_at(self.rows@, i as int, uuid),
                None => forall|i: int| !has_uuid_at(self.rows@, i, uuid),
            },
    {
        let mut i: usize = 0;
        while i < self.rows.len()
            invariant
                i <= self.rows@.len(),
                forall|j: int| 0 <= j < i ==> !has_uuid_at(self.rows@, j, uuid),
            decreases self.rows@.len() - i,
        {
            if self.rows[i].uuid == uuid {
                return Some(i);
            }
            i += 1;
        }
        None
    }

    /// The row of the UUID, if there is one.
    pub fn get(&self, uuid: u128) -> (row: Option<&ProfileEntry>)
        ensures
            match row {
                Some(entry) => self@.contains_key(uuid) && self@[uuid] == entry@,
                None => !self@.contains_key(uuid),
            },
    {
        proof {
            use_type_invariant(self);
            lemma_rows_are_the_map(self.rows@);
        }
        match self.position(uuid) {
            Some(i) => {
                proof {
                    lemma_seen(self.rows@[i as int]);
                }
                Some(&self.rows[i])
            },
            None => None,
        }
    }

    /// Puts the row in the place of the row at `at`, or behind the others.
    fn put(&mut self, at: Option<usize>, entry: ProfileEntry)
        requires
            match at {
                Some(i) => has_uuid_at(old(self).rows@, i as int, entry.uuid),
                None => forall|i: int| !has_uuid_at(old(self).rows@, i, entry.uuid),
            },
        ensures
            final(self)@ == old(self)@.insert(entry.uuid, entry@),
    {
        proof {
            lemma_seen(entry);
            use_type_invariant(&*self);
            lemma_rows_with(self.rows@, at, entry);
        }
        let ghost after = rows_with(self.rows@, at, entry);
        let mut rows: Vec<ProfileEntry> = Vec::new();
        core::mem::swap(&mut self.rows, &mut rows);
        match at {
            Some(i) => {
                rows.set(i, entry);
            },
            None => {
                rows.push(entry);
            },
        }
        assert(rows@ == after);
        core::mem::swap(&mut self.rows, &mut rows);
    }

    /// Adds a row for a UUID that has none. A row for a UUID that has one is
    /// refused with `DBError::Conflict`, and the table stays as it is.
    pub fn insert(&mut self, entry: ProfileEntry) -> (done: Result<(), DBError>)
        ensures
            old(self)@.contains_key(entry.uuid) ==> done == Err::<(), DBError>(DBError::Conflict)
                && final(self)@ == old(self)@,
            !old(self)@.contains_key(entry.uuid) ==> done == Ok::<(), DBError>(()) && final(self)@
                == old(self)@.insert(entry.uuid, entry@),
    {
        proof {
            use_type_invariant(&*self);
            lemma_rows_are_the_map(self.rows@);
        }
        match self.position(entry.uuid) {
            Some(i) => Err(DBError::Conflict),
            None => {
                self.put(None, entry);
                Ok(())
            },
        }
    }

    /// Puts the row in the place of the row of the same UUID, where that row
    /// has the version `expected`. Where the UUID has no row, or one of
    /// another version, the row is refused with `DBError::Conflict`, and the
    /// table stays as it is.
    pub fn update(&mut self, entry: ProfileEntry, expected: i32) -> (done: Result<(), DBError>)
        ensures
            old(self)@.contains_key(entry.uuid) && old(self)@[entry.uuid].version == expected
                ==> done == Ok::<(), DBError>(()) && final(self)@ == old(self)@.insert(
                entry.uuid,
                entry@,
            ),
            !(old(self)@.contains_key(entry.uuid) && old(self)@[entry.uuid].version == expected)
                ==> done == Err::<(), DBError>(DBError::Conflict) && final(self)@ == old(self)@,
    {
        proof {
            use_type_invariant(&*self);
            lemma_rows_are_the_map(self.rows@);
        }
        match self.position(entry.uuid) {
            Some(i) => {
                proof {
                    lemma_seen(self.rows@[i as int]);
                }
                if self.rows[i].version == expected {
                    self.put(Some(i), entry);
                    Ok(())
                } else {
                    Err(DBError::Conflict)
                }
            },
            None => Err(DBError::Conflict),
        }
    }

    /// Whether the table has no row.
    pub fn is_empty(&self) -> (empty: bool)
        ensures
            empty == (self@ == Map::<u128, Row>::empty()),
    {
        proof {
            use_type_invariant(self);
            lemma_rows_are_the_map(self.rows@);
            if self.rows@.len() == 0 {
                assert(self@ =~= Map::<u128, Row>::empty());
            } else {
                assert(self@.contains_key(self.rows@[0].uuid));
            }
        }
        self.rows.len() == 0
    }
}

impl Default for ProfileTable {
    fn default() -> (table: ProfileTable)
        ensures
            table@ == Map::<u128, Row>::empty(),
    {
        ProfileTable::new()
    }
}

} // verus!
