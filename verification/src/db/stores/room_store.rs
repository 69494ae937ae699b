//! The table of room mappings: one row per bridged room, unique by row id,
//! by the room on the federated side and by the stream of an organization
//! on the team-chat side.

use vstd::prelude::*;
use vstd::string::StringExecFns;
use crate::db::error::DatabaseError;
use crate::db::models::{NewRoomMapping, RoomMapping, RoomType};
use crate::db::stores::{
    at_most_one, find_first, is_first_match, lemma_filter_take_step, lemma_find_first_unique,
    lemma_first_match, lemma_remove_first_match, without,
};
use crate::text::str_eq;
use crate::utils::clock::now_millis;

verus! {

/// The rows with the row id `id`.
pub open spec fn room_has_id(id: i64) -> spec_fn(RoomMapping) -> bool {
    |r: RoomMapping| r.id == id
}

/// The rows of the room `matrix_room_id`.
pub open spec fn room_has_matrix_room(matrix_room_id: Seq<char>) -> spec_fn(RoomMapping) -> bool {
    |r: RoomMapping| r.matrix_room_id@ == matrix_room_id
}

/// The rows of the stream `zulip_stream_id` of the organization
/// `organization_id`.
pub open spec fn room_has_zulip_stream(
    organization_id: Seq<char>,
    zulip_stream_id: i64,
) -> spec_fn(RoomMapping) -> bool {
    |r: RoomMapping| r.organization_id@ == organization_id && r.zulip_stream_id == zulip_stream_id
}

/// The rows of the rooms of the organization `organization_id`.
pub open spec fn room_in_organization(organization_id: Seq<char>) -> spec_fn(RoomMapping) -> bool {
    |r: RoomMapping| r.organization_id@ == organization_id
}

/// The rows of the rooms of the organization `organization_id` whose type
/// is named `room_type`.
pub open spec fn room_of_type(
    organization_id: Seq<char>,
    room_type: Seq<char>,
) -> spec_fn(RoomMapping) -> bool {
    |r: RoomMapping| r.organization_id@ == organization_id && r.room_type@ == room_type
}

/// The uniqueness constraints of the table: no two rows share a row id, a
/// room, or the stream of one organization.
pub open spec fn room_rows_unique(rows: Seq<RoomMapping>) -> bool {
    forall|i: int, j: int|
        0 <= i < rows.len() && 0 <= j < rows.len() && i != j ==> {
            &&& (#[trigger] rows[i]).id != (#[trigger] rows[j]).id
            &&& rows[i].matrix_room_id@ != rows[j].matrix_room_id@
            &&& !(rows[i].organization_id@ == rows[j].organization_id@
                && rows[i].zulip_stream_id == rows[j].zulip_stream_id)
        }
}

/// Whether a new row for `room` would break a uniqueness constraint.
pub open spec fn room_conflicts(rows: Seq<RoomMapping>, room: NewRoomMapping) -> bool {
    exists|i: int|
        0 <= i < rows.len() && ((#[trigger] rows[i]).matrix_room_id@ == room.matrix_room_id@ || (
        rows[i].organization_id@ == room.organization_id@ && rows[i].zulip_stream_id
            == room.zulip_stream_id))
}

/// The row that `room` becomes when stored under `id` at the instant `now`.
pub open spec fn new_room_row(room: NewRoomMapping, id: i64, now: i64) -> RoomMapping {
    RoomMapping {
        id,
        matrix_room_id: room.matrix_room_id,
        zulip_stream_id: room.zulip_stream_id,
        zulip_stream_name: room.zulip_stream_name,
        zulip_topic: room.zulip_topic,
        organization_id: room.organization_id,
        room_type: room.room_type,
        created_at: now,
        updated_at: now,
    }
}

/// The table of room mappings, held in memory.
pub struct RoomStore {
    rows: Vec<RoomMapping>,
    next_id: i64,
}

impl RoomStore {
    /// The rows of the table, oldest first.
    pub closed spec fn rows(&self) -> Seq<RoomMapping> {
        self.rows@
    }

    /// The row id that the next new row gets.
    pub closed spec fn next_id(&self) -> i64 {
        self.next_id
    }

    /// The table's invariant: the uniqueness constraints hold, and every row
    /// id is positive and below the next one to be given out.
    pub closed spec fn wf(&self) -> bool {
        &&& room_rows_unique(self.rows@)
        &&& self.next_id >= 1
        &&& forall|i: int|
            0 <= i < self.rows@.len() ==> 0 < (#[trigger] self.rows@[i]).id < self.next_id
    }

    /// A well-formed table keeps its uniqueness constraints, and its row ids
    /// lie below the next one to be given out.
    pub proof fn lemma_unique(&self)
        requires
            self.wf(),
        ensures
            room_rows_unique(self.rows()),
            forall|i: int|
                0 <= i < self.rows().len() ==> (#[trigger] self.rows()[i]).id < self.next_id(),
    {
    }

    /// An empty table.
    pub fn new() -> (r: Self)
        ensures
            r.wf(),
            r.rows() == Seq::<RoomMapping>::empty(),
            r.next_id() == 1,
    {
        RoomStore { rows: Vec::new(), next_id: 1 }
    }

    /// The row id that the next new row gets.
    pub fn next_row_id(&self) -> (r: i64)
        ensures
            r == self.next_id(),
    {
        self.next_id
    }

    /// The number of rows.
    pub fn len(&self) -> (r: usize)
        ensures
            r == self.rows().len(),
    {
        self.rows.len()
    }

    fn index_of_id(&self, id: i64) -> (r: Option<usize>)
        ensures
            is_first_match(self.rows@, room_has_id(id), r),
    {
        let ghost p = room_has_id(id);
        let mut i: usize = 0;
        while i < self.rows.len()
            invariant
                i <= self.rows@.len(),
                p == room_has_id(id),
                forall|k: int| 0 <= k < i ==> !p(#[trigger] self.rows@[k]),
            decreases self.rows@.len() - i,
        {
            if self.rows[i].id == id {
                return Some(i);
            }
            i += 1;
        }
        None
    }

    fn index_of_matrix_room(&self, matrix_room_id: &str) -> (r: Option<usize>)
        ensures
            is_first_match(self.rows@, room_has_matrix_room(matrix_room_id@), r),
    {
        let ghost p = room_has_matrix_room(matrix_room_id@);
        let mut i: usize = 0;
        while i < self.rows.len()
            invariant
                i <= self.rows@.len(),
                p == room_has_matrix_room(matrix_room_id@),
                forall|k: int| 0 <= k < i ==> !p(#[trigger] self.rows@[k]),
            decreases self.rows@.len() - i,
        {
            if str_eq(self.rows[i].matrix_room_id.as_str(), matrix_room_id) {
                return Some(i);
            }
            i += 1;
        }
        None
    }

    fn index_of_zulip_stream(
        &self,
        organization_id: &str,
        zulip_stream_id: i64,
    ) -> (r: Option<usize>)
        ensures
            is_first_match(self.rows@, room_has_zulip_stream(organization_id@, zulip_stream_id), r),
    {
        let ghost p = room_has_zulip_stream(organization_id@, zulip_stream_id);
        let mut i: usize = 0;
        while i < self.rows.len()
            invariant
                i <= self.rows@.len(),
                p == room_has_zulip_stream(organization_id@, zulip_stream_id),
                forall|k: int| 0 <= k < i ==> !p(#[trigger] self.rows@[k]),
            decreases self.rows@.len() - i,
        {
            if str_eq(self.rows[i].organization_id.as_str(), organization_id)
                && self.rows[i].zulip_stream_id == zulip_stream_id {
                return Some(i);
            }
            i += 1;
        }
        None
    }

    /// Stores a new row for `room`, stamped `now`. Fails, and changes nothing,
    /// where the room or the stream of that organization already has a row,
    /// or where no row id is left.
    pub fn create_at(&mut self, room: NewRoomMapping, now: i64) -> (r: Result<
        RoomMapping,
        DatabaseError,
    >)
        requires
            old(self).wf(),
        ensures
            final(self).wf(),
            match r {
                Ok(row) => {
                    &&& !room_conflicts(old(self).rows(), room)
                    &&& row == new_room_row(room, old(self).next_id(), now)
                    &&& final(self).rows() == old(self).rows().push(row)
                    &&& final(self).next_id() == old(self).next_id() + 1
                },
                Err(e) => {
                    &&& e is Query
                    &&& room_conflicts(old(self).rows(), room) || old(self).next_id() == i64::MAX
                    &&& final(self).rows() == old(self).rows()
                    &&& final(self).next_id() == old(self).next_id()
                },
            },
    {
        if self.index_of_matrix_room(room.matrix_room_id.as_str()).is_some()
            || self.index_of_zulip_stream(
            room.organization_id.as_str(),
            room.zulip_stream_id,
        ).is_some() {
            return Err(
                DatabaseError::Query(
                    String::from_str("duplicate key value violates unique constraint"),
                ),
            );
        }
        if self.next_id == i64::MAX {
            return Err(DatabaseError::Query(String::from_str("row ids exhausted")));
        }
        let row = RoomMapping {
            id: self.next_id,
            matrix_room_id: room.matrix_room_id,
            zulip_stream_id: room.zulip_stream_id,
            zulip_stream_name: room.zulip_stream_name,
            zulip_topic: room.zulip_topic,
            organization_id: room.organization_id,
            room_type: room.room_type,
            created_at: now,
            updated_at: now,
        };
        let copy = row.clone();
        self.rows.push(row);
        self.next_id = self.next_id + 1;
        Ok(copy)
    }

    /// Stores a new row for `room`, stamped with the current time.
    pub fn create(&mut self, room: NewRoomMapping) -> (r: Result<RoomMapping, DatabaseError>)
        requires
            old(self).wf(),
        ensures
            final(self).wf(),
            match r {
                Ok(row) => {
                    &&& !room_conflicts(old(self).rows(), room)
                    &&& row == new_room_row(room, old(self).next_id(), row.created_at)
                    &&& final(self).rows() == old(self).rows().push(row)
                    &&& final(self).next_id() == old(self).next_id() + 1
                },
                Err(e) => {
                    &&& e is Query
                    &&& room_conflicts(old(self).rows(), room) || old(self).next_id() == i64::MAX
                    &&& final(self).rows() == old(self).rows()
                    &&& final(self).next_id() == old(self).next_id()
                },
            },
    {
        let now = now_millis();
        self.create_at(room, now)
    }

    /// The row with the row id `id`.
    pub fn get(&self, id: i64) -> (r: Option<RoomMapping>)
        ensures
            r == find_first(self.rows(), room_has_id(id)),
    {
        let found = self.index_of_id(id);
        proof {
            lemma_first_match(self.rows@, room_has_id(id), found);
        }
        match found {
            Some(i) => Some(self.rows[i].clone()),
            None => None,
        }
    }

    /// The row of the room `matrix_room_id`.
    pub fn get_by_matrix_room(&self, matrix_room_id: &str) -> (r: Option<RoomMapping>)
        ensures
            r == find_first(self.rows(), room_has_matrix_room(matrix_room_id@)),
    {
        let found = self.index_of_matrix_room(matrix_room_id);
        proof {
            lemma_first_match(self.rows@, room_has_matrix_room(matrix_room_id@), found);
        }
        match found {
            Some(i) => Some(self.rows[i].clone()),
            None => None,
        }
    }

    /// The row of the stream `zulip_stream_id` of the organization
    /// `organization_id`.
    pub fn get_by_zulip_stream(
        &self,
        organization_id: &str,
        zulip_stream_id: i64,
    ) -> (r: Option<RoomMapping>)
        ensures
            r == find_first(self.rows(), room_has_zulip_stream(organization_id@, zulip_stream_id)),
    {
        let found = self.index_of_zulip_stream(organization_id, zulip_stream_id);
        proof {
            lemma_first_match(
                self.rows@,
                room_has_zulip_stream(organization_id@, zulip_stream_id),
                found,
            );
        }
        match found {
            Some(i) => Some(self.rows[i].clone()),
            None => None,
        }
    }

    fn remove_at(&mut self, i: usize)
        requires
            old(self).wf(),
            i < old(self).rows@.len(),
        ensures
            final(self).wf(),
            final(self).rows@ == old(self).rows@.remove(i as int),
            final(self).next_id == old(self).next_id,
    {
        self.rows.remove(i);
    }

    /// Deletes the row with the row id `id`, if there is one.
    pub fn delete(&mut self, id: i64) -> (r: Result<(), DatabaseError>)
        requires
            old(self).wf(),
        ensures
            final(self).wf(),
            r is Ok,
            final(self).rows() == without(old(self).rows(), room_has_id(id)),
            final(self).next_id() == old(self).next_id(),
    {
        let found = self.index_of_id(id);
        proof {
            let p = room_has_id(id);
            assert(at_most_one(self.rows@, p));
            lemma_remove_first_match(self.rows@, p, found);
        }
        if let Some(i) = found {
            self.remove_at(i);
        }
        Ok(())
    }

    /// Deletes the row of the room `matrix_room_id`, if there is one.
    pub fn delete_by_matrix_room(&mut self, matrix_room_id: &str) -> (r: Result<(), DatabaseError>)
        requires
            old(self).wf(),
        ensures
            final(self).wf(),
            r is Ok,
            final(self).rows() == without(old(self).rows(), room_has_matrix_room(matrix_room_id@)),
            final(self).next_id() == old(self).next_id(),
    {
        let found = self.index_of_matrix_room(matrix_room_id);
        proof {
            let p = room_has_matrix_room(matrix_room_id@);
            assert(at_most_one(self.rows@, p));
            lemma_remove_first_match(self.rows@, p, found);
        }
        if let Some(i) = found {
            self.remove_at(i);
        }
        Ok(())
    }

    /// Whether the room `matrix_room_id` has a row.
    pub fn exists_by_matrix_room(&self, matrix_room_id: &str) -> (r: bool)
        ensures
            r == find_first(self.rows(), room_has_matrix_room(matrix_room_id@)) is Some,
    {
        let found = self.index_of_matrix_room(matrix_room_id);
        proof {
            lemma_first_match(self.rows@, room_has_matrix_room(matrix_room_id@), found);
        }
        found.is_some()
    }

    /// The rows of the rooms of the organization `organization_id`, oldest
    /// first.
    pub fn get_by_organization(&self, organization_id: &str) -> (r: Vec<RoomMapping>)
        ensures
            r@ == self.rows().filter(room_in_organization(organization_id@)),
    {
        let mut out: Vec<RoomMapping> = Vec::new();
        let ghost p = room_in_organization(organization_id@);
        let mut i: usize = 0;
        proof {
            reveal(Seq::filter);
            assert(self.rows@.take(0) =~= Seq::<RoomMapping>::empty());
        }
        while i < self.rows.len()
            invariant
                i <= self.rows@.len(),
                p == room_in_organization(organization_id@),
                out@ == self.rows@.take(i as int).filter(p),
            decreases self.rows@.len() - i,
        {
            proof {
                lemma_filter_take_step(self.rows@, p, i as int);
            }
            if str_eq(self.rows[i].organization_id.as_str(), organization_id) {
                out.push(self.rows[i].clone());
            }
            i += 1;
        }
        proof {
            assert(self.rows@.take(self.rows@.len() as int) =~= self.rows@);
        }
        out
    }

    /// The rows of the rooms of the organization `organization_id` that are
    /// of the type `room_type`, oldest first.
    pub fn get_by_type(&self, organization_id: &str, room_type: RoomType) -> (r: Vec<
        RoomMapping,
    >)
        ensures
            r@ == self.rows().filter(room_of_type(organization_id@, room_type.name())),
    {
        let mut out: Vec<RoomMapping> = Vec::new();
        let wanted_type = room_type.as_str();
        let ghost p = room_of_type(organization_id@, room_type.name());
        let mut i: usize = 0;
        proof {
            reveal(Seq::filter);
            assert(self.rows@.take(0) =~= Seq::<RoomMapping>::empty());
        }
        while i < self.rows.len()
            invariant
                i <= self.rows@.len(),
                wanted_type@ == room_type.name(),
                p == room_of_type(organization_id@, room_type.name()),
                out@ == self.rows@.take(i as int).filter(p),
            decreases self.rows@.len() - i,
        {
            proof {
                lemma_filter_take_step(self.rows@, p, i as int);
            }
            if str_eq(self.rows[i].organization_id.as_str(), organization_id) && str_eq(
                self.rows[i].room_type.as_str(),
                wanted_type,
            ) {
                out.push(self.rows[i].clone());
            }
            i += 1;
        }
        proof {
            assert(self.rows@.take(self.rows@.len() as int) =~= self.rows@);
        }
        out
    }
}

/// Each row of a table that keeps its uniqueness constraints is the one that
/// a lookup by its room finds, and the one that a lookup by its stream
/// finds: there is exactly one row per room and one per stream of an
/// organization.
pub proof fn lemma_room_lookups_agree(rows: Seq<RoomMapping>, i: int)
    requires
        room_rows_unique(rows),
        0 <= i < rows.len(),
    ensures
        find_first(rows, room_has_matrix_room(rows[i].matrix_room_id@)) == Some(rows[i]),
        find_first(rows, room_has_zulip_stream(rows[i].organization_id@, rows[i].zulip_stream_id))
            == Some(rows[i]),
{
    lemma_find_first_unique(rows, room_has_matrix_room(rows[i].matrix_room_id@), i);
    lemma_find_first_unique(
        rows,
        room_has_zulip_stream(rows[i].organization_id@, rows[i].zulip_stream_id),
        i,
    );
}

} // verus!
