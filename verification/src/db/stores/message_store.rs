//! The table of message mappings: one row per bridged message, unique by row
//! id, by the event on the federated side and by the message on the
//! team-chat side.

use vstd::prelude::*;
use vstd::string::StringExecFns;
use crate::db::error::DatabaseError;
use crate::db::models::{MessageMapping, NewMessageMapping};
use crate::db::stores::{
    at_most_one, find_first, is_first_match, lemma_filter_take_step, lemma_find_first_unique,
    lemma_first_match, lemma_remove_first_match, without,
};
use crate::text::str_eq;
use crate::utils::clock::now_millis;

verus! {

/// The rows with the row id `id`.
pub open spec fn message_has_id(id: i64) -> spec_fn(MessageMapping) -> bool {
    |r: MessageMapping| r.id == id
}

/// The rows of the event `matrix_event_id`.
pub open spec fn message_has_matrix_event(
    matrix_event_id: Seq<char>,
) -> spec_fn(MessageMapping) -> bool {
    |r: MessageMapping| r.matrix_event_id@ == matrix_event_id
}

/// The rows of the message `zulip_message_id`.
pub open spec fn message_has_zulip_message(
    zulip_message_id: i64,
) -> spec_fn(MessageMapping) -> bool {
    |r: MessageMapping| r.zulip_message_id == zulip_message_id
}

/// The rows of the messages in the room `matrix_room_id`.
pub open spec fn message_in_room(matrix_room_id: Seq<char>) -> spec_fn(MessageMapping) -> bool {
    |r: MessageMapping| r.matrix_room_id@ == matrix_room_id
}

/// The uniqueness constraints of the table: no two rows share a row id, an
/// event or a message.
pub open spec fn message_rows_unique(rows: Seq<MessageMapping>) -> bool {
    forall|i: int, j: int|
        0 <= i < rows.len() && 0 <= j < rows.len() && i != j ==> {
            &&& (#[trigger] rows[i]).id != (#[trigger] rows[j]).id
            &&& rows[i].matrix_event_id@ != rows[j].matrix_event_id@
            &&& rows[i].zulip_message_id != rows[j].zulip_message_id
        }
}

/// Whether a new row for `message` would break a uniqueness constraint.
pub open spec fn message_conflicts(rows: Seq<MessageMapping>, message: NewMessageMapping) -> bool {
    exists|i: int|
        0 <= i < rows.len() && ((#[trigger] rows[i]).matrix_event_id@ == message.matrix_event_id@
            || rows[i].zulip_message_id == message.zulip_message_id)
}

/// The row that `message` becomes when stored under `id` at the instant
/// `now`.
pub open spec fn new_message_row(message: NewMessageMapping, id: i64, now: i64) -> MessageMapping {
    MessageMapping {
        id,
        matrix_event_id: message.matrix_event_id,
        matrix_room_id: message.matrix_room_id,
        zulip_message_id: message.zulip_message_id,
        zulip_sender_id: message.zulip_sender_id,
        message_type: message.message_type,
        created_at: now,
    }
}

/// The first `limit` rows of `rows`, latest first.
pub open spec fn latest_first<R>(rows: Seq<R>, limit: int) -> Seq<R> {
    Seq::new(
        if limit < rows.len() {
            limit as nat
        } else {
            rows.len()
        },
        |k: int| rows[rows.len() - 1 - k],
    )
}

/// The table of message mappings, held in memory.
pub struct MessageStore {
    rows: Vec<MessageMapping>,
    next_id: i64,
}

impl MessageStore {
    /// The rows of the table, oldest first.
    pub closed spec fn rows(&self) -> Seq<MessageMapping> {
        self.rows@
    }

    /// The row id that the next new row gets.
    pub closed spec fn next_id(&self) -> i64 {
        self.next_id
    }

    /// The table's invariant: the uniqueness constraints hold, and every row
    /// id is positive and below the next one to be given out.
    pub closed spec fn wf(&self) -> bool {
        &&& message_rows_unique(self.rows@)
        &&& self.next_id >= 1
        &&& forall|i: int|
            0 <= i < self.rows@.len() ==> 0 < (#[trigger] self.rows@[i]).id < self.next_id
    }

    /// A well-formed table keeps its uniqueness constraints, and its row ids
    /// lie below the next one to be given out.
    pub proof fn lemma_unique(&self)
        requires
            self.wf(),
        ensures
            message_rows_unique(self.rows()),
            forall|i: int|
                0 <= i < self.rows().len() ==> (#[trigger] self.rows()[i]).id < self.next_id(),
    {
    }

    /// An empty table.
    pub fn new() -> (r: Self)
        ensures
            r.wf(),
            r.rows() == Seq::<MessageMapping>::empty(),
            r.next_id() == 1,
    {
        MessageStore { rows: Vec::new(), next_id: 1 }
    }

    /// The row id that the next new row gets.
    pub fn next_row_id(&self) -> (r: i64)
        ensures
            r == self.next_id(),
    {
        self.next_id
    }

    /// The number of rows.
    pub fn len(&self) -> (r: usize)
        ensures
            r == self.rows().len(),
    {
        self.rows.len()
    }

    fn index_of_id(&self, id: i64) -> (r: Option<usize>)
        ensures
            is_first_match(self.rows@, message_has_id(id), r),
    {
        let ghost p = message_has_id(id);
        let mut i: usize = 0;
        while i < self.rows.len()
            invariant
                i <= self.rows@.len(),
                p == message_has_id(id),
                forall|k: int| 0 <= k < i ==> !p(#[trigger] self.rows@[k]),
            decreases self.rows@.len() - i,
        {
            if self.rows[i].id == id {
                return Some(i);
            }
            i += 1;
        }
        None
    }

    fn index_of_matrix_event(&self, matrix_event_id: &str) -> (r: Option<usize>)
        ensures
            is_first_match(self.rows@, message_has_matrix_event(matrix_event_id@), r),
    {
        let ghost p = message_has_matrix_event(matrix_event_id@);
        let mut i: usize = 0;
        while i < self.rows.len()
            invariant
                i <= self.rows@.len(),
                p == message_has_matrix_event(matrix_event_id@),
                forall|k: int| 0 <= k < i ==> !p(#[trigger] self.rows@[k]),
            decreases self.rows@.len() - i,
        {
            if str_eq(self.rows[i].matrix_event_id.as_str(), matrix_event_id) {
                return Some(i);
            }
            i += 1;
        }
        None
    }

    fn index_of_zulip_message(&self, zulip_message_id: i64) -> (r: Option<usize>)
        ensures
            is_first_match(self.rows@, message_has_zulip_message(zulip_message_id), r),
    {
        let ghost p = message_has_zulip_message(zulip_message_id);
        let mut i: usize = 0;
        while i < self.rows.len()
            invariant
                i <= self.rows@.len(),
                p == message_has_zulip_message(zulip_message_id),
                forall|k: int| 0 <= k < i ==> !p(#[trigger] self.rows@[k]),
            decreases self.rows@.len() - i,
        {
            if self.rows[i].zulip_message_id == zulip_message_id {
                return Some(i);
            }
            i += 1;
        }
        None
    }

    /// Stores a new row for `message`, stamped `now`. Fails, and changes
    /// nothing, where the event or the message already has a row, or where
    /// no row id is left.
    pub fn create_at(&mut self, message: NewMessageMapping, now: i64) -> (r: Result<
        MessageMapping,
        DatabaseError,
    >)
        requires
            old(self).wf(),
        ensures
            final(self).wf(),
            match r {
                Ok(row) => {
                    &&& !message_conflicts(old(self).rows(), message)
                    &&& row == new_message_row(message, old(self).next_id(), now)
                    &&& final(self).rows() == old(self).rows().push(row)
                    &&& final(self).next_id() == old(self).next_id() + 1
                },
                Err(e) => {
                    &&& e is Query
                    &&& message_conflicts(old(self).rows(), message) || old(self).next_id()
                        == i64::MAX
                    &&& final(self).rows() == old(self).rows()
                    &&& final(self).next_id() == old(self).next_id()
                },
            },
    {
        if self.index_of_matrix_event(message.matrix_event_id.as_str()).is_some()
            || self.index_of_zulip_message(message.zulip_message_id).is_some() {
            return Err(
                DatabaseError::Query(
                    String::from_str("duplicate key value violates unique constraint"),
                ),
            );
        }
        if self.next_id == i64::MAX {
            return Err(DatabaseError::Query(String::from_str("row ids exhausted")));
        }
        let row = MessageMapping {
            id: self.next_id,
            matrix_event_id: message.matrix_event_id,
            matrix_room_id: message.matrix_room_id,
            zulip_message_id: message.zulip_message_id,
            zulip_sender_id: message.zulip_sender_id,
            message_type: message.message_type,
            created_at: now,
        };
        let copy = row.clone();
        self.rows.push(row);
        self.next_id = self.next_id + 1;
        Ok(copy)
    }

    /// Stores a new row for `message`, stamped with the current time.
    pub fn create(&mut self, message: NewMessageMapping) -> (r: Result<
        MessageMapping,
        DatabaseError,
    >)
        requires
            old(self).wf(),
        ensures
            final(self).wf(),
            match r {
                Ok(row) => {
                    &&& !message_conflicts(old(self).rows(), message)
                    &&& row == new_message_row(message, old(self).next_id(), row.created_at)
                    &&& final(self).rows() == old(self).rows().push(row)
                    &&& final(self).next_id() == old(self).next_id() + 1
                },
                Err(e) => {
                    &&& e is Query
                    &&& message_conflicts(old(self).rows(), message) || old(self).next_id()
                        == i64::MAX
                    &&& final(self).rows() == old(self).rows()
                    &&& final(self).next_id() == old(self).next_id()
                },
            },
    {
        let now = now_millis();
        self.create_at(message, now)
    }

    /// The row with the row id `id`.
    pub fn get(&self, id: i64) -> (r: Option<MessageMapping>)
        ensures
            r == find_first(self.rows(), message_has_id(id)),
    {
        let found = self.index_of_id(id);
        proof {
            lemma_first_match(self.rows@, message_has_id(id), found);
        }
        match found {
            Some(i) => Some(self.rows[i].clone()),
            None => None,
        }
    }

    /// The row of the event `matrix_event_id`.
    pub fn get_by_matrix_event(&self, matrix_event_id: &str) -> (r: Option<MessageMapping>)
        ensures
            r == find_first(self.rows(), message_has_matrix_event(matrix_event_id@)),
    {
        let found = self.index_of_matrix_event(matrix_event_id);
        proof {
            lemma_first_match(self.rows@, message_has_matrix_event(matrix_event_id@), found);
        }
        match found {
            Some(i) => Some(self.rows[i].clone()),
            None => None,
        }
    }

    /// The row of the message `zulip_message_id`.
    pub fn get_by_zulip_message(&self, zulip_message_id: i64) -> (r: Option<MessageMapping>)
        ensures
            r == find_first(self.rows(), message_has_zulip_message(zulip_message_id)),
    {
        let found = self.index_of_zulip_message(zulip_message_id);
        proof {
            lemma_first_match(self.rows@, message_has_zulip_message(zulip_message_id), found);
        }
        match found {
            Some(i) => Some(self.rows[i].clone()),
            None => None,
        }
    }

    fn remove_at(&mut self, i: usize)
        requires
            old(self).wf(),
            i < old(self).rows@.len(),
        ensures
            final(self).wf(),
            final(self).rows@ == old(self).rows@.remove(i as int),
            final(self).next_id == old(self).next_id,
    {
        self.rows.remove(i);
    }

    /// Deletes the row with the row id `id`, if there is one.
    pub fn delete(&mut self, id: i64) -> (r: Result<(), DatabaseError>)
        requires
            old(self).wf(),
        ensures
            final(self).wf(),
            r is Ok,
            final(self).rows() == without(old(self).rows(), message_has_id(id)),
            final(self).next_id() == old(self).next_id(),
    {
        let found = self.index_of_id(id);
        proof {
            let p = message_has_id(id);
            assert(at_most_one(self.rows@, p));
            lemma_remove_first_match(self.rows@, p, found);
        }
        if let Some(i) = found {
            self.remove_at(i);
        }
        Ok(())
    }

    /// Deletes the row of the event `matrix_event_id`, if there is one.
    pub fn delete_by_matrix_event(
        &mut self,
        matrix_event_id: &str,
    ) -> (r: Result<(), DatabaseError>)
        requires
            old(self).wf(),
        ensures
            final(self).wf(),
            r is Ok,
            final(self).rows() == without(
                old(self).rows(),
                message_has_matrix_event(matrix_event_id@),
            ),
            final(self).next_id() == old(self).next_id(),
    {
        let found = self.index_of_matrix_event(matrix_event_id);
        proof {
            let p = message_has_matrix_event(matrix_event_id@);
            assert(at_most_one(self.rows@, p));
            lemma_remove_first_match(self.rows@, p, found);
        }
        if let Some(i) = found {
            self.remove_at(i);
        }
        Ok(())
    }

    /// Whether the event `matrix_event_id` has a row.
    pub fn exists_by_matrix_event(&self, matrix_event_id: &str) -> (r: bool)
        ensures
            r == find_first(self.rows(), message_has_matrix_event(matrix_event_id@)) is Some,
    {
        let found = self.index_of_matrix_event(matrix_event_id);
        proof {
            lemma_first_match(self.rows@, message_has_matrix_event(matrix_event_id@), found);
        }
        found.is_some()
    }

    /// Whether the message `zulip_message_id` has a row.
    pub fn exists_by_zulip_message(&self, zulip_message_id: i64) -> (r: bool)
        ensures
            r == find_first(self.rows(), message_has_zulip_message(zulip_message_id)) is Some,
    {
        let found = self.index_of_zulip_message(zulip_message_id);
        proof {
            lemma_first_match(self.rows@, message_has_zulip_message(zulip_message_id), found);
        }
        found.is_some()
    }

    /// The rows of the messages in the room `matrix_room_id`, the latest
    /// stored first, `limit` of them at most. Fails where `limit` is
    /// negative.
    pub fn get_by_matrix_room(&self, matrix_room_id: &str, limit: i64) -> (r: Result<
        Vec<MessageMapping>,
        DatabaseError,
    >)
        ensures
            match r {
                Ok(found) => limit >= 0 && found@ == latest_first(
                    self.rows().filter(message_in_room(matrix_room_id@)),
                    limit as int,
                ),
                Err(e) => limit < 0 && e is Query,
            },
    {
        if limit < 0 {
            return Err(DatabaseError::Query(String::from_str("LIMIT must not be negative")));
        }
        let ghost p = message_in_room(matrix_room_id@);
        let mut matching: Vec<usize> = Vec::new();
        let mut i: usize = 0;
        proof {
            reveal(Seq::filter);
            assert(self.rows@.take(0) =~= Seq::<MessageMapping>::empty());
        }
        while i < self.rows.len()
            invariant
                i <= self.rows@.len(),
                p == message_in_room(matrix_room_id@),
                matching@.len() == self.rows@.take(i as int).filter(p).len(),
                forall|k: int|
                    0 <= k < matching@.len() ==> (#[trigger] matching@[k]) < i
                        && self.rows@[matching@[k] as int] == self.rows@.take(i as int).filter(
                        p,
                    )[k],
            decreases self.rows@.len() - i,
        {
            proof {
                lemma_filter_take_step(self.rows@, p, i as int);
            }
            if str_eq(self.rows[i].matrix_room_id.as_str(), matrix_room_id) {
                matching.push(i);
            }
            i += 1;
        }
        proof {
            assert(self.rows@.take(self.rows@.len() as int) =~= self.rows@);
        }
        let ghost all = self.rows@.filter(p);
        let mut out: Vec<MessageMapping> = Vec::new();
        let mut n: usize = matching.len();
        while n > 0 && (out.len() as i64) < limit
            invariant
                n <= matching@.len(),
                limit >= 0,
                out@.len() + n == matching@.len(),
                out@.len() <= limit,
                matching@.len() == all.len(),
                forall|k: int|
                    0 <= k < matching@.len() ==> (#[trigger] matching@[k]) < self.rows@.len()
                        && self.rows@[matching@[k] as int] == all[k],
                forall|k: int|
                    0 <= k < out@.len() ==> (#[trigger] out@[k]) == all[all.len() - 1 - k],
            decreases n,
        {
            n -= 1;
            out.push(self.rows[matching[n]].clone());
        }
        proof {
            assert(out@ =~= latest_first(all, limit as int));
        }
        Ok(out)
    }
}

/// Each row of a table that keeps its uniqueness constraints is the one that
/// a lookup by its event finds, and the one that a lookup by its message
/// finds: the two lookups of one row agree.
pub proof fn lemma_message_lookups_agree(rows: Seq<MessageMapping>, i: int)
    requires
        message_rows_unique(rows),
        0 <= i < rows.len(),
    ensures
        find_first(rows, message_has_matrix_event(rows[i].matrix_event_id@)) == Some(rows[i]),
        find_first(rows, message_has_zulip_message(rows[i].zulip_message_id)) == Some(rows[i]),
        find_first(rows, message_has_id(rows[i].id)) == Some(rows[i]),
{
    lemma_find_first_unique(rows, message_has_matrix_event(rows[i].matrix_event_id@), i);
    lemma_find_first_unique(rows, message_has_zulip_message(rows[i].zulip_message_id), i);
    lemma_find_first_unique(rows, message_has_id(rows[i].id), i);
}

} // verus!
