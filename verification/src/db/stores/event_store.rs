//! The table of processed events: one row per event whose effect on the
//! other side was acknowledged, unique by row id and by the event's id
//! together with its source.

use vstd::prelude::*;
use vstd::string::StringExecFns;
use crate::db::error::DatabaseError;
use crate::db::models::{NewProcessedEvent, ProcessedEvent};
use crate::db::stores::{
    find_first, is_first_match, lemma_first_match, lemma_without_take_step, without,
};
use crate::text::str_eq;
use crate::utils::clock::{days_before, now_millis, retention_cutoff};

verus! {

/// The rows with the row id `id`.
pub open spec fn event_has_id(id: i64) -> spec_fn(ProcessedEvent) -> bool {
    |r: ProcessedEvent| r.id == id
}

/// The rows of the event `event_id` from the side `source`.
pub open spec fn event_has_key(
    event_id: Seq<char>,
    source: Seq<char>,
) -> spec_fn(ProcessedEvent) -> bool {
    |r: ProcessedEvent| r.event_id@ == event_id && r.source@ == source
}

/// The rows of the event `event_id`, from whichever side.
pub open spec fn event_has_event_id(event_id: Seq<char>) -> spec_fn(ProcessedEvent) -> bool {
    |r: ProcessedEvent| r.event_id@ == event_id
}

/// The uniqueness constraints of the table: no two rows share a row id, or
/// an event id together with its source.
pub open spec fn event_rows_unique(rows: Seq<ProcessedEvent>) -> bool {
    forall|i: int, j: int|
        0 <= i < rows.len() && 0 <= j < rows.len() && i != j ==> {
            &&& (#[trigger] rows[i]).id != (#[trigger] rows[j]).id
            &&& !(rows[i].event_id@ == rows[j].event_id@
                && rows[i].source@ == rows[j].source@)
        }
}

/// The rows processed before the instant `before`.
pub open spec fn event_processed_before(before: i64) -> spec_fn(ProcessedEvent) -> bool {
    |r: ProcessedEvent| r.processed_at < before
}

/// Whether a new row for `event` would break a uniqueness constraint.
pub open spec fn event_conflicts(rows: Seq<ProcessedEvent>, event: NewProcessedEvent) -> bool {
    exists|i: int|
        0 <= i < rows.len() && (#[trigger] rows[i]).event_id@ == event.event_id@ && rows[i].source@
            == event.source@
}

/// The row that `event` becomes when stored under `id` at the instant `now`.
pub open spec fn new_event_row(event: NewProcessedEvent, id: i64, now: i64) -> ProcessedEvent {
    ProcessedEvent {
        id,
        event_id: event.event_id,
        event_type: event.event_type,
        source: event.source,
        processed_at: now,
    }
}

/// The table of processed events, held in memory.
pub struct EventStore {
    rows: Vec<ProcessedEvent>,
    next_id: i64,
}

impl EventStore {
    /// The rows of the table, oldest first.
    pub closed spec fn rows(&self) -> Seq<ProcessedEvent> {
        self.rows@
    }

    /// The row id that the next new row gets.
    pub closed spec fn next_id(&self) -> i64 {
        self.next_id
    }

    /// The table's invariant: the uniqueness constraints hold, and every row
    /// id is positive and below the next one to be given out.
    pub closed spec fn wf(&self) -> bool {
        &&& event_rows_unique(self.rows@)
        &&& self.next_id >= 1
        &&& forall|i: int|
            0 <= i < self.rows@.len() ==> 0 < (#[trigger] self.rows@[i]).id < self.next_id
    }

    /// A well-formed table keeps its uniqueness constraints, and its row ids
    /// lie below the next one to be given out.
    pub proof fn lemma_unique(&self)
        requires
            self.wf(),
        ensures
            event_rows_unique(self.rows()),
            forall|i: int|
                0 <= i < self.rows().len() ==> (#[trigger] self.rows()[i]).id < self.next_id(),
    {
    }

    /// An empty table.
    pub fn new() -> (r: Self)
        ensures
            r.wf(),
            r.rows() == Seq::<ProcessedEvent>::empty(),
            r.next_id() == 1,
    {
        EventStore { rows: Vec::new(), next_id: 1 }
    }

    /// The row id that the next new row gets.
    pub fn next_row_id(&self) -> (r: i64)
        ensures
            r == self.next_id(),
    {
        self.next_id
    }

    /// The number of rows.
    pub fn len(&self) -> (r: usize)
        ensures
            r == self.rows().len(),
    {
        self.rows.len()
    }

    fn index_of_id(&self, id: i64) -> (r: Option<usize>)
        ensures
            is_first_match(self.rows@, event_has_id(id), r),
    {
        let ghost p = event_has_id(id);
        let mut i: usize = 0;
        while i < self.rows.len()
            invariant
                i <= self.rows@.len(),
                p == event_has_id(id),
                forall|k: int| 0 <= k < i ==> !p(#[trigger] self.rows@[k]),
            decreases self.rows@.len() - i,
        {
            if self.rows[i].id == id {
                return Some(i);
            }
            i += 1;
        }
        None
    }

    fn index_of_key(&self, event_id: &str, source: &str) -> (r: Option<usize>)
        ensures
            is_first_match(self.rows@, event_has_key(event_id@, source@), r),
    {
        let ghost p = event_has_key(event_id@, source@);
        let mut i: usize = 0;
        while i < self.rows.len()
            invariant
                i <= self.rows@.len(),
                p == event_has_key(event_id@, source@),
                forall|k: int| 0 <= k < i ==> !p(#[trigger] self.rows@[k]),
            decreases self.rows@.len() - i,
        {
            if str_eq(self.rows[i].event_id.as_str(), event_id)
                && str_eq(self.rows[i].source.as_str(), source) {
                return Some(i);
            }
            i += 1;
        }
        None
    }

    fn index_of_event_id(&self, event_id: &str) -> (r: Option<usize>)
        ensures
            is_first_match(self.rows@, event_has_event_id(event_id@), r),
    {
        let ghost p = event_has_event_id(event_id@);
        let mut i: usize = 0;
        while i < self.rows.len()
            invariant
                i <= self.rows@.len(),
                p == event_has_event_id(event_id@),
                forall|k: int| 0 <= k < i ==> !p(#[trigger] self.rows@[k]),
            decreases self.rows@.len() - i,
        {
            if str_eq(self.rows[i].event_id.as_str(), event_id) {
                return Some(i);
            }
            i += 1;
        }
        None
    }

    /// Records `event` as processed at the instant `now`. Fails, and changes
    /// nothing, where the event is recorded already, or where no row id is
    /// left.
    pub fn create_at(&mut self, event: NewProcessedEvent, now: i64) -> (r: Result<
        ProcessedEvent,
        DatabaseError,
    >)
        requires
            old(self).wf(),
        ensures
            final(self).wf(),
            match r {
                Ok(row) => {
                    &&& !event_conflicts(old(self).rows(), event)
                    &&& row == new_event_row(event, old(self).next_id(), now)
                    &&& final(self).rows() == old(self).rows().push(row)
                    &&& final(self).next_id() == old(self).next_id() + 1
                },
                Err(e) => {
                    &&& e is Query
                    &&& event_conflicts(old(self).rows(), event) || old(self).next_id() == i64::MAX
                    &&& final(self).rows() == old(self).rows()
                    &&& final(self).next_id() == old(self).next_id()
                },
            },
    {
        if self.index_of_key(event.event_id.as_str(), event.source.as_str()).is_some() {
            return Err(
                DatabaseError::Query(
                    String::from_str("duplicate key value violates unique constraint"),
                ),
            );
        }
        if self.next_id == i64::MAX {
            return Err(DatabaseError::Query(String::from_str("row ids exhausted")));
        }
        let row = ProcessedEvent {
            id: self.next_id,
            event_id: event.event_id,
            event_type: event.event_type,
            source: event.source,
            processed_at: now,
        };
        let copy = row.clone();
        self.rows.push(row);
        self.next_id = self.next_id + 1;
        Ok(copy)
    }

    /// Records `event` as processed at the current time.
    pub fn create(&mut self, event: NewProcessedEvent) -> (r: Result<
        ProcessedEvent,
        DatabaseError,
    >)
        requires
            old(self).wf(),
        ensures
            final(self).wf(),
            match r {
                Ok(row) => {
                    &&& !event_conflicts(old(self).rows(), event)
                    &&& row == new_event_row(event, old(self).next_id(), row.processed_at)
                    &&& final(self).rows() == old(self).rows().push(row)
                    &&& final(self).next_id() == old(self).next_id() + 1
                },
                Err(e) => {
                    &&& e is Query
                    &&& event_conflicts(old(self).rows(), event) || old(self).next_id() == i64::MAX
                    &&& final(self).rows() == old(self).rows()
                    &&& final(self).next_id() == old(self).next_id()
                },
            },
    {
        let now = now_millis();
        self.create_at(event, now)
    }

    /// The row with the row id `id`.
    pub fn get(&self, id: i64) -> (r: Option<ProcessedEvent>)
        ensures
            r == find_first(self.rows(), event_has_id(id)),
    {
        let found = self.index_of_id(id);
        proof {
            lemma_first_match(self.rows@, event_has_id(id), found);
        }
        match found {
            Some(i) => Some(self.rows[i].clone()),
            None => None,
        }
    }

    /// The oldest row of the event `event_id`.
    pub fn get_by_event_id(&self, event_id: &str) -> (r: Option<ProcessedEvent>)
        ensures
            r == find_first(self.rows(), event_has_event_id(event_id@)),
    {
        let found = self.index_of_event_id(event_id);
        proof {
            lemma_first_match(self.rows@, event_has_event_id(event_id@), found);
        }
        match found {
            Some(i) => Some(self.rows[i].clone()),
            None => None,
        }
    }

    fn remove_at(&mut self, i: usize)
        requires
            old(self).wf(),
            i < old(self).rows@.len(),
        ensures
            final(self).wf(),
            final(self).rows@ == old(self).rows@.remove(i as int),
            final(self).next_id == old(self).next_id,
    {
        self.rows.remove(i);
    }

    /// Whether the event `event_id` has a row.
    pub fn exists_by_event_id(&self, event_id: &str) -> (r: bool)
        ensures
            r == find_first(self.rows(), event_has_event_id(event_id@)) is Some,
    {
        let found = self.index_of_event_id(event_id);
        proof {
            lemma_first_match(self.rows@, event_has_event_id(event_id@), found);
        }
        found.is_some()
    }

    /// Deletes the rows processed before the instant `before` and returns
    /// how many there were.
    pub fn delete_old_events(&mut self, before: i64) -> (r: Result<usize, DatabaseError>)
        requires
            old(self).wf(),
        ensures
            final(self).wf(),
            final(self).next_id() == old(self).next_id(),
            final(self).rows() == without(old(self).rows(), event_processed_before(before)),
            r matches Ok(n) && n == old(self).rows().len() - final(self).rows().len(),
    {
        let ghost orig = self.rows@;
        let total = self.rows.len();
        let ghost p = event_processed_before(before);
        let ghost mut done: int = 0;
        let mut kept: usize = 0;
        let mut removed: usize = 0;
        proof {
            reveal(Seq::filter);
            assert(orig.take(0) =~= Seq::<ProcessedEvent>::empty());
            assert(without(orig.take(0), p) + orig.skip(0) =~= orig);
        }
        while kept < self.rows.len()
            invariant
                self.wf(),
                self.next_id == old(self).next_id,
                p == event_processed_before(before),
                0 <= done <= orig.len(),
                kept <= self.rows@.len(),
                kept == without(orig.take(done), p).len(),
                self.rows@ == without(orig.take(done), p) + orig.skip(done),
                removed + self.rows@.len() == orig.len(),
                orig.len() == total,
            decreases self.rows@.len() - kept,
        {
            proof {
                assert(self.rows@[kept as int] == orig.skip(done)[0]);
                lemma_without_take_step(orig, p, done);
            }
            if self.rows[kept].processed_at < before {
                self.remove_at(kept);
                removed += 1;
                proof {
                    assert(self.rows@ =~= without(orig.take(done + 1), p) + orig.skip(done + 1));
                }
            } else {
                kept += 1;
                proof {
                    assert(self.rows@ =~= without(orig.take(done + 1), p) + orig.skip(done + 1));
                }
            }
            proof {
                done = done + 1;
            }
        }
        proof {
            assert(orig.take(done) =~= orig);
            assert(self.rows@ =~= without(orig, p));
        }
        Ok(removed)
    }

    /// Sweeps the rows older than `retention_days` days at the instant
    /// `now`, and returns how many there were.
    pub fn cleanup_at(&mut self, retention_days: i32, now: i64) -> (r: Result<
        usize,
        DatabaseError,
    >)
        requires
            old(self).wf(),
        ensures
            final(self).wf(),
            final(self).next_id() == old(self).next_id(),
            final(self).rows() == without(
                old(self).rows(),
                event_processed_before(days_before(now, retention_days) as i64),
            ),
            r matches Ok(n) && n == old(self).rows().len() - final(self).rows().len(),
    {
        let before = retention_cutoff(now, retention_days);
        self.delete_old_events(before)
    }

    /// Sweeps the rows older than `retention_days` days at the current time,
    /// and returns how many there were. Whenever the sweep is made, it
    /// removes rows only: what stays was there before, in the same order.
    pub fn cleanup(&mut self, retention_days: i32) -> (r: Result<usize, DatabaseError>)
        requires
            old(self).wf(),
        ensures
            final(self).wf(),
            final(self).next_id() == old(self).next_id(),
            exists|now: i64|
                final(self).rows() == without(
                    old(self).rows(),
                    event_processed_before(days_before(now, retention_days) as i64),
                ),
            r matches Ok(n) && n == old(self).rows().len() - final(self).rows().len(),
    {
        let now = now_millis();
        self.cleanup_at(retention_days, now)
    }
}

} // verus!
