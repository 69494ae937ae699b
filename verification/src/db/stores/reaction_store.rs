//! The table of reaction mappings: one row per bridged reaction, unique by
//! row id, by the reaction event on the federated side and by the reaction
//! on the team-chat side.

use vstd::prelude::*;
use vstd::string::StringExecFns;
use crate::db::error::DatabaseError;
use crate::db::models::{NewReactionMapping, ReactionMapping};
use crate::db::stores::{
    at_most_one, find_first, is_first_match, lemma_filter_keeps_all, lemma_filter_take_step,
    lemma_find_first_unique, lemma_first_match, lemma_remove_first_match, without,
};
use crate::text::str_eq;
use crate::utils::clock::now_millis;

verus! {

/// The rows with the row id `id`.
pub open spec fn reaction_has_id(id: i64) -> spec_fn(ReactionMapping) -> bool {
    |r: ReactionMapping| r.id == id
}

/// The rows of the reaction event `matrix_reaction_event_id`.
pub open spec fn reaction_has_matrix_reaction(
    matrix_reaction_event_id: Seq<char>,
) -> spec_fn(ReactionMapping) -> bool {
    |r: ReactionMapping| r.matrix_reaction_event_id@ == matrix_reaction_event_id
}

/// The rows of the reaction `zulip_reaction_id`.
pub open spec fn reaction_has_zulip_reaction(
    zulip_reaction_id: i64,
) -> spec_fn(ReactionMapping) -> bool {
    |r: ReactionMapping| r.zulip_reaction_id == zulip_reaction_id
}

/// The rows of the reactions to the message `zulip_message_id`.
pub open spec fn reaction_on_message(zulip_message_id: i64) -> spec_fn(ReactionMapping) -> bool {
    |r: ReactionMapping| r.zulip_message_id == zulip_message_id
}

/// The uniqueness constraints of the table: no two rows share a row id, a
/// reaction event or a reaction.
pub open spec fn reaction_rows_unique(rows: Seq<ReactionMapping>) -> bool {
    forall|i: int, j: int|
        0 <= i < rows.len() && 0 <= j < rows.len() && i != j ==> {
            &&& (#[trigger] rows[i]).id != (#[trigger] rows[j]).id
            &&& rows[i].matrix_reaction_event_id@ != rows[j].matrix_reaction_event_id@
            &&& rows[i].zulip_reaction_id != rows[j].zulip_reaction_id
        }
}

/// Whether a new row for `reaction` would break a uniqueness constraint.
pub open spec fn reaction_conflicts(
    rows: Seq<ReactionMapping>,
    reaction: NewReactionMapping,
) -> bool {
    exists|i: int|
        0 <= i < rows.len() && ((#[trigger] rows[i]).matrix_reaction_event_id@
            == reaction.matrix_reaction_event_id@ || rows[i].zulip_reaction_id
            == reaction.zulip_reaction_id)
}

/// The row that `reaction` becomes when stored under `id` at the instant
/// `now`.
pub open spec fn new_reaction_row(
    reaction: NewReactionMapping,
    id: i64,
    now: i64,
) -> ReactionMapping {
    ReactionMapping {
        id,
        matrix_event_id: reaction.matrix_event_id,
        zulip_message_id: reaction.zulip_message_id,
        zulip_reaction_id: reaction.zulip_reaction_id,
        emoji: reaction.emoji,
        matrix_reaction_event_id: reaction.matrix_reaction_event_id,
        created_at: now,
    }
}

/// The table of reaction mappings, held in memory.
pub struct ReactionStore {
    rows: Vec<ReactionMapping>,
    next_id: i64,
}

impl ReactionStore {
    /// The rows of the table, oldest first.
    pub closed spec fn rows(&self) -> Seq<ReactionMapping> {
        self.rows@
    }

    /// The row id that the next new row gets.
    pub closed spec fn next_id(&self) -> i64 {
        self.next_id
    }

    /// The table's invariant: the uniqueness constraints hold, and every row
    /// id is positive and below the next one to be given out.
    pub closed spec fn wf(&self) -> bool {
        &&& reaction_rows_unique(self.rows@)
        &&& self.next_id >= 1
        &&& forall|i: int|
            0 <= i < self.rows@.len() ==> 0 < (#[trigger] self.rows@[i]).id < self.next_id
    }

    /// A well-formed table keeps its uniqueness constraints, and its row ids
    /// lie below the next one to be given out.
    pub proof fn lemma_unique(&self)
        requires
            self.wf(),
        ensures
            reaction_rows_unique(self.rows()),
            forall|i: int|
                0 <= i < self.rows().len() ==> (#[trigger] self.rows()[i]).id < self.next_id(),
    {
    }

    /// An empty table.
    pub fn new() -> (r: Self)
        ensures
            r.wf(),
            r.rows() == Seq::<ReactionMapping>::empty(),
            r.next_id() == 1,
    {
        ReactionStore { rows: Vec::new(), next_id: 1 }
    }

    /// The row id that the next new row gets.
    pub fn next_row_id(&self) -> (r: i64)
        ensures
            r == self.next_id(),
    {
        self.next_id
    }

    /// The number of rows.
    pub fn len(&self) -> (r: usize)
        ensures
            r == self.rows().len(),
    {
        self.rows.len()
    }

    fn index_of_id(&self, id: i64) -> (r: Option<usize>)
        ensures
            is_first_match(self.rows@, reaction_has_id(id), r),
    {
        let ghost p = reaction_has_id(id);
        let mut i: usize = 0;
        while i < self.rows.len()
            invariant
                i <= self.rows@.len(),
                p == reaction_has_id(id),
                forall|k: int| 0 <= k < i ==> !p(#[trigger] self.rows@[k]),
            decreases self.rows@.len() - i,
        {
            if self.rows[i].id == id {
                return Some(i);
            }
            i += 1;
        }
        None
    }

    fn index_of_matrix_reaction(&self, matrix_reaction_event_id: &str) -> (r: Option<usize>)
        ensures
            is_first_match(self.rows@, reaction_has_matrix_reaction(matrix_reaction_event_id@), r),
    {
        let ghost p = reaction_has_matrix_reaction(matrix_reaction_event_id@);
        let mut i: usize = 0;
        while i < self.rows.len()
            invariant
                i <= self.rows@.len(),
                p == reaction_has_matrix_reaction(matrix_reaction_event_id@),
                forall|k: int| 0 <= k < i ==> !p(#[trigger] self.rows@[k]),
            decreases self.rows@.len() - i,
        {
            if str_eq(self.rows[i].matrix_reaction_event_id.as_str(), matrix_reaction_event_id) {
                return Some(i);
            }
            i += 1;
        }
        None
    }

    fn index_of_zulip_reaction(&self, zulip_reaction_id: i64) -> (r: Option<usize>)
        ensures
            is_first_match(self.rows@, reaction_has_zulip_reaction(zulip_reaction_id), r),
    {
        let ghost p = reaction_has_zulip_reaction(zulip_reaction_id);
        let mut i: usize = 0;
        while i < self.rows.len()
            invariant
                i <= self.rows@.len(),
                p == reaction_has_zulip_reaction(zulip_reaction_id),
                forall|k: int| 0 <= k < i ==> !p(#[trigger] self.rows@[k]),
            decreases self.rows@.len() - i,
        {
            if self.rows[i].zulip_reaction_id == zulip_reaction_id {
                return Some(i);
            }
            i += 1;
        }
        None
    }

    /// Stores a new row for `reaction`, stamped `now`. Fails, and changes
    /// nothing, where the reaction event or the reaction already has a row,
    /// or where no row id is left.
    pub fn create_at(&mut self, reaction: NewReactionMapping, now: i64) -> (r: Result<
        ReactionMapping,
        DatabaseError,
    >)
        requires
            old(self).wf(),
        ensures
            final(self).wf(),
            match r {
                Ok(row) => {
                    &&& !reaction_conflicts(old(self).rows(), reaction)
                    &&& row == new_reaction_row(reaction, old(self).next_id(), now)
                    &&& final(self).rows() == old(self).rows().push(row)
                    &&& final(self).next_id() == old(self).next_id() + 1
                },
                Err(e) => {
                    &&& e is Query
                    &&& reaction_conflicts(old(self).rows(), reaction) || old(self).next_id()
                        == i64::MAX
                    &&& final(self).rows() == old(self).rows()
                    &&& final(self).next_id() == old(self).next_id()
                },
            },
    {
        if self.index_of_matrix_reaction(reaction.matrix_reaction_event_id.as_str()).is_some()
            || self.index_of_zulip_reaction(reaction.zulip_reaction_id).is_some() {
            return Err(
                DatabaseError::Query(
                    String::from_str("duplicate key value violates unique constraint"),
                ),
            );
        }
        if self.next_id == i64::MAX {
            return Err(DatabaseError::Query(String::from_str("row ids exhausted")));
        }
        let row = ReactionMapping {
            id: self.next_id,
            matrix_event_id: reaction.matrix_event_id,
            zulip_message_id: reaction.zulip_message_id,
            zulip_reaction_id: reaction.zulip_reaction_id,
            emoji: reaction.emoji,
            matrix_reaction_event_id: reaction.matrix_reaction_event_id,
            created_at: now,
        };
        let copy = row.clone();
        self.rows.push(row);
        self.next_id = self.next_id + 1;
        Ok(copy)
    }

    /// Stores a new row for `reaction`, stamped with the current time.
    pub fn create(&mut self, reaction: NewReactionMapping) -> (r: Result<
        ReactionMapping,
        DatabaseError,
    >)
        requires
            old(self).wf(),
        ensures
            final(self).wf(),
            match r {
                Ok(row) => {
                    &&& !reaction_conflicts(old(self).rows(), reaction)
                    &&& row == new_reaction_row(reaction, old(self).next_id(), row.created_at)
                    &&& final(self).rows() == old(self).rows().push(row)
                    &&& final(self).next_id() == old(self).next_id() + 1
                },
                Err(e) => {
                    &&& e is Query
                    &&& reaction_conflicts(old(self).rows(), reaction) || old(self).next_id()
                        == i64::MAX
                    &&& final(self).rows() == old(self).rows()
                    &&& final(self).next_id() == old(self).next_id()
                },
            },
    {
        let now = now_millis();
        self.create_at(reaction, now)
    }

    /// The row with the row id `id`.
    pub fn get(&self, id: i64) -> (r: Option<ReactionMapping>)
        ensures
            r == find_first(self.rows(), reaction_has_id(id)),
    {
        let found = self.index_of_id(id);
        proof {
            lemma_first_match(self.rows@, reaction_has_id(id), found);
        }
        match found {
            Some(i) => Some(self.rows[i].clone()),
            None => None,
        }
    }

    /// The row of the reaction event `matrix_reaction_event_id`.
    pub fn get_by_matrix_reaction(
        &self,
        matrix_reaction_event_id: &str,
    ) -> (r: Option<ReactionMapping>)
        ensures
            r == find_first(self.rows(), reaction_has_matrix_reaction(matrix_reaction_event_id@)),
    {
        let found = self.index_of_matrix_reaction(matrix_reaction_event_id);
        proof {
            lemma_first_match(
                self.rows@,
                reaction_has_matrix_reaction(matrix_reaction_event_id@),
                found,
            );
        }
        match found {
            Some(i) => Some(self.rows[i].clone()),
            None => None,
        }
    }

    /// The row of the reaction `zulip_reaction_id`.
    pub fn get_by_zulip_reaction(&self, zulip_reaction_id: i64) -> (r: Option<ReactionMapping>)
        ensures
            r == find_first(self.rows(), reaction_has_zulip_reaction(zulip_reaction_id)),
    {
        let found = self.index_of_zulip_reaction(zulip_reaction_id);
        proof {
            lemma_first_match(self.rows@, reaction_has_zulip_reaction(zulip_reaction_id), found);
        }
        match found {
            Some(i) => Some(self.rows[i].clone()),
            None => None,
        }
    }

    fn remove_at(&mut self, i: usize)
        requires
            old(self).wf(),
            i < old(self).rows@.len(),
        ensures
            final(self).wf(),
            final(self).rows@ == old(self).rows@.remove(i as int),
            final(self).next_id == old(self).next_id,
    {
        self.rows.remove(i);
    }

    /// Deletes the row with the row id `id`, if there is one.
    pub fn delete(&mut self, id: i64) -> (r: Result<(), DatabaseError>)
        requires
            old(self).wf(),
        ensures
            final(self).wf(),
            r is Ok,
            final(self).rows() == without(old(self).rows(), reaction_has_id(id)),
            final(self).next_id() == old(self).next_id(),
    {
        let found = self.index_of_id(id);
        proof {
            let p = reaction_has_id(id);
            assert(at_most_one(self.rows@, p));
            lemma_remove_first_match(self.rows@, p, found);
        }
        if let Some(i) = found {
            self.remove_at(i);
        }
        Ok(())
    }

    /// Deletes the row of the reaction event `matrix_reaction_event_id`, if
    /// there is one.
    pub fn delete_by_matrix_reaction(
        &mut self,
        matrix_reaction_event_id: &str,
    ) -> (r: Result<(), DatabaseError>)
        requires
            old(self).wf(),
        ensures
            final(self).wf(),
            r is Ok,
            final(self).rows() == without(
                old(self).rows(),
                reaction_has_matrix_reaction(matrix_reaction_event_id@),
            ),
            final(self).next_id() == old(self).next_id(),
    {
        let found = self.index_of_matrix_reaction(matrix_reaction_event_id);
        proof {
            let p = reaction_has_matrix_reaction(matrix_reaction_event_id@);
            assert(at_most_one(self.rows@, p));
            lemma_remove_first_match(self.rows@, p, found);
        }
        if let Some(i) = found {
            self.remove_at(i);
        }
        Ok(())
    }

    /// Deletes the row of the reaction `zulip_reaction_id`, if there is
    /// one.
    pub fn delete_by_zulip_reaction(
        &mut self,
        zulip_reaction_id: i64,
    ) -> (r: Result<(), DatabaseError>)
        requires
            old(self).wf(),
        ensures
            final(self).wf(),
            r is Ok,
            final(self).rows() == without(
                old(self).rows(),
                reaction_has_zulip_reaction(zulip_reaction_id),
            ),
            final(self).next_id() == old(self).next_id(),
    {
        let found = self.index_of_zulip_reaction(zulip_reaction_id);
        proof {
            let p = reaction_has_zulip_reaction(zulip_reaction_id);
            assert(at_most_one(self.rows@, p));
            lemma_remove_first_match(self.rows@, p, found);
        }
        if let Some(i) = found {
            self.remove_at(i);
        }
        Ok(())
    }

    /// Whether the reaction event `matrix_reaction_event_id` has a row.
    pub fn exists_by_matrix_reaction(&self, matrix_reaction_event_id: &str) -> (r: bool)
        ensures
            r == find_first(
                self.rows(),
                reaction_has_matrix_reaction(matrix_reaction_event_id@),
            ) is Some,
    {
        let found = self.index_of_matrix_reaction(matrix_reaction_event_id);
        proof {
            lemma_first_match(
                self.rows@,
                reaction_has_matrix_reaction(matrix_reaction_event_id@),
                found,
            );
        }
        found.is_some()
    }

    /// Whether the reaction `zulip_reaction_id` has a row.
    pub fn exists_by_zulip_reaction(&self, zulip_reaction_id: i64) -> (r: bool)
        ensures
            r == find_first(self.rows(), reaction_has_zulip_reaction(zulip_reaction_id)) is Some,
    {
        let found = self.index_of_zulip_reaction(zulip_reaction_id);
        proof {
            lemma_first_match(self.rows@, reaction_has_zulip_reaction(zulip_reaction_id), found);
        }
        found.is_some()
    }

    /// The rows of the reactions to the message `zulip_message_id`, oldest
    /// first.
    pub fn get_by_zulip_message(&self, zulip_message_id: i64) -> (r: Vec<ReactionMapping>)
        ensures
            r@ == self.rows().filter(reaction_on_message(zulip_message_id)),
    {
        let mut out: Vec<ReactionMapping> = Vec::new();
        let ghost p = reaction_on_message(zulip_message_id);
        let mut i: usize = 0;
        proof {
            reveal(Seq::filter);
            assert(self.rows@.take(0) =~= Seq::<ReactionMapping>::empty());
        }
        while i < self.rows.len()
            invariant
                i <= self.rows@.len(),
                p == reaction_on_message(zulip_message_id),
                out@ == self.rows@.take(i as int).filter(p),
            decreases self.rows@.len() - i,
        {
            proof {
                lemma_filter_take_step(self.rows@, p, i as int);
            }
            if self.rows[i].zulip_message_id == zulip_message_id {
                out.push(self.rows[i].clone());
            }
            i += 1;
        }
        proof {
            assert(self.rows@.take(self.rows@.len() as int) =~= self.rows@);
        }
        out
    }
}

/// Each row of a table that keeps its uniqueness constraints is the one that
/// a lookup by its reaction event finds, and the one that a lookup by its
/// reaction finds.
pub proof fn lemma_reaction_lookups_agree(rows: Seq<ReactionMapping>, i: int)
    requires
        reaction_rows_unique(rows),
        0 <= i < rows.len(),
    ensures
        find_first(rows, reaction_has_matrix_reaction(rows[i].matrix_reaction_event_id@)) == Some(
            rows[i],
        ),
        find_first(rows, reaction_has_zulip_reaction(rows[i].zulip_reaction_id)) == Some(rows[i]),
{
    lemma_find_first_unique(
        rows,
        reaction_has_matrix_reaction(rows[i].matrix_reaction_event_id@),
        i,
    );
    lemma_find_first_unique(rows, reaction_has_zulip_reaction(rows[i].zulip_reaction_id), i);
}

/// Adding a reaction to a table and then removing it by its reaction event
/// leaves the table as it was: a table that was empty is empty again.
pub proof fn lemma_reaction_add_then_remove(rows: Seq<ReactionMapping>, row: ReactionMapping)
    requires
        forall|k: int|
            0 <= k < rows.len() ==> (#[trigger] rows[k]).matrix_reaction_event_id@
                != row.matrix_reaction_event_id@,
    ensures
        without(rows.push(row), reaction_has_matrix_reaction(row.matrix_reaction_event_id@))
            == rows,
{
    let p = reaction_has_matrix_reaction(row.matrix_reaction_event_id@);
    let q = |r: ReactionMapping| !p(r);
    reveal(Seq::filter);
    assert(rows.push(row).drop_last() =~= rows);
    lemma_filter_keeps_all(rows, q);
}

} // verus!
