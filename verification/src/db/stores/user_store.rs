//! The table of user mappings: one row per ghost, unique by row id, by the
//! ghost's identifier and by the id of the user it stands for.

use vstd::prelude::*;
use vstd::string::StringExecFns;
use crate::db::error::DatabaseError;
use crate::db::models::{NewUserMapping, UserMapping, UserMappingChangeset};
use crate::db::stores::{
    at_most_one, find_first, is_first_match, lemma_first_match, lemma_remove_first_match, without,
};
use crate::text::str_eq;
use crate::utils::clock::now_millis;

verus! {

/// The rows with the row id `id`.
pub open spec fn user_has_id(id: i64) -> spec_fn(UserMapping) -> bool {
    |r: UserMapping| r.id == id
}

/// The rows of the ghost `matrix_user_id`.
pub open spec fn user_has_matrix_id(matrix_user_id: Seq<char>) -> spec_fn(UserMapping) -> bool {
    |r: UserMapping| r.matrix_user_id@ == matrix_user_id
}

/// The rows of the user `zulip_user_id`.
pub open spec fn user_has_zulip_id(zulip_user_id: i64) -> spec_fn(UserMapping) -> bool {
    |r: UserMapping| r.zulip_user_id == zulip_user_id
}

/// The uniqueness constraints of the table: no two rows share a row id, a
/// ghost identifier or a user id.
pub open spec fn user_rows_unique(rows: Seq<UserMapping>) -> bool {
    forall|i: int, j: int|
        0 <= i < rows.len() && 0 <= j < rows.len() && i != j ==> {
            &&& (#[trigger] rows[i]).id != (#[trigger] rows[j]).id
            &&& rows[i].matrix_user_id@ != rows[j].matrix_user_id@
            &&& rows[i].zulip_user_id != rows[j].zulip_user_id
        }
}

/// Whether a new row for `user` would break a uniqueness constraint.
pub open spec fn user_conflicts(rows: Seq<UserMapping>, user: NewUserMapping) -> bool {
    exists|i: int|
        0 <= i < rows.len() && ((#[trigger] rows[i]).matrix_user_id@ == user.matrix_user_id@
            || rows[i].zulip_user_id == user.zulip_user_id)
}

/// The row that `user` becomes when stored under `id` at the instant `now`.
pub open spec fn new_user_row(user: NewUserMapping, id: i64, now: i64) -> UserMapping {
    UserMapping {
        id,
        matrix_user_id: user.matrix_user_id,
        zulip_user_id: user.zulip_user_id,
        zulip_email: user.zulip_email,
        display_name: user.display_name,
        avatar_url: user.avatar_url,
        is_bot: user.is_bot,
        created_at: now,
        updated_at: now,
    }
}

/// The row `row` after `changes`: an optional field that the changes leave
/// out keeps its value.
pub open spec fn changed_user_row(row: UserMapping, changes: UserMappingChangeset) -> UserMapping {
    UserMapping {
        id: row.id,
        matrix_user_id: row.matrix_user_id,
        zulip_user_id: row.zulip_user_id,
        zulip_email: if changes.zulip_email is Some {
            changes.zulip_email
        } else {
            row.zulip_email
        },
        display_name: if changes.display_name is Some {
            changes.display_name
        } else {
            row.display_name
        },
        avatar_url: if changes.avatar_url is Some {
            changes.avatar_url
        } else {
            row.avatar_url
        },
        is_bot: changes.is_bot,
        created_at: row.created_at,
        updated_at: changes.updated_at,
    }
}

/// The table of user mappings, held in memory.
pub struct UserStore {
    rows: Vec<UserMapping>,
    next_id: i64,
}

impl UserStore {
    /// The rows of the table, oldest first.
    pub closed spec fn rows(&self) -> Seq<UserMapping> {
        self.rows@
    }

    /// The row id that the next new row gets.
    pub closed spec fn next_id(&self) -> i64 {
        self.next_id
    }

    /// The table's invariant: the uniqueness constraints hold, and every row
    /// id is positive and below the next one to be given out.
    pub closed spec fn wf(&self) -> bool {
        &&& user_rows_unique(self.rows@)
        &&& self.next_id >= 1
        &&& forall|i: int|
            0 <= i < self.rows@.len() ==> 0 < (#[trigger] self.rows@[i]).id < self.next_id
    }

    /// A well-formed table keeps its uniqueness constraints, and its row ids
    /// lie below the next one to be given out.
    pub proof fn lemma_unique(&self)
        requires
            self.wf(),
        ensures
            user_rows_unique(self.rows()),
            forall|i: int|
                0 <= i < self.rows().len() ==> (#[trigger] self.rows()[i]).id < self.next_id(),
    {
    }

    /// An empty table.
    pub fn new() -> (r: Self)
        ensures
            r.wf(),
            r.rows() == Seq::<UserMapping>::empty(),
            r.next_id() == 1,
    {
        UserStore { rows: Vec::new(), next_id: 1 }
    }

    /// The row id that the next new row gets.
    pub fn next_row_id(&self) -> (r: i64)
        ensures
            r == self.next_id(),
    {
        self.next_id
    }

    /// The number of rows.
    pub fn len(&self) -> (r: usize)
        ensures
            r == self.rows().len(),
    {
        self.rows.len()
    }

    fn index_of_id(&self, id: i64) -> (r: Option<usize>)
        ensures
            is_first_match(self.rows@, user_has_id(id), r),
    {
        let ghost p = user_has_id(id);
        let mut i: usize = 0;
        while i < self.rows.len()
            invariant
                i <= self.rows@.len(),
                p == user_has_id(id),
                forall|k: int| 0 <= k < i ==> !p(#[trigger] self.rows@[k]),
            decreases self.rows@.len() - i,
        {
            if self.rows[i].id == id {
                return Some(i);
            }
            i += 1;
        }
        None
    }

    fn index_of_matrix_user(&self, matrix_user_id: &str) -> (r: Option<usize>)
        ensures
            is_first_match(self.rows@, user_has_matrix_id(matrix_user_id@), r),
    {
        let ghost p = user_has_matrix_id(matrix_user_id@);
        let mut i: usize = 0;
        while i < self.rows.len()
            invariant
                i <= self.rows@.len(),
                p == user_has_matrix_id(matrix_user_id@),
                forall|k: int| 0 <= k < i ==> !p(#[trigger] self.rows@[k]),
            decreases self.rows@.len() - i,
        {
            if str_eq(self.rows[i].matrix_user_id.as_str(), matrix_user_id) {
                return Some(i);
            }
            i += 1;
        }
        None
    }

    fn index_of_zulip_user(&self, zulip_user_id: i64) -> (r: Option<usize>)
        ensures
            is_first_match(self.rows@, user_has_zulip_id(zulip_user_id), r),
    {
        let ghost p = user_has_zulip_id(zulip_user_id);
        let mut i: usize = 0;
        while i < self.rows.len()
            invariant
                i <= self.rows@.len(),
                p == user_has_zulip_id(zulip_user_id),
                forall|k: int| 0 <= k < i ==> !p(#[trigger] self.rows@[k]),
            decreases self.rows@.len() - i,
        {
            if self.rows[i].zulip_user_id == zulip_user_id {
                return Some(i);
            }
            i += 1;
        }
        None
    }

    /// Stores a new row for `user`, stamped `now`. Fails, and changes
    /// nothing, where the ghost or the user already has a row, or where no
    /// row id is left.
    pub fn create_at(&mut self, user: NewUserMapping, now: i64) -> (r: Result<
        UserMapping,
        DatabaseError,
    >)
        requires
            old(self).wf(),
        ensures
            final(self).wf(),
            match r {
                Ok(row) => {
                    &&& !user_conflicts(old(self).rows(), user)
                    &&& row == new_user_row(user, old(self).next_id(), now)
                    &&& final(self).rows() == old(self).rows().push(row)
                    &&& final(self).next_id() == old(self).next_id() + 1
                },
                Err(e) => {
                    &&& e is Query
                    &&& user_conflicts(old(self).rows(), user) || old(self).next_id() == i64::MAX
                    &&& final(self).rows() == old(self).rows()
                    &&& final(self).next_id() == old(self).next_id()
                },
            },
    {
        if self.index_of_matrix_user(user.matrix_user_id.as_str()).is_some()
            || self.index_of_zulip_user(user.zulip_user_id).is_some() {
            return Err(
                DatabaseError::Query(
                    String::from_str("duplicate key value violates unique constraint"),
                ),
            );
        }
        if self.next_id == i64::MAX {
            return Err(DatabaseError::Query(String::from_str("row ids exhausted")));
        }
        let row = UserMapping {
            id: self.next_id,
            matrix_user_id: user.matrix_user_id,
            zulip_user_id: user.zulip_user_id,
            zulip_email: user.zulip_email,
            display_name: user.display_name,
            avatar_url: user.avatar_url,
            is_bot: user.is_bot,
            created_at: now,
            updated_at: now,
        };
        let copy = row.clone();
        self.rows.push(row);
        self.next_id = self.next_id + 1;
        Ok(copy)
    }

    /// Stores a new row for `user`, stamped with the current time.
    pub fn create(&mut self, user: NewUserMapping) -> (r: Result<UserMapping, DatabaseError>)
        requires
            old(self).wf(),
        ensures
            final(self).wf(),
            match r {
                Ok(row) => {
                    &&& !user_conflicts(old(self).rows(), user)
                    &&& row == new_user_row(user, old(self).next_id(), row.created_at)
                    &&& final(self).rows() == old(self).rows().push(row)
                    &&& final(self).next_id() == old(self).next_id() + 1
                },
                Err(e) => {
                    &&& e is Query
                    &&& user_conflicts(old(self).rows(), user) || old(self).next_id() == i64::MAX
                    &&& final(self).rows() == old(self).rows()
                    &&& final(self).next_id() == old(self).next_id()
                },
            },
    {
        let now = now_millis();
        self.create_at(user, now)
    }

    /// The row with the row id `id`.
    pub fn get(&self, id: i64) -> (r: Option<UserMapping>)
        ensures
            r == find_first(self.rows(), user_has_id(id)),
    {
        let found = self.index_of_id(id);
        proof {
            lemma_first_match(self.rows@, user_has_id(id), found);
        }
        match found {
            Some(i) => Some(self.rows[i].clone()),
            None => None,
        }
    }

    /// The row of the ghost `matrix_user_id`.
    pub fn get_by_matrix_user(&self, matrix_user_id: &str) -> (r: Option<UserMapping>)
        ensures
            r == find_first(self.rows(), user_has_matrix_id(matrix_user_id@)),
    {
        let found = self.index_of_matrix_user(matrix_user_id);
        proof {
            lemma_first_match(self.rows@, user_has_matrix_id(matrix_user_id@), found);
        }
        match found {
            Some(i) => Some(self.rows[i].clone()),
            None => None,
        }
    }

    /// The row of the user `zulip_user_id`.
    pub fn get_by_zulip_user(&self, zulip_user_id: i64) -> (r: Option<UserMapping>)
        ensures
            r == find_first(self.rows(), user_has_zulip_id(zulip_user_id)),
    {
        let found = self.index_of_zulip_user(zulip_user_id);
        proof {
            lemma_first_match(self.rows@, user_has_zulip_id(zulip_user_id), found);
        }
        match found {
            Some(i) => Some(self.rows[i].clone()),
            None => None,
        }
    }

    fn remove_at(&mut self, i: usize)
        requires
            old(self).wf(),
            i < old(self).rows@.len(),
        ensures
            final(self).wf(),
            final(self).rows@ == old(self).rows@.remove(i as int),
            final(self).next_id == old(self).next_id,
    {
        self.rows.remove(i);
    }

    /// Deletes the row with the row id `id`, if there is one.
    pub fn delete(&mut self, id: i64) -> (r: Result<(), DatabaseError>)
        requires
            old(self).wf(),
        ensures
            final(self).wf(),
            r is Ok,
            final(self).rows() == without(old(self).rows(), user_has_id(id)),
            final(self).next_id() == old(self).next_id(),
    {
        let found = self.index_of_id(id);
        proof {
            let p = user_has_id(id);
            assert(at_most_one(self.rows@, p));
            lemma_remove_first_match(self.rows@, p, found);
        }
        if let Some(i) = found {
            self.remove_at(i);
        }
        Ok(())
    }

    /// Deletes the row of the ghost `matrix_user_id`, if there is one.
    pub fn delete_by_matrix_user(&mut self, matrix_user_id: &str) -> (r: Result<(), DatabaseError>)
        requires
            old(self).wf(),
        ensures
            final(self).wf(),
            r is Ok,
            final(self).rows() == without(old(self).rows(), user_has_matrix_id(matrix_user_id@)),
            final(self).next_id() == old(self).next_id(),
    {
        let found = self.index_of_matrix_user(matrix_user_id);
        proof {
            let p = user_has_matrix_id(matrix_user_id@);
            assert(at_most_one(self.rows@, p));
            lemma_remove_first_match(self.rows@, p, found);
        }
        if let Some(i) = found {
            self.remove_at(i);
        }
        Ok(())
    }

    /// Whether the ghost `matrix_user_id` has a row.
    pub fn exists_by_matrix_user(&self, matrix_user_id: &str) -> (r: bool)
        ensures
            r == find_first(self.rows(), user_has_matrix_id(matrix_user_id@)) is Some,
    {
        let found = self.index_of_matrix_user(matrix_user_id);
        proof {
            lemma_first_match(self.rows@, user_has_matrix_id(matrix_user_id@), found);
        }
        found.is_some()
    }

    fn apply_changes(&mut self, i: usize, changes: UserMappingChangeset) -> (r: UserMapping)
        requires
            old(self).wf(),
            i < old(self).rows@.len(),
        ensures
            final(self).wf(),
            r == changed_user_row(old(self).rows@[i as int], changes),
            final(self).rows@ == old(self).rows@.update(i as int, r),
            final(self).next_id == old(self).next_id,
    {
        let current = self.rows[i].clone();
        let row = UserMapping {
            id: current.id,
            matrix_user_id: current.matrix_user_id,
            zulip_user_id: current.zulip_user_id,
            zulip_email: if changes.zulip_email.is_some() {
                changes.zulip_email
            } else {
                current.zulip_email
            },
            display_name: if changes.display_name.is_some() {
                changes.display_name
            } else {
                current.display_name
            },
            avatar_url: if changes.avatar_url.is_some() {
                changes.avatar_url
            } else {
                current.avatar_url
            },
            is_bot: changes.is_bot,
            created_at: current.created_at,
            updated_at: changes.updated_at,
        };
        let copy = row.clone();
        self.rows.set(i, row);
        copy
    }

    /// Applies `changes` to the row with the row id `id` and returns the row
    /// as it then stands. Fails, and changes nothing, where there is no
    /// such row.
    pub fn update(&mut self, id: i64, changes: UserMappingChangeset) -> (r: Result<
        UserMapping,
        DatabaseError,
    >)
        requires
            old(self).wf(),
        ensures
            final(self).wf(),
            final(self).next_id() == old(self).next_id(),
            match r {
                Ok(row) => exists|i: int|
                    {
                        &&& 0 <= i < old(self).rows().len()
                        &&& (#[trigger] old(self).rows()[i]).id == id
                        &&& row == changed_user_row(old(self).rows()[i], changes)
                        &&& final(self).rows() == old(self).rows().update(i, row)
                    },
                Err(e) => {
                    &&& e is Query
                    &&& find_first(old(self).rows(), user_has_id(id)) is None
                    &&& final(self).rows() == old(self).rows()
                },
            },
    {
        let found = self.index_of_id(id);
        proof {
            lemma_first_match(self.rows@, user_has_id(id), found);
        }
        match found {
            Some(i) => Ok(self.apply_changes(i, changes)),
            None => Err(DatabaseError::Query(String::from_str("Record not found"))),
        }
    }

    /// Applies `changes` to the row of the ghost `matrix_user_id` and
    /// returns the row as it then stands. Fails, and changes nothing, where
    /// there is no such row.
    pub fn update_by_matrix_user(
        &mut self,
        matrix_user_id: &str,
        changes: UserMappingChangeset,
    ) -> (r: Result<UserMapping, DatabaseError>)
        requires
            old(self).wf(),
        ensures
            final(self).wf(),
            final(self).next_id() == old(self).next_id(),
            match r {
                Ok(row) => exists|i: int|
                    {
                        &&& 0 <= i < old(self).rows().len()
                        &&& (#[trigger] old(self).rows()[i]).matrix_user_id@ == matrix_user_id@
                        &&& row == changed_user_row(old(self).rows()[i], changes)
                        &&& final(self).rows() == old(self).rows().update(i, row)
                    },
                Err(e) => {
                    &&& e is Query
                    &&& find_first(old(self).rows(), user_has_matrix_id(matrix_user_id@)) is None
                    &&& final(self).rows() == old(self).rows()
                },
            },
    {
        let found = self.index_of_matrix_user(matrix_user_id);
        proof {
            lemma_first_match(self.rows@, user_has_matrix_id(matrix_user_id@), found);
        }
        match found {
            Some(i) => Ok(self.apply_changes(i, changes)),
            None => Err(DatabaseError::Query(String::from_str("Record not found"))),
        }
    }
}

} // verus!
