//! The table of organizations, unique by the organization's id.

use vstd::prelude::*;
use vstd::string::StringExecFns;
use crate::db::error::DatabaseError;
use crate::db::models::{Organization, OrganizationChangeset};
use crate::db::stores::{
    at_most_one, find_first, is_first_match, lemma_first_match, lemma_remove_first_match, without,
};
use crate::text::str_eq;

verus! {

/// The rows of the organization `id`.
pub open spec fn organization_has_id(id: Seq<char>) -> spec_fn(Organization) -> bool {
    |r: Organization| r.id@ == id
}

/// The uniqueness constraint of the table: no two rows share an id.
pub open spec fn organization_rows_unique(rows: Seq<Organization>) -> bool {
    forall|i: int, j: int|
        0 <= i < rows.len() && 0 <= j < rows.len() && i != j ==> {
            &&& (#[trigger] rows[i]).id@ != (#[trigger] rows[j]).id@
        }
}

/// The row `row` after `changes`.
pub open spec fn changed_organization_row(
    row: Organization,
    changes: OrganizationChangeset,
) -> Organization {
    Organization {
        id: row.id,
        name: changes.name,
        site: changes.site,
        email: changes.email,
        api_key: changes.api_key,
        connected: changes.connected,
        max_backfill_amount: changes.max_backfill_amount,
        created_at: row.created_at,
        updated_at: changes.updated_at,
    }
}

/// The row `row` with its `connected` flag set to `connected`.
pub open spec fn connected_organization_row(row: Organization, connected: bool) -> Organization {
    Organization { connected, ..row }
}

/// The table of organizations, held in memory.
pub struct OrganizationStore {
    rows: Vec<Organization>,
}

impl OrganizationStore {
    /// The rows of the table, oldest first.
    pub closed spec fn rows(&self) -> Seq<Organization> {
        self.rows@
    }

    /// The table's invariant: the uniqueness constraints hold.
    pub closed spec fn wf(&self) -> bool {
        organization_rows_unique(self.rows@)
    }

    /// A well-formed table keeps its uniqueness constraints.
    pub proof fn lemma_unique(&self)
        requires
            self.wf(),
        ensures
            organization_rows_unique(self.rows()),
    {
    }

    /// An empty table.
    pub fn new() -> (r: Self)
        ensures
            r.wf(),
            r.rows() == Seq::<Organization>::empty(),
    {
        OrganizationStore { rows: Vec::new() }
    }

    /// The number of rows.
    pub fn len(&self) -> (r: usize)
        ensures
            r == self.rows().len(),
    {
        self.rows.len()
    }

    fn index_of_id(&self, id: &str) -> (r: Option<usize>)
        ensures
            is_first_match(self.rows@, organization_has_id(id@), r),
    {
        let ghost p = organization_has_id(id@);
        let mut i: usize = 0;
        while i < self.rows.len()
            invariant
                i <= self.rows@.len(),
                p == organization_has_id(id@),
                forall|k: int| 0 <= k < i ==> !p(#[trigger] self.rows@[k]),
            decreases self.rows@.len() - i,
        {
            if str_eq(self.rows[i].id.as_str(), id) {
                return Some(i);
            }
            i += 1;
        }
        None
    }

    /// Stores `org` as a new row. Fails, and changes nothing, where an
    /// organization of that id has a row already.
    pub fn create(&mut self, org: Organization) -> (r: Result<Organization, DatabaseError>)
        requires
            old(self).wf(),
        ensures
            final(self).wf(),
            match r {
                Ok(row) => {
                    &&& find_first(old(self).rows(), organization_has_id(org.id@)) is None
                    &&& row == org
                    &&& final(self).rows() == old(self).rows().push(org)
                },
                Err(e) => {
                    &&& e is Query
                    &&& find_first(old(self).rows(), organization_has_id(org.id@)) is Some
                    &&& final(self).rows() == old(self).rows()
                },
            },
    {
        let found = self.index_of_id(org.id.as_str());
        proof {
            lemma_first_match(self.rows@, organization_has_id(org.id@), found);
        }
        if found.is_some() {
            return Err(
                DatabaseError::Query(
                    String::from_str("duplicate key value violates unique constraint"),
                ),
            );
        }
        let copy = org.clone();
        self.rows.push(org);
        Ok(copy)
    }

    /// The row of the organization `id`.
    pub fn get(&self, id: &str) -> (r: Option<Organization>)
        ensures
            r == find_first(self.rows(), organization_has_id(id@)),
    {
        let found = self.index_of_id(id);
        proof {
            lemma_first_match(self.rows@, organization_has_id(id@), found);
        }
        match found {
            Some(i) => Some(self.rows[i].clone()),
            None => None,
        }
    }

    fn remove_at(&mut self, i: usize)
        requires
            old(self).wf(),
            i < old(self).rows@.len(),
        ensures
            final(self).wf(),
            final(self).rows@ == old(self).rows@.remove(i as int),
    {
        self.rows.remove(i);
    }

    /// Deletes the row of the organization `id`, if there is one.
    pub fn delete(&mut self, id: &str) -> (r: Result<(), DatabaseError>)
        requires
            old(self).wf(),
        ensures
            final(self).wf(),
            r is Ok,
            final(self).rows() == without(old(self).rows(), organization_has_id(id@)),
    {
        let found = self.index_of_id(id);
        proof {
            let p = organization_has_id(id@);
            assert(at_most_one(self.rows@, p));
            lemma_remove_first_match(self.rows@, p, found);
        }
        if let Some(i) = found {
            self.remove_at(i);
        }
        Ok(())
    }

    /// Whether the organization `id` has a row.
    pub fn exists_by_id(&self, id: &str) -> (r: bool)
        ensures
            r == find_first(self.rows(), organization_has_id(id@)) is Some,
    {
        let found = self.index_of_id(id);
        proof {
            lemma_first_match(self.rows@, organization_has_id(id@), found);
        }
        found.is_some()
    }

    /// All rows, oldest first.
    pub fn get_all(&self) -> (r: Vec<Organization>)
        ensures
            r@ == self.rows(),
    {
        let mut out: Vec<Organization> = Vec::new();
        let mut i: usize = 0;
        while i < self.rows.len()
            invariant
                i <= self.rows@.len(),
                out@ == self.rows@.take(i as int),
            decreases self.rows@.len() - i,
        {
            out.push(self.rows[i].clone());
            i += 1;
            assert(self.rows@.take(i as int) =~= self.rows@.take(i - 1).push(self.rows@[i - 1]));
        }
        proof {
            assert(self.rows@.take(self.rows@.len() as int) =~= self.rows@);
        }
        out
    }

    /// Applies `changes` to the row of the organization `id` and returns the
    /// row as it then stands. Fails, and changes nothing, where there is no
    /// such row.
    pub fn update(&mut self, id: &str, changes: OrganizationChangeset) -> (r: Result<
        Organization,
        DatabaseError,
    >)
        requires
            old(self).wf(),
        ensures
            final(self).wf(),
            match r {
                Ok(row) => exists|i: int|
                    {
                        &&& 0 <= i < old(self).rows().len()
                        &&& (#[trigger] old(self).rows()[i]).id@ == id@
                        &&& row == changed_organization_row(old(self).rows()[i], changes)
                        &&& final(self).rows() == old(self).rows().update(i, row)
                    },
                Err(e) => {
                    &&& e is Query
                    &&& find_first(old(self).rows(), organization_has_id(id@)) is None
                    &&& final(self).rows() == old(self).rows()
                },
            },
    {
        let found = self.index_of_id(id);
        proof {
            lemma_first_match(self.rows@, organization_has_id(id@), found);
        }
        match found {
            Some(i) => {
                let current = self.rows[i].clone();
                let row = Organization {
                    id: current.id,
                    name: changes.name,
                    site: changes.site,
                    email: changes.email,
                    api_key: changes.api_key,
                    connected: changes.connected,
                    max_backfill_amount: changes.max_backfill_amount,
                    created_at: current.created_at,
                    updated_at: changes.updated_at,
                };
                let copy = row.clone();
                self.rows.set(i, row);
                Ok(copy)
            },
            None => Err(DatabaseError::Query(String::from_str("Record not found"))),
        }
    }

    /// Sets the `connected` flag of the organization `id`, if it has a row.
    pub fn set_connected(&mut self, id: &str, connected: bool) -> (r: Result<(), DatabaseError>)
        requires
            old(self).wf(),
        ensures
            final(self).wf(),
            r is Ok,
            final(self).rows().len() == old(self).rows().len(),
            forall|i: int|
                0 <= i < old(self).rows().len() ==> (#[trigger] final(self).rows()[i]) == if old(
                    self,
                ).rows()[i].id@ == id@ {
                    connected_organization_row(old(self).rows()[i], connected)
                } else {
                    old(self).rows()[i]
                },
    {
        match self.index_of_id(id) {
            Some(i) => {
                let mut row = self.rows[i].clone();
                row.connected = connected;
                self.rows.set(i, row);
            },
            None => {},
        }
        Ok(())
    }
}

} // verus!
