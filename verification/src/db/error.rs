//! The failure kinds of the mapping store.

use vstd::prelude::*;
use vstd::string::StringExecFns;

verus! {

/// What can go wrong in the mapping store.
#[derive(Debug)]
pub enum DatabaseError {
    Connection(String),
    Query(String),
    Migration(String),
    NotFound(String),
    InvalidData(String),
    Pool(String),
    Transaction(String),
}

impl DatabaseError {
    /// The detail text that the error carries.
    pub open spec fn detail(self) -> Seq<char> {
        match self {
            DatabaseError::Connection(m) => m@,
            DatabaseError::Query(m) => m@,
            DatabaseError::Migration(m) => m@,
            DatabaseError::NotFound(m) => m@,
            DatabaseError::InvalidData(m) => m@,
            DatabaseError::Pool(m) => m@,
            DatabaseError::Transaction(m) => m@,
        }
    }

    /// What stands before the detail in the error's message.
    pub open spec fn label(self) -> Seq<char> {
        match self {
            DatabaseError::Connection(_) => "Connection error: "@,
            DatabaseError::Query(_) => "Query error: "@,
            DatabaseError::Migration(_) => "Migration error: "@,
            DatabaseError::NotFound(_) => "Not found: "@,
            DatabaseError::InvalidData(_) => "Invalid data: "@,
            DatabaseError::Pool(_) => "Pool error: "@,
            DatabaseError::Transaction(_) => "Transaction error: "@,
        }
    }

    /// The error as one line of text: its label, then its detail.
    pub fn message(&self) -> (r: String)
        ensures
            r@ == self.label() + self.detail(),
    {
        let (label, detail): (&str, &String) = match self {
            DatabaseError::Connection(m) => ("Connection error: ", m),
            DatabaseError::Query(m) => ("Query error: ", m),
            DatabaseError::Migration(m) => ("Migration error: ", m),
            DatabaseError::NotFound(m) => ("Not found: ", m),
            DatabaseError::InvalidData(m) => ("Invalid data: ", m),
            DatabaseError::Pool(m) => ("Pool error: ", m),
            DatabaseError::Transaction(m) => ("Transaction error: ", m),
        };
        let mut out = String::from_str(label);
        out.append(detail.as_str());
        out
    }
}

} // verus!
