//! The transactional key-value interface a backend must satisfy, and a
//! trivial logging stand-in backend for exercising the driver.
use vstd::prelude::*;

use crate::result::Error;
use crate::text::u64_to_decimal;
use std::io::Write;
use vstd::string::StringExecFns;

verus! {

/// A transactional key-value store, reached through an opaque,
/// backend-defined transaction handle. Any operation may fail with
/// `Error::TransactionAborted`, the one retryable failure.
pub trait Db: Sync + Send {
    type Transaction;

    fn start_transaction(&self) -> Result<Self::Transaction, Error>;

    fn commit_transaction(&self, txn: Self::Transaction) -> Result<Self::Transaction, Error>;

    fn abort_transaction(&self, txn: Self::Transaction) -> Result<Self::Transaction, Error>;

    fn read(
        &self,
        txn: &mut Self::Transaction,
        table: &str,
        key: &str,
        fields: Option<Vec<String>>,
    ) -> Result<Option<Vec<(String, String)>>, Error>;

    fn insert(
        &self,
        txn: &mut Self::Transaction,
        table: &str,
        key: String,
        values: Vec<(String, String)>,
    ) -> Result<(), Error>;

    fn update(
        &self,
        txn: &mut Self::Transaction,
        table: &str,
        key: String,
        values: Vec<(String, String)>,
    ) -> Result<(), Error>;

    fn scan(
        &self,
        txn: &mut Self::Transaction,
        table: &str,
        key: &str,
        length: usize,
        fields: Option<Vec<String>>,
    ) -> Result<Vec<Vec<(String, String)>>, Error>;
}

/// Relies on std's `writeln` to standard output: prints the line and ignores
/// any write failure.
#[verifier::external_body]
fn print_line(s: &str) {
    let _ = writeln!(std::io::stdout(), "{}", s);
}

fn fields_desc(fields: &Option<Vec<String>>) -> String {
    match fields {
        Option::None => String::from_str("<all fields>"),
        Option::Some(fs) => {
            let mut s = String::from_str("[");
            let mut i: usize = 0;
            while i < fs.len()
                decreases fs.len() - i,
            {
                if i > 0 {
                    s.append(", ");
                }
                s.append(fs[i].as_str());
                i = i + 1;
            }
            s.append("]");
            s
        },
    }
}

fn join_pairs(values: &Vec<(String, String)>) -> String {
    let mut s = String::new();
    let mut i: usize = 0;
    while i < values.len()
        decreases values.len() - i,
    {
        if i > 0 {
            s.append(" ");
        }
        s.append(values[i].0.as_str());
        s.append("=");
        s.append(values[i].1.as_str());
        i = i + 1;
    }
    s
}

/// A backend that stores nothing: it logs each call (unless quiet) and
/// reports success, reads finding no record and scans finding none.
pub struct MockDb {
    pub quiet: bool,
}

impl MockDb {
    pub fn new(quiet: bool) -> (r: Self)
        ensures
            r.quiet == quiet,
    {
        Self { quiet }
    }
}

impl Db for MockDb {
    type Transaction = ();

    fn start_transaction(&self) -> (r: Result<(), Error>)
        ensures
            r is Ok,
    {
        if !self.quiet {
            print_line("START TRANSACTION");
        }
        Ok(())
    }

    fn commit_transaction(&self, _txn: ()) -> (r: Result<(), Error>)
        ensures
            r is Ok,
    {
        if !self.quiet {
            print_line("COMMIT TRANSACTION");
        }
        Ok(())
    }

    fn abort_transaction(&self, _txn: ()) -> (r: Result<(), Error>)
        ensures
            r is Ok,
    {
        if !self.quiet {
            print_line("ABORT TRANSACTION");
        }
        Ok(())
    }

    fn read(
        &self,
        _txn: &mut (),
        table: &str,
        key: &str,
        fields: Option<Vec<String>>,
    ) -> (r: Result<Option<Vec<(String, String)>>, Error>)
        ensures
            r matches Ok(v) && v is None,
    {
        if !self.quiet {
            let mut s = String::from_str("READ ");
            s.append(table);
            s.append(" ");
            s.append(key);
            s.append(" ");
            s.append(fields_desc(&fields).as_str());
            print_line(s.as_str());
        }
        Ok(None)
    }

    fn insert(
        &self,
        _txn: &mut (),
        table: &str,
        key: String,
        values: Vec<(String, String)>,
    ) -> (r: Result<(), Error>)
        ensures
            r is Ok,
    {
        if !self.quiet {
            let mut s = String::from_str("INSERT ");
            s.append(table);
            s.append(" ");
            s.append(key.as_str());
            s.append(" [");
            s.append(join_pairs(&values).as_str());
            s.append("]");
            print_line(s.as_str());
        }
        Ok(())
    }

    fn update(
        &self,
        _txn: &mut (),
        table: &str,
        key: String,
        values: Vec<(String, String)>,
    ) -> (r: Result<(), Error>)
        ensures
            r is Ok,
    {
        if !self.quiet {
            let mut s = String::from_str("UPDATE ");
            s.append(table);
            s.append(" ");
            s.append(key.as_str());
            s.append(" [");
            s.append(join_pairs(&values).as_str());
            s.append("]");
            print_line(s.as_str());
        }
        Ok(())
    }

    fn scan(
        &self,
        _txn: &mut (),
        table: &str,
        key: &str,
        length: usize,
        fields: Option<Vec<String>>,
    ) -> (r: Result<Vec<Vec<(String, String)>>, Error>)
        ensures
            r matches Ok(v) && v@.len() == 0,
    {
        if !self.quiet {
            let mut s = String::from_str("SCAN ");
            s.append(table);
            s.append(" ");
            s.append(key);
            s.append(" ");
            s.append(u64_to_decimal(length as u64).as_str());
            s.append(" ");
            s.append(fields_desc(&fields).as_str());
            print_line(s.as_str());
        }
        Ok(Vec::new())
    }
}

} // verus!
