use std::sync::atomic::{AtomicU64, AtomicUsize, Ordering};

use ycsb_rs::{bench_txn, load_batch, load_db, Progress, SilentProgress};
use ycsb_rs::{CoreWorkload, Db, Error, MockDb, WorkloadSpec};

struct CountProgress {
    sum: AtomicU64,
}

impl CountProgress {
    fn new() -> Self {
        Self {
            sum: AtomicU64::new(0),
        }
    }

    fn total(&self) -> u64 {
        self.sum.load(Ordering::SeqCst)
    }
}

impl Progress for CountProgress {
    fn inc(&self, delta: u64) {
        self.sum.fetch_add(delta, Ordering::SeqCst);
    }
}

/// A backend that counts calls and always succeeds.
struct CountingDb {
    starts: AtomicUsize,
    commits: AtomicUsize,
    aborts: AtomicUsize,
    inserts: AtomicUsize,
    reads: AtomicUsize,
}

impl CountingDb {
    fn new() -> Self {
        Self {
            starts: AtomicUsize::new(0),
            commits: AtomicUsize::new(0),
            aborts: AtomicUsize::new(0),
            inserts: AtomicUsize::new(0),
            reads: AtomicUsize::new(0),
        }
    }
}

impl Db for CountingDb {
    type Transaction = ();

    fn start_transaction(&self) -> Result<(), Error> {
        self.starts.fetch_add(1, Ordering::SeqCst);
        Ok(())
    }

    fn commit_transaction(&self, _txn: ()) -> Result<(), Error> {
        self.commits.fetch_add(1, Ordering::SeqCst);
        Ok(())
    }

    fn abort_transaction(&self, _txn: ()) -> Result<(), Error> {
        self.aborts.fetch_add(1, Ordering::SeqCst);
        Ok(())
    }

    fn read(
        &self,
        _txn: &mut (),
        _table: &str,
        _key: &str,
        _fields: Option<Vec<String>>,
    ) -> Result<Option<Vec<(String, String)>>, Error> {
        self.reads.fetch_add(1, Ordering::SeqCst);
        Ok(None)
    }

    fn insert(
        &self,
        _txn: &mut (),
        _table: &str,
        _key: String,
        _values: Vec<(String, String)>,
    ) -> Result<(), Error> {
        self.inserts.fetch_add(1, Ordering::SeqCst);
        Ok(())
    }

    fn update(
        &self,
        _txn: &mut (),
        _table: &str,
        _key: String,
        _values: Vec<(String, String)>,
    ) -> Result<(), Error> {
        Ok(())
    }

    fn scan(
        &self,
        _txn: &mut (),
        _table: &str,
        _key: &str,
        _length: usize,
        _fields: Option<Vec<String>>,
    ) -> Result<Vec<Vec<(String, String)>>, Error> {
        Ok(Vec::new())
    }
}

/// A backend whose reads abort a set number of times before succeeding.
struct AbortingDb {
    aborts_left: AtomicUsize,
    starts: AtomicUsize,
    commits: AtomicUsize,
    aborts: AtomicUsize,
}

impl AbortingDb {
    fn new(abort_count: usize) -> Self {
        Self {
            aborts_left: AtomicUsize::new(abort_count),
            starts: AtomicUsize::new(0),
            commits: AtomicUsize::new(0),
            aborts: AtomicUsize::new(0),
        }
    }
}

impl Db for AbortingDb {
    type Transaction = ();

    fn start_transaction(&self) -> Result<(), Error> {
        self.starts.fetch_add(1, Ordering::SeqCst);
        Ok(())
    }

    fn commit_transaction(&self, _txn: ()) -> Result<(), Error> {
        self.commits.fetch_add(1, Ordering::SeqCst);
        Ok(())
    }

    fn abort_transaction(&self, _txn: ()) -> Result<(), Error> {
        self.aborts.fetch_add(1, Ordering::SeqCst);
        Ok(())
    }

    fn read(
        &self,
        _txn: &mut (),
        _table: &str,
        _key: &str,
        _fields: Option<Vec<String>>,
    ) -> Result<Option<Vec<(String, String)>>, Error> {
        let left = self.aborts_left.load(Ordering::SeqCst);
        if left > 0 {
            self.aborts_left.store(left - 1, Ordering::SeqCst);
            Err(Error::TransactionAborted)
        } else {
            Ok(None)
        }
    }

    fn insert(
        &self,
        _txn: &mut (),
        _table: &str,
        _key: String,
        _values: Vec<(String, String)>,
    ) -> Result<(), Error> {
        Ok(())
    }

    fn update(
        &self,
        _txn: &mut (),
        _table: &str,
        _key: String,
        _values: Vec<(String, String)>,
    ) -> Result<(), Error> {
        Ok(())
    }

    fn scan(
        &self,
        _txn: &mut (),
        _table: &str,
        _key: &str,
        _length: usize,
        _fields: Option<Vec<String>>,
    ) -> Result<Vec<Vec<(String, String)>>, Error> {
        Ok(Vec::new())
    }
}

/// A backend that records every update call and can abort the first few.
struct RecordingDb {
    aborts_left: AtomicUsize,
    updates: std::sync::Mutex<Vec<(String, Vec<(String, String)>)>>,
}

impl RecordingDb {
    fn new(abort_count: usize) -> Self {
        Self {
            aborts_left: AtomicUsize::new(abort_count),
            updates: std::sync::Mutex::new(Vec::new()),
        }
    }
}

impl Db for RecordingDb {
    type Transaction = ();

    fn start_transaction(&self) -> Result<(), Error> {
        Ok(())
    }

    fn commit_transaction(&self, _txn: ()) -> Result<(), Error> {
        Ok(())
    }

    fn abort_transaction(&self, _txn: ()) -> Result<(), Error> {
        Ok(())
    }

    fn read(
        &self,
        _txn: &mut (),
        _table: &str,
        _key: &str,
        _fields: Option<Vec<String>>,
    ) -> Result<Option<Vec<(String, String)>>, Error> {
        Ok(None)
    }

    fn insert(
        &self,
        _txn: &mut (),
        _table: &str,
        _key: String,
        _values: Vec<(String, String)>,
    ) -> Result<(), Error> {
        Ok(())
    }

    fn update(
        &self,
        _txn: &mut (),
        _table: &str,
        key: String,
        values: Vec<(String, String)>,
    ) -> Result<(), Error> {
        self.updates.lock().unwrap().push((key, values));
        let left = self.aborts_left.load(Ordering::SeqCst);
        if left > 0 {
            self.aborts_left.store(left - 1, Ordering::SeqCst);
            Err(Error::TransactionAborted)
        } else {
            Ok(())
        }
    }

    fn scan(
        &self,
        _txn: &mut (),
        _table: &str,
        _key: &str,
        _length: usize,
        _fields: Option<Vec<String>>,
    ) -> Result<Vec<Vec<(String, String)>>, Error> {
        Ok(Vec::new())
    }
}

/// A backend whose updates fail with a fatal error.
struct FailingDb;

impl Db for FailingDb {
    type Transaction = ();

    fn start_transaction(&self) -> Result<(), Error> {
        Ok(())
    }

    fn commit_transaction(&self, _txn: ()) -> Result<(), Error> {
        Ok(())
    }

    fn abort_transaction(&self, _txn: ()) -> Result<(), Error> {
        Ok(())
    }

    fn read(
        &self,
        _txn: &mut (),
        _table: &str,
        _key: &str,
        _fields: Option<Vec<String>>,
    ) -> Result<Option<Vec<(String, String)>>, Error> {
        Ok(None)
    }

    fn insert(
        &self,
        _txn: &mut (),
        _table: &str,
        _key: String,
        _values: Vec<(String, String)>,
    ) -> Result<(), Error> {
        Ok(())
    }

    fn update(
        &self,
        _txn: &mut (),
        _table: &str,
        _key: String,
        _values: Vec<(String, String)>,
    ) -> Result<(), Error> {
        Err(Error::InvalidArgument("update refused".to_string()))
    }

    fn scan(
        &self,
        _txn: &mut (),
        _table: &str,
        _key: &str,
        _length: usize,
        _fields: Option<Vec<String>>,
    ) -> Result<Vec<Vec<(String, String)>>, Error> {
        Ok(Vec::new())
    }
}

fn small_workload() -> CoreWorkload {
    CoreWorkload::new(WorkloadSpec::default().field_count(2).field_len_const(8)).unwrap()
}

fn read_only_workload() -> CoreWorkload {
    let spec = WorkloadSpec::default()
        .read_proportion(1_000_000)
        .update_proportion(0)
        .field_count(2)
        .field_len_const(8);
    CoreWorkload::new(spec).unwrap()
}

#[test]
fn test_load_phase_loads_exact_count() {
    // 100 records over four workers of 25 each, batch size 32: each worker
    // loads one partial batch, and exactly 100 records arrive in total.
    let db = CountingDb::new();
    let workload = small_workload();
    let pb = CountProgress::new();
    let mut loaded = 0usize;
    for _ in 0..4 {
        loaded += load_db(&db, &workload, 25, 32, &pb).unwrap();
    }
    assert_eq!(loaded, 100);
    assert_eq!(db.inserts.load(Ordering::SeqCst), 100);
    assert_eq!(pb.total(), 100);
}

#[test]
fn test_load_phase_partial_batches() {
    let db = CountingDb::new();
    let workload = small_workload();
    let pb = CountProgress::new();
    let loaded = load_db(&db, &workload, 10, 3, &pb).unwrap();
    assert_eq!(loaded, 10);
    assert_eq!(db.inserts.load(Ordering::SeqCst), 10);
    // Batches of 3, 3, 3 and 1: one transaction per batch.
    assert_eq!(db.starts.load(Ordering::SeqCst), 4);
    assert_eq!(db.commits.load(Ordering::SeqCst), 4);
}

#[test]
fn test_retry_commits_once() {
    // The backend aborts the first three attempts, then succeeds: the
    // runner retries exactly three times, commits once, and reports one
    // completed operation.
    let db = AbortingDb::new(3);
    let workload = read_only_workload();
    let pb = CountProgress::new();
    let done = bench_txn(&db, &workload, 1, &pb).unwrap();
    assert_eq!(done, 1);
    assert_eq!(db.starts.load(Ordering::SeqCst), 4);
    assert_eq!(db.aborts.load(Ordering::SeqCst), 3);
    assert_eq!(db.commits.load(Ordering::SeqCst), 1);
    assert_eq!(pb.total(), 1);
}

#[test]
fn test_bench_counts_committed_operations() {
    let db = CountingDb::new();
    let workload = read_only_workload();
    let pb = CountProgress::new();
    let done = bench_txn(&db, &workload, 50, &pb).unwrap();
    assert_eq!(done, 50);
    assert_eq!(db.reads.load(Ordering::SeqCst), 50);
    assert_eq!(db.commits.load(Ordering::SeqCst), 50);
    assert_eq!(pb.total(), 50);
}

fn update_only_spec(write_all: bool, field_count: usize) -> CoreWorkload {
    let spec = WorkloadSpec::default()
        .read_proportion(0)
        .update_proportion(1_000_000)
        .write_all_fields(write_all)
        .field_count(field_count)
        .field_len_const(8);
    CoreWorkload::new(spec).unwrap()
}

#[test]
fn test_update_writes_all_fields_when_asked() {
    let db = RecordingDb::new(0);
    let workload = update_only_spec(true, 4);
    let pb = SilentProgress;
    assert_eq!(bench_txn(&db, &workload, 1, &pb).unwrap(), 1);
    let updates = db.updates.lock().unwrap();
    assert_eq!(updates.len(), 1);
    assert_eq!(updates[0].1.len(), 4);
}

#[test]
fn test_update_writes_one_field_otherwise() {
    let db = RecordingDb::new(0);
    let workload = update_only_spec(false, 4);
    let pb = SilentProgress;
    assert_eq!(bench_txn(&db, &workload, 1, &pb).unwrap(), 1);
    let updates = db.updates.lock().unwrap();
    assert_eq!(updates.len(), 1);
    assert_eq!(updates[0].1.len(), 1);
}

#[test]
fn test_retry_reuses_payload() {
    // The backend aborts the first two attempts: every retry must reissue
    // the same key and the same value payload, in a fresh transaction.
    let db = RecordingDb::new(2);
    let workload = update_only_spec(false, 4);
    let pb = SilentProgress;
    assert_eq!(bench_txn(&db, &workload, 1, &pb).unwrap(), 1);
    let updates = db.updates.lock().unwrap();
    assert_eq!(updates.len(), 3);
    assert_eq!(updates[0], updates[1]);
    assert_eq!(updates[1], updates[2]);
}

#[test]
fn test_fatal_error_propagates() {
    let spec = WorkloadSpec::default()
        .read_proportion(0)
        .update_proportion(1_000_000)
        .field_count(2)
        .field_len_const(8);
    let workload = CoreWorkload::new(spec).unwrap();
    let db = FailingDb;
    let pb = CountProgress::new();
    let r = bench_txn(&db, &workload, 5, &pb);
    assert!(matches!(r, Err(Error::InvalidArgument(_))));
}

#[test]
fn test_load_batch_reports_batch_size() {
    let db = MockDb::new(true);
    let mut txn = db.start_transaction().unwrap();
    let batch = vec![
        (
            "usertable".to_string(),
            "user1".to_string(),
            vec![("field0".to_string(), "abc".to_string())],
        ),
        (
            "usertable".to_string(),
            "user2".to_string(),
            vec![("field0".to_string(), "def".to_string())],
        ),
    ];
    assert_eq!(load_batch(&db, &mut txn, &batch).unwrap(), 2);
}

#[test]
fn test_mock_db_runs_quietly() {
    let db = MockDb::new(true);
    let workload = small_workload();
    let pb = SilentProgress;
    assert_eq!(load_db(&db, &workload, 6, 4, &pb).unwrap(), 6);
    assert_eq!(bench_txn(&db, &workload, 6, &pb).unwrap(), 6);
}
