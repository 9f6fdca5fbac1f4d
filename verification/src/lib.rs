//! A synthetic workload generator and load driver for transactional
//! key-value stores: composable stochastic generators, closed-form Zipfian
//! sampling, a declarative workload specification compiled into a generator
//! graph, and a phase runner that wraps every operation in a
//! retry-on-abort transaction loop.
use vstd::prelude::*;

pub mod db;
pub mod fixed;
pub mod generator;
pub mod result;
pub mod rng;
pub mod text;
pub mod workload;

pub use crate::db::Db;
pub use crate::db::MockDb;
pub use crate::result::Error;
pub use crate::workload::CoreWorkload;
pub use crate::workload::Operation;
pub use crate::workload::WorkloadSpec;

verus! {

/// A sink for incremental progress counts. Implementations only observe the
/// increments; the driver reports each completed unit exactly once.
pub trait Progress: Sync + Send {
    fn inc(&self, delta: u64);
}

/// A progress sink that discards its counts.
pub struct SilentProgress;

impl Progress for SilentProgress {
    fn inc(&self, _delta: u64) {
    }
}

/// The inputs of one logical operation, drawn from the workload once and
/// held across retries: every attempt of the same logical unit of work
/// reuses the same key and the same payload, in a fresh transaction.
enum PreparedOp {
    Read { table: String, key: String, fields: Option<Vec<String>> },
    Update { table: String, key: String, values: Vec<(String, String)> },
    Insert { table: String, key: String, values: Vec<(String, String)> },
    Scan { table: String, key: String, length: usize, fields: Option<Vec<String>> },
    ReadModifyWrite {
        table: String,
        key: String,
        fields: Option<Vec<String>>,
        values: Vec<(String, String)>,
    },
}

/// The field subset handed to a read or scan: all fields when the workload
/// reads all fields, otherwise exactly one drawn field name.
spec fn fields_choice_wf(w: CoreWorkload, fields: Option<Vec<String>>) -> bool {
    match fields {
        Option::None => w.read_all_fields,
        Option::Some(fs) => !w.read_all_fields && fs@.len() == 1 && (exists|i: u64|
            i < w.field_count && fs@[0]@ == #[trigger] crate::text::spec_field_name(i as nat)),
    }
}

/// A full freshly generated field set, one value per field in order.
spec fn full_values_wf(w: CoreWorkload, values: Seq<(String, String)>) -> bool {
    values.len() == w.field_count && forall|j: int|
        0 <= j < values.len() ==> #[trigger] values[j].0@ == crate::text::spec_field_name(
            j as nat,
        ) && w.is_value(values[j].1@)
}

/// The payload of an update: the full field set when the workload writes
/// all fields, otherwise exactly one drawn field with a fresh value.
spec fn update_values_wf(w: CoreWorkload, values: Seq<(String, String)>) -> bool {
    if w.write_all_fields {
        full_values_wf(w, values)
    } else {
        values.len() == 1 && (exists|i: u64|
            i < w.field_count && values[0].0@ == #[trigger] crate::text::spec_field_name(
                i as nat,
            )) && w.is_value(values[0].1@)
    }
}

/// A transaction key: the rendered name of a key id the request sampler
/// can draw.
spec fn txn_key_wf(w: CoreWorkload, key: Seq<char>) -> bool {
    exists|k: u64|
        w.key_sampler.in_range(k) && key == #[trigger] crate::text::spec_key_name(
            k,
            w.ordered_insert,
        )
}

/// An insertion key: the rendered name of some key id of the sequence.
spec fn seq_key_wf(w: CoreWorkload, key: Seq<char>) -> bool {
    exists|k: u64| key == #[trigger] crate::text::spec_key_name(k, w.ordered_insert)
}

/// Everything a prepared operation hands to the backend comes from the
/// workload: its table, a drawn key of the right kind, and a payload of
/// the configured shape.
spec fn prepared_wf(w: CoreWorkload, p: PreparedOp) -> bool {
    match p {
        PreparedOp::Read { table, key, fields } => table@ == w.table@ && txn_key_wf(w, key@)
            && fields_choice_wf(w, fields),
        PreparedOp::Update { table, key, values } => table@ == w.table@ && txn_key_wf(w, key@)
            && update_values_wf(w, values@),
        PreparedOp::Insert { table, key, values } => table@ == w.table@ && seq_key_wf(w, key@)
            && full_values_wf(w, values@),
        PreparedOp::Scan { table, key, length, fields } => table@ == w.table@ && txn_key_wf(
            w,
            key@,
        ) && w.scan_len_generator.in_support(length as int) && fields_choice_wf(w, fields),
        PreparedOp::ReadModifyWrite { table, key, fields, values } => table@ == w.table@
            && txn_key_wf(w, key@) && fields_choice_wf(w, fields) && update_values_wf(
            w,
            values@,
        ),
    }
}

/// Executes one logical operation against a backend by pulling exactly the
/// inputs it needs from the workload and issuing the backend calls.
struct Client<'a, DB: Db> {
    db: &'a DB,
    workload: &'a CoreWorkload,
}

impl<'a, DB: Db> Client<'a, DB> {
    /// The field subset for a read or scan: all fields, or one drawn name.
    fn prepare_fields(&self) -> (r: Option<Vec<String>>)
        requires
            self.workload.wf(),
        ensures
            fields_choice_wf(*self.workload, r),
    {
        if self.workload.read_all_fields() {
            None
        } else {
            let mut fs: Vec<String> = Vec::new();
            fs.push(self.workload.next_field_name());
            Some(fs)
        }
    }

    /// The payload for an update: the full field set, or one drawn pair.
    fn prepare_update_values(&self) -> (r: Vec<(String, String)>)
        requires
            self.workload.wf(),
        ensures
            update_values_wf(*self.workload, r@),
    {
        if self.workload.write_all_fields() {
            self.workload.build_values()
        } else {
            let mut vals: Vec<(String, String)> = Vec::new();
            vals.push(self.workload.build_update());
            vals
        }
    }

    /// Draw every input of one logical operation from the workload, once.
    fn prepare(&self, op: Operation) -> (p: PreparedOp)
        requires
            self.workload.wf(),
        ensures
            prepared_wf(*self.workload, p),
    {
        let table = self.workload.next_table();
        match op {
            Operation::Read => {
                let key = self.workload.next_transaction_key();
                let fields = self.prepare_fields();
                PreparedOp::Read { table, key, fields }
            },
            Operation::Update => {
                let key = self.workload.next_transaction_key();
                let values = self.prepare_update_values();
                PreparedOp::Update { table, key, values }
            },
            Operation::Insert => {
                let key = self.workload.next_sequence_key();
                let values = self.workload.build_values();
                PreparedOp::Insert { table, key, values }
            },
            Operation::Scan => {
                let key = self.workload.next_transaction_key();
                let length = self.workload.next_scan_length();
                let fields = self.prepare_fields();
                PreparedOp::Scan { table, key, length, fields }
            },
            Operation::ReadModifyWrite => {
                let key = self.workload.next_transaction_key();
                let fields = self.prepare_fields();
                let values = self.prepare_update_values();
                PreparedOp::ReadModifyWrite { table, key, fields, values }
            },
        }
    }

    /// Issue the backend calls of one prepared operation in the open
    /// transaction, handing over copies so that the prepared inputs stay
    /// for the next attempt. A read-modify-write is a read followed by an
    /// update of the same key; a failed read leaves the update
    /// unattempted.
    fn execute_once(&self, p: &PreparedOp, txn: &mut DB::Transaction) -> Result<(), Error> {
        match p {
            PreparedOp::Read { table, key, fields } => {
                match self.db.read(txn, table.as_str(), key.as_str(), clone_fields(fields)) {
                    Ok(_) => Ok(()),
                    Err(e) => Err(e),
                }
            },
            PreparedOp::Update { table, key, values } => {
                match self.db.update(txn, table.as_str(), key.clone(), clone_pairs(values)) {
                    Ok(_) => Ok(()),
                    Err(e) => Err(e),
                }
            },
            PreparedOp::Insert { table, key, values } => {
                match self.db.insert(txn, table.as_str(), key.clone(), clone_pairs(values)) {
                    Ok(_) => Ok(()),
                    Err(e) => Err(e),
                }
            },
            PreparedOp::Scan { table, key, length, fields } => {
                match self.db.scan(
                    txn,
                    table.as_str(),
                    key.as_str(),
                    *length,
                    clone_fields(fields),
                ) {
                    Ok(_) => Ok(()),
                    Err(e) => Err(e),
                }
            },
            PreparedOp::ReadModifyWrite { table, key, fields, values } => {
                match self.db.read(txn, table.as_str(), key.as_str(), clone_fields(fields)) {
                    Ok(_) => {},
                    Err(e) => {
                        return Err(e);
                    },
                }
                match self.db.update(txn, table.as_str(), key.clone(), clone_pairs(values)) {
                    Ok(_) => Ok(()),
                    Err(e) => Err(e),
                }
            },
        }
    }

    /// Execute one drawn operation in its own transaction, retrying the
    /// same logical unit on every abort: the inputs are drawn once and
    /// every attempt reissues them in a fresh transaction. Retries are
    /// bounded only by the range of a 64-bit attempt counter, a
    /// practically unreachable cap that stands in for the unbounded retry
    /// policy.
    fn run_txn<P: Progress>(&self, op: Operation, pb: &P) -> Result<(), Error>
        requires
            self.workload.wf(),
    {
        let prepared = self.prepare(op);
        let mut attempt: u64 = 0;
        while attempt < u64::MAX
            decreases u64::MAX - attempt,
        {
            let mut txn = match self.db.start_transaction() {
                Ok(t) => t,
                Err(e) => {
                    return Err(e);
                },
            };
            match self.execute_once(&prepared, &mut txn) {
                Ok(_) => {
                    pb.inc(1);
                    match self.db.commit_transaction(txn) {
                        Ok(_) => {},
                        Err(e) => {
                            return Err(e);
                        },
                    }
                    return Ok(());
                },
                Err(Error::TransactionAborted) => {
                    match self.db.abort_transaction(txn) {
                        Ok(_) => {},
                        Err(e) => {
                            return Err(e);
                        },
                    }
                },
                Err(e) => {
                    match self.db.abort_transaction(txn) {
                        Ok(_) => {},
                        Err(e2) => {
                            return Err(e2);
                        },
                    }
                    return Err(e);
                },
            }
            attempt = attempt + 1;
        }
        Err(Error::TransactionAborted)
    }
}

fn clone_fields(fields: &Option<Vec<String>>) -> (r: Option<Vec<String>>)
    ensures
        fields is None ==> r is None,
        fields matches Some(fs) ==> (r matches Some(out) && out@ =~= fs@),
{
    match fields {
        Option::None => None,
        Option::Some(fs) => {
            let mut out: Vec<String> = Vec::new();
            let mut i: usize = 0;
            while i < fs.len()
                invariant
                    i <= fs@.len(),
                    out@ =~= fs@.take(i as int),
                decreases fs@.len() - i,
            {
                out.push(fs[i].clone());
                i = i + 1;
            }
            proof {
                assert(fs@.take(fs@.len() as int) =~= fs@);
            }
            Some(out)
        },
    }
}

fn clone_pairs(values: &Vec<(String, String)>) -> (r: Vec<(String, String)>)
    ensures
        r@ =~= values@,
{
    let mut out: Vec<(String, String)> = Vec::new();
    let mut i: usize = 0;
    while i < values.len()
        invariant
            i <= values@.len(),
            out@ =~= values@.take(i as int),
        decreases values@.len() - i,
    {
        out.push((values[i].0.clone(), values[i].1.clone()));
        i = i + 1;
    }
    proof {
        assert(values@.take(values@.len() as int) =~= values@);
    }
    out
}

/// Insert every record of the batch into one open transaction. Success
/// reports exactly the batch size; the first failure is returned as it
/// came.
pub fn load_batch<DB: Db>(
    db: &DB,
    txn: &mut DB::Transaction,
    batch: &[(String, String, Vec<(String, String)>)],
) -> (r: Result<usize, Error>)
    ensures
        r matches Ok(n) ==> n == batch@.len(),
        batch@.len() == 0 ==> r is Ok,
{
    let batch_size = batch.len();
    let mut i: usize = 0;
    while i < batch_size
        invariant
            i <= batch_size,
            batch_size == batch@.len(),
        decreases batch@.len() - i,
    {
        let table = &batch[i].0;
        let key = batch[i].1.clone();
        let values = clone_pairs(&batch[i].2);
        match db.insert(txn, table.as_str(), key, values) {
            Ok(_) => {},
            Err(e) => {
                return Err(e);
            },
        }
        i = i + 1;
    }
    Ok(batch_size)
}

/// Load one prepared batch in its own transaction, retrying the same batch
/// on every abort. Success reports exactly the batch size. As in
/// `Client::run_txn`, retries are capped only by the range of a 64-bit
/// attempt counter.
fn run_batch<DB: Db, P: Progress>(
    db: &DB,
    batch: &Vec<(String, String, Vec<(String, String)>)>,
    pb: &P,
) -> (r: Result<usize, Error>)
    ensures
        r matches Ok(n) ==> n == batch@.len(),
{
    let mut attempt: u64 = 0;
    while attempt < u64::MAX
        decreases u64::MAX - attempt,
    {
        let mut txn = match db.start_transaction() {
            Ok(t) => t,
            Err(e) => {
                return Err(e);
            },
        };
        match load_batch(db, &mut txn, batch.as_slice()) {
            Ok(c) => {
                pb.inc(c as u64);
                match db.commit_transaction(txn) {
                    Ok(_) => {},
                    Err(e) => {
                        return Err(e);
                    },
                }
                return Ok(c);
            },
            Err(Error::TransactionAborted) => {
                match db.abort_transaction(txn) {
                    Ok(_) => {},
                    Err(e) => {
                        return Err(e);
                    },
                }
            },
            Err(e) => {
                match db.abort_transaction(txn) {
                    Ok(_) => {},
                    Err(e2) => {
                        return Err(e2);
                    },
                }
                return Err(e);
            },
        }
        attempt = attempt + 1;
    }
    Err(Error::TransactionAborted)
}

/// The load phase of one worker: insert `num_ops` fresh records in batches
/// of `batch_size` (one transaction per batch, the final partial batch
/// clamped to what remains), retrying a batch on every abort. Success
/// reports exactly `num_ops` records loaded.
pub fn load_db<DB: Db, P: Progress>(
    db: &DB,
    workload: &CoreWorkload,
    num_ops: usize,
    batch_size: usize,
    pb: &P,
) -> (r: Result<usize, Error>)
    requires
        workload.wf(),
        batch_size > 0,
    ensures
        r matches Ok(n) ==> n == num_ops,
        num_ops == 0 ==> r is Ok,
{
    let mut total_count: usize = 0;
    let mut done: usize = 0;
    while done < num_ops
        invariant
            workload.wf(),
            batch_size > 0,
            done <= num_ops,
            total_count == done,
        decreases num_ops - done,
    {
        let count = if batch_size <= num_ops - done {
            batch_size
        } else {
            num_ops - done
        };
        let mut batch: Vec<(String, String, Vec<(String, String)>)> = Vec::new();
        let mut j: usize = 0;
        while j < count
            invariant
                workload.wf(),
                j <= count,
                batch@.len() == j,
            decreases count - j,
        {
            batch.push(
                (workload.next_table(), workload.next_sequence_key(), workload.build_values()),
            );
            j = j + 1;
        }
        match run_batch(db, &batch, pb) {
            Ok(c) => {
                total_count = total_count + c;
            },
            Err(e) => {
                return Err(e);
            },
        }
        done = done + count;
    }
    Ok(total_count)
}

/// The transaction phase of one worker: draw `num_ops` operations from the
/// mix and execute each in its own transaction under the retry-on-abort
/// policy. Success reports exactly `num_ops` committed operations,
/// counting each logical operation once however often it was retried.
pub fn bench_txn<DB: Db, P: Progress>(
    db: &DB,
    workload: &CoreWorkload,
    num_ops: usize,
    pb: &P,
) -> (r: Result<usize, Error>)
    requires
        workload.wf(),
    ensures
        r matches Ok(n) ==> n == num_ops,
        num_ops == 0 ==> r is Ok,
{
    let client = Client { db, workload };
    let mut total_count: usize = 0;
    let mut i: usize = 0;
    while i < num_ops
        invariant
            workload.wf(),
            client.workload == workload,
            client.db == db,
            i <= num_ops,
            total_count == i,
        decreases num_ops - i,
    {
        let op = workload.next_operation();
        match client.run_txn(op, pb) {
            Ok(_) => {
                total_count = total_count + 1;
            },
            Err(e) => {
                return Err(e);
            },
        }
        i = i + 1;
    }
    Ok(total_count)
}

} // verus!
