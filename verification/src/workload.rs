//! The declarative workload specification and the compiled generator graph
//! built from it. A `CoreWorkload` is immutable after construction and is
//! shared read-only across all worker threads of a run; fractional
//! parameters (operation proportions, the Zipfian exponent) are given in
//! parts per million.
use vstd::prelude::*;

use crate::fixed::spec_ppm_to_fp;
use crate::fixed::FP_ONE;
use crate::generator::all_weights_positive;
use crate::generator::discrete_gen;
use crate::generator::lemma_weight_sum_positive;
use crate::generator::uniform_gen;
use crate::generator::weight_sum;
use crate::generator::spec_zipfian;
use crate::generator::zipfian_gen;
use crate::generator::ConstGenerator;
use crate::generator::CounterGenerator;
use crate::generator::DiscreteGenerator;
use crate::generator::Generator;
use crate::generator::SkewedLatestGenerator;
use crate::generator::UniformGenerator;
use crate::generator::ZipfDistribution;
use crate::generator::ZIPFIAN_CONSTANT_PPM;
use crate::result::Error;
use crate::rng::is_alnum_char;
use crate::rng::rand_alphanumeric;
use crate::text::field_name;
use crate::text::key_name;
use crate::text::spec_field_name;
use crate::text::spec_key_name;
use std::sync::Arc;
use vstd::string::StringExecFns;

verus! {

/// One slot of a workload specification: how a quantity is distributed.
/// Fractional skew parameters are in parts per million.
#[derive(Clone, Copy, Debug, PartialEq, Eq, Structural)]
pub enum DistributionSpec {
    Constant(u64),
    Uniform(u64, u64),
    Zipfian(u64, u64),
    Latest,
}

/// The declarative configuration of one benchmark run. Proportions are in
/// parts per million and need not sum to one million; zero-proportion
/// operations are excluded from the mix entirely.
#[derive(Debug)]
pub struct WorkloadSpec {
    pub table: String,
    pub field_count: usize,
    pub field_len_dist: DistributionSpec,
    pub read_all_fields: bool,
    pub write_all_fields: bool,
    pub ordered_insert: bool,
    pub read_proportion: u64,
    pub update_proportion: u64,
    pub insert_proportion: u64,
    pub scan_proportion: u64,
    pub rmw_proportion: u64,
    pub request_dist: DistributionSpec,
    pub scan_len_dist: DistributionSpec,
    pub insert_start: usize,
    pub record_count: usize,
    pub operation_count: usize,
}

impl Default for WorkloadSpec {
    fn default() -> (r: Self)
        ensures
            r.table@ == "usertable"@,
            r.field_count == 10,
            r.field_len_dist == DistributionSpec::Constant(100),
            r.read_all_fields == true,
            r.write_all_fields == false,
            r.ordered_insert == false,
            r.read_proportion == 950000,
            r.update_proportion == 50000,
            r.insert_proportion == 0,
            r.scan_proportion == 0,
            r.rmw_proportion == 0,
            r.request_dist == DistributionSpec::Uniform(1, 1000),
            r.scan_len_dist == DistributionSpec::Uniform(1, 1000),
            r.insert_start == 0,
            r.record_count == 0,
            r.operation_count == 0,
    {
        WorkloadSpec {
            table: String::from_str("usertable"),
            field_count: 10,
            field_len_dist: DistributionSpec::Constant(100),
            read_all_fields: true,
            write_all_fields: false,
            ordered_insert: false,
            read_proportion: 950000,
            update_proportion: 50000,
            insert_proportion: 0,
            scan_proportion: 0,
            rmw_proportion: 0,
            request_dist: DistributionSpec::Uniform(1, 1000),
            scan_len_dist: DistributionSpec::Uniform(1, 1000),
            insert_start: 0,
            record_count: 0,
            operation_count: 0,
        }
    }
}

impl WorkloadSpec {
    pub fn field_count(self, count: usize) -> (r: Self)
        ensures
            r == (WorkloadSpec { field_count: count, ..self }),
    {
        let mut s = self;
        s.field_count = count;
        s
    }

    pub fn field_len_const(self, len: u64) -> (r: Self)
        ensures
            r == (WorkloadSpec { field_len_dist: DistributionSpec::Constant(len), ..self }),
    {
        let mut s = self;
        s.field_len_dist = DistributionSpec::Constant(len);
        s
    }

    pub fn read_all_fields(self, val: bool) -> (r: Self)
        ensures
            r == (WorkloadSpec { read_all_fields: val, ..self }),
    {
        let mut s = self;
        s.read_all_fields = val;
        s
    }

    pub fn write_all_fields(self, val: bool) -> (r: Self)
        ensures
            r == (WorkloadSpec { write_all_fields: val, ..self }),
    {
        let mut s = self;
        s.write_all_fields = val;
        s
    }

    pub fn read_proportion(self, val: u64) -> (r: Self)
        ensures
            r == (WorkloadSpec { read_proportion: val, ..self }),
    {
        let mut s = self;
        s.read_proportion = val;
        s
    }

    pub fn update_proportion(self, val: u64) -> (r: Self)
        ensures
            r == (WorkloadSpec { update_proportion: val, ..self }),
    {
        let mut s = self;
        s.update_proportion = val;
        s
    }

    pub fn insert_proportion(self, val: u64) -> (r: Self)
        ensures
            r == (WorkloadSpec { insert_proportion: val, ..self }),
    {
        let mut s = self;
        s.insert_proportion = val;
        s
    }

    pub fn scan_proportion(self, val: u64) -> (r: Self)
        ensures
            r == (WorkloadSpec { scan_proportion: val, ..self }),
    {
        let mut s = self;
        s.scan_proportion = val;
        s
    }

    pub fn rmw_proportion(self, val: u64) -> (r: Self)
        ensures
            r == (WorkloadSpec { rmw_proportion: val, ..self }),
    {
        let mut s = self;
        s.rmw_proportion = val;
        s
    }

    pub fn request_zipfian(self, s_ppm: u64) -> (r: Self)
        ensures
            r == (WorkloadSpec { request_dist: DistributionSpec::Zipfian(0, s_ppm), ..self }),
    {
        let mut s = self;
        s.request_dist = DistributionSpec::Zipfian(0, s_ppm);
        s
    }

    pub fn record_count(self, val: usize) -> (r: Self)
        ensures
            r == (WorkloadSpec { record_count: val, ..self }),
    {
        let mut s = self;
        s.record_count = val;
        s
    }

    pub fn get_record_count(&self) -> (r: usize)
        ensures
            r == self.record_count,
    {
        self.record_count
    }

    pub fn operation_count(self, val: usize) -> (r: Self)
        ensures
            r == (WorkloadSpec { operation_count: val, ..self }),
    {
        let mut s = self;
        s.operation_count = val;
        s
    }

    pub fn get_operation_count(&self) -> (r: usize)
        ensures
            r == self.operation_count,
    {
        self.operation_count
    }
}

/// The tag of one logical operation of the transaction phase.
#[derive(Clone, Copy, Debug, PartialEq, Eq, Structural)]
pub enum Operation {
    Insert,
    Read,
    Update,
    Scan,
    ReadModifyWrite,
}

impl Default for Operation {
    fn default() -> (r: Self)
        ensures
            r == Operation::Insert,
    {
        Self::Insert
    }
}

/// The field-length generator slot: constant or uniform only.
pub enum FieldLenGen {
    Constant(ConstGenerator<u64>),
    Uniform(UniformGenerator),
}

impl FieldLenGen {
    pub open spec fn wf(&self) -> bool {
        match self {
            FieldLenGen::Constant(c) => c.val <= usize::MAX,
            FieldLenGen::Uniform(g) => g.wf() && g.high <= usize::MAX,
        }
    }

    /// True of the lengths this generator can produce.
    pub open spec fn in_support(&self, l: int) -> bool {
        match self {
            FieldLenGen::Constant(c) => l == c.val,
            FieldLenGen::Uniform(g) => g.low <= l <= g.high,
        }
    }

    fn next_len(&self) -> (r: u64)
        requires
            self.wf(),
        ensures
            self.in_support(r as int),
            r <= usize::MAX,
    {
        match self {
            FieldLenGen::Constant(c) => c.val,
            FieldLenGen::Uniform(g) => g.next_value(),
        }
    }
}

/// The transaction-key sampler slot.
pub enum KeySampler {
    Uniform(UniformGenerator),
    Zipfian(ZipfDistribution),
    Latest(SkewedLatestGenerator),
}

impl KeySampler {
    pub open spec fn wf(&self) -> bool {
        match self {
            KeySampler::Uniform(g) => g.wf(),
            KeySampler::Zipfian(z) => z.wf(),
            KeySampler::Latest(g) => g.wf(),
        }
    }

    /// True of the key ids this sampler can draw. A latest-skewed sampler
    /// follows the live insertion frontier, so no static range constrains
    /// it.
    pub open spec fn in_range(&self, k: u64) -> bool {
        match self {
            KeySampler::Uniform(g) => g.low <= k <= g.high,
            KeySampler::Zipfian(z) => z.base <= k <= z.spec_max(),
            KeySampler::Latest(_) => true,
        }
    }

    fn next_key(&self) -> (r: u64)
        requires
            self.wf(),
        ensures
            self.in_range(r),
    {
        match self {
            KeySampler::Uniform(g) => g.next_value(),
            KeySampler::Zipfian(z) => z.sample(),
            KeySampler::Latest(g) => g.next_value(),
        }
    }
}

/// The scan-length generator slot: uniform or Zipfian only.
pub enum ScanLenGen {
    Uniform(UniformGenerator),
    Zipfian(ZipfDistribution),
}

impl ScanLenGen {
    pub open spec fn wf(&self) -> bool {
        match self {
            ScanLenGen::Uniform(g) => g.wf() && g.high <= usize::MAX,
            ScanLenGen::Zipfian(z) => z.wf() && z.spec_max() <= usize::MAX,
        }
    }

    /// True of the lengths this generator can produce.
    pub open spec fn in_support(&self, l: int) -> bool {
        match self {
            ScanLenGen::Uniform(g) => g.low <= l <= g.high,
            ScanLenGen::Zipfian(z) => z.base <= l <= z.spec_max(),
        }
    }

    fn next_len(&self) -> (r: u64)
        requires
            self.wf(),
        ensures
            self.in_support(r as int),
            r <= usize::MAX,
    {
        match self {
            ScanLenGen::Uniform(g) => g.next_value(),
            ScanLenGen::Zipfian(z) => z.sample(),
        }
    }
}

/// The operation mix a specification asks for: the operations with strictly
/// positive proportion, in the fixed order read, update, insert, scan,
/// read-modify-write, each with its weight.
pub open spec fn spec_op_mix(s: WorkloadSpec) -> Seq<(Operation, u64)> {
    (if s.read_proportion > 0 {
        seq![(Operation::Read, s.read_proportion)]
    } else {
        Seq::empty()
    }) + (if s.update_proportion > 0 {
        seq![(Operation::Update, s.update_proportion)]
    } else {
        Seq::empty()
    }) + (if s.insert_proportion > 0 {
        seq![(Operation::Insert, s.insert_proportion)]
    } else {
        Seq::empty()
    }) + (if s.scan_proportion > 0 {
        seq![(Operation::Scan, s.scan_proportion)]
    } else {
        Seq::empty()
    }) + (if s.rmw_proportion > 0 {
        seq![(Operation::ReadModifyWrite, s.rmw_proportion)]
    } else {
        Seq::empty()
    })
}

/// Every weight of the operation mix is strictly positive.
pub proof fn lemma_op_mix_positive(s: WorkloadSpec)
    ensures
        all_weights_positive(spec_op_mix(s)),
{
    let m = spec_op_mix(s);
    assert forall|i: int| 0 <= i < m.len() implies m[i].1 > 0 by {
        assert(m[i].1 > 0);
    }
}

/// A specification whose only positive proportion is the read proportion
/// compiles to a mix of reads alone, so every operation drawn from the
/// compiled workload is a read.
pub proof fn lemma_read_only_mix(s: WorkloadSpec)
    requires
        s.read_proportion > 0,
        s.update_proportion == 0,
        s.insert_proportion == 0,
        s.scan_proportion == 0,
        s.rmw_proportion == 0,
    ensures
        spec_op_mix(s) =~= seq![(Operation::Read, s.read_proportion)],
        forall|j: int| 0 <= j < spec_op_mix(s).len() ==> spec_op_mix(s)[j].0 == Operation::Read,
{
}

/// The domain size the request-key Zipfian is built over: the record count
/// plus room for the keys expected to be inserted during the run.
pub open spec fn spec_zipf_elems(s: WorkloadSpec) -> int {
    s.record_count + 2 * (((s.operation_count as int) * (s.insert_proportion as int)) / 1000000)
}

/// A Zipfian exponent (in parts per million) that the sampler accepts.
pub open spec fn spec_theta_ok(t_ppm: u64) -> bool {
    spec_ppm_to_fp(t_ppm) != FP_ONE
}

/// The field-length slot accepts only constant and uniform distributions.
pub open spec fn spec_field_len_ok(d: DistributionSpec) -> bool {
    match d {
        DistributionSpec::Constant(c) => c <= usize::MAX,
        DistributionSpec::Uniform(a, b) => a <= b && b <= usize::MAX && b - a < u64::MAX,
        _ => false,
    }
}

/// The request-key slot accepts uniform, Zipfian and latest-skewed
/// distributions, each with a usable domain.
pub open spec fn spec_request_ok(s: WorkloadSpec) -> bool {
    match s.request_dist {
        DistributionSpec::Uniform(_, _) => true,
        DistributionSpec::Zipfian(_, t) => 1 <= spec_zipf_elems(s) < 0x8000_0000 && spec_theta_ok(
            t,
        ),
        DistributionSpec::Latest => 1 <= s.record_count < 0x8000_0000,
        DistributionSpec::Constant(_) => false,
    }
}

/// The scan-length slot accepts uniform and Zipfian distributions.
pub open spec fn spec_scan_len_ok(d: DistributionSpec) -> bool {
    match d {
        DistributionSpec::Uniform(a, b) => a <= b && b <= usize::MAX && b - a < u64::MAX,
        DistributionSpec::Zipfian(n, t) => 1 <= n < 0x8000_0000 && spec_theta_ok(t),
        _ => false,
    }
}

/// Everything a specification must satisfy for compilation to succeed.
pub open spec fn spec_build_ok(s: WorkloadSpec) -> bool {
    &&& spec_field_len_ok(s.field_len_dist)
    &&& weight_sum(spec_op_mix(s)) <= u64::MAX
    &&& spec_request_ok(s)
    &&& s.field_count >= 1
    &&& spec_scan_len_ok(s.scan_len_dist)
}

/// The field-length generator a specification's slot compiles to.
pub open spec fn spec_field_len_slot(s: WorkloadSpec, g: FieldLenGen) -> bool {
    match s.field_len_dist {
        DistributionSpec::Constant(c) => g == FieldLenGen::Constant(ConstGenerator { val: c }),
        DistributionSpec::Uniform(a, b) => g == FieldLenGen::Uniform(
            UniformGenerator { low: a, high: b },
        ),
        _ => false,
    }
}

/// The upper bound of the uniform request-key sampler: the last existing
/// record, or zero when no records exist yet.
pub open spec fn spec_uniform_key_hi(s: WorkloadSpec) -> u64 {
    if s.record_count == 0 {
        0u64
    } else {
        (s.record_count - 1) as u64
    }
}

/// The request-key sampler a specification's slot compiles to. A
/// latest-skewed slot shares the workload's insertion-frontier counter and
/// freezes its Zipfian parameters from the record count.
pub open spec fn spec_key_sampler_slot(s: WorkloadSpec, w: CoreWorkload) -> bool {
    match s.request_dist {
        DistributionSpec::Uniform(_, _) => w.key_sampler == KeySampler::Uniform(
            UniformGenerator { low: 0, high: spec_uniform_key_hi(s) },
        ),
        DistributionSpec::Zipfian(_, t) => w.key_sampler == KeySampler::Zipfian(
            spec_zipfian(0, spec_zipf_elems(s) as u64, t),
        ),
        DistributionSpec::Latest => w.key_sampler matches KeySampler::Latest(g) && g.zipfian
            == spec_zipfian(0, s.record_count as u64, ZIPFIAN_CONSTANT_PPM) && g.basis
            == w.insert_key_sequence,
        DistributionSpec::Constant(_) => false,
    }
}

/// The scan-length generator a specification's slot compiles to.
pub open spec fn spec_scan_len_slot(s: WorkloadSpec, g: ScanLenGen) -> bool {
    match s.scan_len_dist {
        DistributionSpec::Uniform(a, b) => g == ScanLenGen::Uniform(
            UniformGenerator { low: a, high: b },
        ),
        DistributionSpec::Zipfian(n, t) => g == ScanLenGen::Zipfian(spec_zipfian(0, n, t)),
        _ => false,
    }
}

/// Relies on `Arc::clone`: returns a second handle to the same shared
/// counter.
#[verifier::external_body]
fn share_counter(a: &Arc<CounterGenerator>) -> (r: Arc<CounterGenerator>)
    ensures
        r == *a,
{
    a.clone()
}

/// The compiled generator graph of one benchmark run, plus its static
/// parameters. Immutable after construction; internal generator state is
/// behind atomics, so sharing across threads is safe.
pub struct CoreWorkload {
    pub field_len_generator: FieldLenGen,
    pub op_generator: DiscreteGenerator<Operation>,
    pub key_generator: CounterGenerator,
    pub key_sampler: KeySampler,
    pub field_generator: UniformGenerator,
    pub scan_len_generator: ScanLenGen,
    pub insert_key_sequence: Arc<CounterGenerator>,
    pub field_count: usize,
    pub table: String,
    pub read_all_fields: bool,
    pub write_all_fields: bool,
    pub ordered_insert: bool,
}

impl CoreWorkload {
    pub open spec fn wf(&self) -> bool {
        &&& self.field_len_generator.wf()
        &&& self.op_generator.wf()
        &&& all_weights_positive(self.op_generator.values@)
        &&& self.key_sampler.wf()
        &&& self.field_generator.wf()
        &&& self.field_generator.low == 0
        &&& self.field_generator.high == self.field_count - 1
        &&& self.scan_len_generator.wf()
        &&& self.field_count >= 1
    }

    /// True of the strings that may appear as generated field values.
    pub open spec fn is_value(&self, v: Seq<char>) -> bool {
        &&& exists|l: int| self.field_len_generator.in_support(l) && v.len() == l
        &&& forall|i: int| 0 <= i < v.len() ==> is_alnum_char(v[i])
    }

    /// Compile a specification into a generator graph. Fails, with an
    /// invalid-argument error, exactly on the specifications that
    /// `spec_build_ok` rejects.
    pub fn new(spec: WorkloadSpec) -> (r: Result<Self, Error>)
        ensures
            r is Ok <==> spec_build_ok(spec),
            r matches Ok(w) ==> {
                &&& w.wf()
                &&& w.table == spec.table
                &&& w.field_count == spec.field_count
                &&& w.read_all_fields == spec.read_all_fields
                &&& w.write_all_fields == spec.write_all_fields
                &&& w.ordered_insert == spec.ordered_insert
                &&& w.op_generator.values@ == spec_op_mix(spec)
                &&& spec_field_len_slot(spec, w.field_len_generator)
                &&& spec_key_sampler_slot(spec, w)
                &&& spec_scan_len_slot(spec, w.scan_len_generator)
                &&& w.field_generator == (UniformGenerator {
                    low: 0,
                    high: (spec.field_count - 1) as u64,
                })
            },
            r matches Err(e) ==> e is InvalidArgument,
    {
        let field_len_generator = match spec.field_len_dist {
            DistributionSpec::Constant(c) => {
                if c > usize::MAX as u64 {
                    return Err(
                        Error::InvalidArgument(String::from_str("field length distribution")),
                    );
                }
                FieldLenGen::Constant(ConstGenerator::new(c))
            },
            DistributionSpec::Uniform(min, max) => {
                if !(min <= max && max <= usize::MAX as u64) {
                    return Err(
                        Error::InvalidArgument(String::from_str("field length distribution")),
                    );
                }
                match uniform_gen(min, max) {
                    Ok(g) => FieldLenGen::Uniform(g),
                    Err(e) => {
                        return Err(e);
                    },
                }
            },
            _ => {
                return Err(Error::InvalidArgument(String::from_str("field length distribution")));
            },
        };

        let mut ops: Vec<(Operation, u64)> = Vec::new();
        if spec.read_proportion > 0 {
            ops.push((Operation::Read, spec.read_proportion));
        }
        if spec.update_proportion > 0 {
            ops.push((Operation::Update, spec.update_proportion));
        }
        if spec.insert_proportion > 0 {
            ops.push((Operation::Insert, spec.insert_proportion));
        }
        if spec.scan_proportion > 0 {
            ops.push((Operation::Scan, spec.scan_proportion));
        }
        if spec.rmw_proportion > 0 {
            ops.push((Operation::ReadModifyWrite, spec.rmw_proportion));
        }
        proof {
            assert(ops@ =~= spec_op_mix(spec));
        }
        let op_generator = match discrete_gen(ops) {
            Ok(g) => g,
            Err(e) => {
                return Err(e);
            },
        };

        let key_generator = CounterGenerator::new(spec.insert_start as u64);
        let insert_key_sequence = Arc::new(CounterGenerator::new(spec.record_count as u64));

        let key_sampler = match spec.request_dist {
            DistributionSpec::Uniform(_, _) => {
                let hi: u64 = if spec.record_count == 0 {
                    0
                } else {
                    (spec.record_count - 1) as u64
                };
                match uniform_gen(0, hi) {
                    Ok(g) => KeySampler::Uniform(g),
                    Err(e) => {
                        return Err(e);
                    },
                }
            },
            DistributionSpec::Zipfian(_, s_ppm) => {
                proof {
                    assert((spec.operation_count as int) * (spec.insert_proportion as int) <= (
                    u64::MAX as int) * (u64::MAX as int)) by (nonlinear_arith)
                        requires
                            spec.operation_count <= u64::MAX,
                            spec.insert_proportion <= u64::MAX,
                    ;
                }
                let extra: u128 = ((spec.operation_count as u128) * (
                spec.insert_proportion as u128)) / 1000000;
                let elems: u128 = (spec.record_count as u128) + 2 * extra;
                if elems < 1 {
                    return Err(Error::InvalidArgument(String::from_str("request distribution")));
                }
                if elems >= 0x8000_0000 {
                    return Err(Error::InvalidArgument(String::from_str("domain too large")));
                }
                match zipfian_gen(elems as u64, s_ppm) {
                    Ok(z) => KeySampler::Zipfian(z),
                    Err(e) => {
                        return Err(e);
                    },
                }
            },
            DistributionSpec::Latest => {
                if spec.record_count < 1 {
                    return Err(Error::InvalidArgument(String::from_str("request distribution")));
                }
                if spec.record_count >= 0x8000_0000 {
                    return Err(Error::InvalidArgument(String::from_str("domain too large")));
                }
                match zipfian_gen(spec.record_count as u64, ZIPFIAN_CONSTANT_PPM) {
                    Ok(z) => KeySampler::Latest(
                        SkewedLatestGenerator {
                            basis: share_counter(&insert_key_sequence),
                            zipfian: z,
                        },
                    ),
                    Err(e) => {
                        return Err(e);
                    },
                }
            },
            DistributionSpec::Constant(_) => {
                return Err(Error::InvalidArgument(String::from_str("request distribution")));
            },
        };

        if spec.field_count < 1 {
            return Err(Error::InvalidArgument(String::from_str("field count")));
        }
        let field_generator = match uniform_gen(0, (spec.field_count - 1) as u64) {
            Ok(g) => g,
            Err(e) => {
                return Err(e);
            },
        };

        let scan_len_generator = match spec.scan_len_dist {
            DistributionSpec::Uniform(min, max) => {
                if !(min <= max && max <= usize::MAX as u64) {
                    return Err(
                        Error::InvalidArgument(String::from_str("scan length distribution")),
                    );
                }
                match uniform_gen(min, max) {
                    Ok(g) => ScanLenGen::Uniform(g),
                    Err(e) => {
                        return Err(e);
                    },
                }
            },
            DistributionSpec::Zipfian(n, s_ppm) => {
                if n < 1 {
                    return Err(
                        Error::InvalidArgument(String::from_str("scan length distribution")),
                    );
                }
                if n >= 0x8000_0000 {
                    return Err(Error::InvalidArgument(String::from_str("domain too large")));
                }
                match zipfian_gen(n, s_ppm) {
                    Ok(z) => ScanLenGen::Zipfian(z),
                    Err(e) => {
                        return Err(e);
                    },
                }
            },
            _ => {
                return Err(Error::InvalidArgument(String::from_str("scan length distribution")));
            },
        };

        proof {
            lemma_op_mix_positive(spec);
        }
        Ok(
            Self {
                field_len_generator,
                op_generator,
                key_generator,
                key_sampler,
                field_generator,
                scan_len_generator,
                insert_key_sequence,
                field_count: spec.field_count,
                table: spec.table,
                read_all_fields: spec.read_all_fields,
                write_all_fields: spec.write_all_fields,
                ordered_insert: spec.ordered_insert,
            },
        )
    }

    pub fn read_all_fields(&self) -> (r: bool)
        ensures
            r == self.read_all_fields,
    {
        self.read_all_fields
    }

    pub fn write_all_fields(&self) -> (r: bool)
        ensures
            r == self.write_all_fields,
    {
        self.write_all_fields
    }

    /// The table every operation addresses.
    pub fn next_table(&self) -> (r: String)
        ensures
            r@ == self.table@,
    {
        self.table.clone()
    }

    /// Draw one operation from the mix. Every draw is an operation of the
    /// mix; a workload whose mix is empty always yields `Insert`.
    pub fn next_operation(&self) -> (r: Operation)
        requires
            self.wf(),
        ensures
            self.op_generator.values@.len() == 0 ==> r == Operation::Insert,
            self.op_generator.values@.len() > 0 ==> exists|j: int|
                0 <= j < self.op_generator.values@.len() && r == self.op_generator.values@[j].0,
    {
        proof {
            if self.op_generator.values@.len() > 0 {
                lemma_weight_sum_positive(self.op_generator.values@);
            }
        }
        match self.op_generator.next_value() {
            Some(op) => op,
            None => Operation::Insert,
        }
    }

    /// Render the key name for a key id: a pure, deterministic function of
    /// the id and the ordered-insert flag.
    pub fn get_key_name(&self, key_num: u64) -> (r: String)
        ensures
            r@ == spec_key_name(key_num, self.ordered_insert),
    {
        key_name(key_num, self.ordered_insert)
    }

    /// The key name for the next key of the insertion sequence.
    pub fn next_sequence_key(&self) -> (r: String)
        ensures
            exists|k: u64| r@ == spec_key_name(k, self.ordered_insert),
    {
        let k = self.key_generator.next();
        self.get_key_name(k)
    }

    /// The key name for the next key past the insertion frontier.
    pub fn next_insert_sequence(&self) -> (r: String)
        ensures
            exists|k: u64| r@ == spec_key_name(k, self.ordered_insert),
    {
        let k = (&*self.insert_key_sequence).next();
        self.get_key_name(k)
    }

    /// The key name a transaction addresses, drawn from the request
    /// distribution.
    pub fn next_transaction_key(&self) -> (r: String)
        requires
            self.wf(),
        ensures
            exists|k: u64|
                self.key_sampler.in_range(k) && r@ == #[trigger] spec_key_name(
                    k,
                    self.ordered_insert,
                ),
    {
        let k = self.key_sampler.next_key();
        let s = self.get_key_name(k);
        proof {
            assert(self.key_sampler.in_range(k) && s@ == spec_key_name(k, self.ordered_insert));
        }
        s
    }

    /// A freshly generated field value: alphanumeric, with a length drawn
    /// from the field-length distribution.
    pub fn next_field_value(&self) -> (r: String)
        requires
            self.wf(),
        ensures
            self.is_value(r@),
    {
        let len = self.field_len_generator.next_len();
        rand_alphanumeric(len as usize)
    }

    /// A scan length drawn from the scan-length distribution.
    pub fn next_scan_length(&self) -> (r: usize)
        requires
            self.wf(),
        ensures
            self.scan_len_generator.in_support(r as int),
    {
        let len = self.scan_len_generator.next_len();
        len as usize
    }

    /// A full field set: one freshly generated value per field, under the
    /// field names in order.
    pub fn build_values(&self) -> (r: Vec<(String, String)>)
        requires
            self.wf(),
        ensures
            r@.len() == self.field_count,
            forall|j: int|
                0 <= j < r@.len() ==> #[trigger] r@[j].0@ == spec_field_name(j as nat)
                    && self.is_value(r@[j].1@),
    {
        let mut values: Vec<(String, String)> = Vec::new();
        let mut i: usize = 0;
        while i < self.field_count
            invariant
                self.wf(),
                0 <= i <= self.field_count,
                values@.len() == i,
                forall|j: int|
                    0 <= j < i ==> #[trigger] values@[j].0@ == spec_field_name(j as nat)
                        && self.is_value(values@[j].1@),
            decreases self.field_count - i,
        {
            let name = field_name(i as u64);
            let value = self.next_field_value();
            values.push((name, value));
            i = i + 1;
        }
        values
    }

    /// The name of one field, chosen uniformly.
    pub fn next_field_name(&self) -> (r: String)
        requires
            self.wf(),
        ensures
            exists|i: u64| i < self.field_count && r@ == #[trigger] spec_field_name(i as nat),
    {
        let i = self.field_generator.next_value();
        let s = field_name(i);
        proof {
            assert(i < self.field_count && s@ == spec_field_name(i as nat));
        }
        s
    }

    /// One field name with one freshly generated value, for a partial
    /// update.
    pub fn build_update(&self) -> (r: (String, String))
        requires
            self.wf(),
        ensures
            exists|i: u64| i < self.field_count && r.0@ == #[trigger] spec_field_name(i as nat),
            self.is_value(r.1@),
    {
        (self.next_field_name(), self.next_field_value())
    }
}

} // verus!
