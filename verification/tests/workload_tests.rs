use ycsb_rs::workload::DistributionSpec;
use ycsb_rs::CoreWorkload;
use ycsb_rs::Error;
use ycsb_rs::Operation;
use ycsb_rs::WorkloadSpec;

#[test]
fn test_default_spec_builds() {
    let spec = WorkloadSpec::default();
    assert!(CoreWorkload::new(spec).is_ok());
}

#[test]
fn test_field_len_zipfian_rejected() {
    let mut spec = WorkloadSpec::default();
    spec.field_len_dist = DistributionSpec::Zipfian(100, 990_000);
    let r = CoreWorkload::new(spec);
    assert!(matches!(r, Err(Error::InvalidArgument(_))));
}

#[test]
fn test_request_constant_rejected() {
    let mut spec = WorkloadSpec::default();
    spec.request_dist = DistributionSpec::Constant(5);
    assert!(matches!(
        CoreWorkload::new(spec),
        Err(Error::InvalidArgument(_))
    ));
}

#[test]
fn test_scan_len_constant_rejected() {
    let mut spec = WorkloadSpec::default();
    spec.scan_len_dist = DistributionSpec::Constant(5);
    assert!(matches!(
        CoreWorkload::new(spec),
        Err(Error::InvalidArgument(_))
    ));
}

#[test]
fn test_zero_field_count_rejected() {
    let spec = WorkloadSpec::default().field_count(0);
    assert!(matches!(
        CoreWorkload::new(spec),
        Err(Error::InvalidArgument(_))
    ));
}

#[test]
fn test_read_only_mix_yields_only_reads() {
    let spec = WorkloadSpec::default()
        .read_proportion(1_000_000)
        .update_proportion(0)
        .insert_proportion(0)
        .scan_proportion(0)
        .rmw_proportion(0);
    let workload = CoreWorkload::new(spec).unwrap();
    for _ in 0..500 {
        assert_eq!(workload.next_operation(), Operation::Read);
    }
}

#[test]
fn test_zipfian_request_spec_builds() {
    let spec = WorkloadSpec::default()
        .request_zipfian(990_000)
        .record_count(1000);
    assert!(CoreWorkload::new(spec).is_ok());
}

#[test]
fn test_zipfian_request_theta_one_rejected() {
    let spec = WorkloadSpec::default()
        .request_zipfian(1_000_000)
        .record_count(1000);
    assert!(matches!(
        CoreWorkload::new(spec),
        Err(Error::InvalidArgument(_))
    ));
}

#[test]
fn test_latest_request_spec_builds() {
    let mut spec = WorkloadSpec::default().record_count(1000);
    spec.request_dist = DistributionSpec::Latest;
    assert!(CoreWorkload::new(spec).is_ok());
}

#[test]
fn test_latest_request_follows_frontier() {
    // The latest-skewed sampler reads the live insertion frontier, which
    // `next_insert_sequence` advances: after the frontier moves from 50 to
    // 100, transaction keys reach past the original frontier but never
    // past the live one.
    let mut spec = WorkloadSpec::default().record_count(50);
    spec.request_dist = DistributionSpec::Latest;
    spec.ordered_insert = true;
    let workload = CoreWorkload::new(spec).unwrap();
    for _ in 0..50 {
        workload.next_insert_sequence();
    }
    let mut seen_past_old_frontier = false;
    for _ in 0..200 {
        let key = workload.next_transaction_key();
        let id: u64 = key.strip_prefix("user").unwrap().parse().unwrap();
        assert!(id <= 100);
        if id > 55 {
            seen_past_old_frontier = true;
        }
    }
    assert!(seen_past_old_frontier);
}

#[test]
fn test_latest_request_no_records_rejected() {
    let mut spec = WorkloadSpec::default().record_count(0);
    spec.request_dist = DistributionSpec::Latest;
    assert!(matches!(
        CoreWorkload::new(spec),
        Err(Error::InvalidArgument(_))
    ));
}

#[test]
fn test_key_name_deterministic() {
    let workload = CoreWorkload::new(WorkloadSpec::default()).unwrap();
    let a = workload.get_key_name(42);
    let b = workload.get_key_name(42);
    assert_eq!(a, b);
    assert!(a.starts_with("user"));
    // Distinct ids give distinct hashed names (true for these inputs).
    assert_ne!(workload.get_key_name(1), workload.get_key_name(2));
}

#[test]
fn test_key_name_ordered_embeds_id() {
    let mut spec = WorkloadSpec::default();
    spec.ordered_insert = true;
    let workload = CoreWorkload::new(spec).unwrap();
    assert_eq!(workload.get_key_name(5), "user5");
    assert_eq!(workload.get_key_name(1234567890), "user1234567890");
}

#[test]
fn test_sequence_keys_follow_insert_start() {
    let mut spec = WorkloadSpec::default();
    spec.ordered_insert = true;
    spec.insert_start = 3;
    let workload = CoreWorkload::new(spec).unwrap();
    assert_eq!(workload.next_sequence_key(), "user3");
    assert_eq!(workload.next_sequence_key(), "user4");
}

#[test]
fn test_build_values_shape() {
    let workload = CoreWorkload::new(WorkloadSpec::default()).unwrap();
    let values = workload.build_values();
    assert_eq!(values.len(), 10);
    for (i, (name, value)) in values.iter().enumerate() {
        assert_eq!(name, &format!("field{}", i));
        assert_eq!(value.len(), 100);
        assert!(value.chars().all(|c| c.is_ascii_alphanumeric()));
    }
}

#[test]
fn test_next_field_name_in_range() {
    let workload = CoreWorkload::new(WorkloadSpec::default().field_count(4)).unwrap();
    for _ in 0..200 {
        let name = workload.next_field_name();
        let idx: usize = name.strip_prefix("field").unwrap().parse().unwrap();
        assert!(idx < 4);
    }
}

#[test]
fn test_build_update_shape() {
    let workload = CoreWorkload::new(WorkloadSpec::default().write_all_fields(true)).unwrap();
    let (name, value) = workload.build_update();
    assert!(name.starts_with("field"));
    assert_eq!(value.len(), 100);
}

#[test]
fn test_next_scan_length_in_range() {
    let workload = CoreWorkload::new(WorkloadSpec::default()).unwrap();
    for _ in 0..200 {
        let len = workload.next_scan_length();
        assert!((1..=1000).contains(&len));
    }
}

#[test]
fn test_field_len_const_builder() {
    let workload =
        CoreWorkload::new(WorkloadSpec::default().field_len_const(7).field_count(2)).unwrap();
    let values = workload.build_values();
    assert_eq!(values.len(), 2);
    for (_, value) in values {
        assert_eq!(value.len(), 7);
    }
}

#[test]
fn test_spec_getters_and_builders() {
    let spec = WorkloadSpec::default()
        .record_count(123)
        .operation_count(456);
    assert_eq!(spec.get_record_count(), 123);
    assert_eq!(spec.get_operation_count(), 456);
    let spec = spec.read_proportion(10).rmw_proportion(20).scan_proportion(30);
    assert_eq!(spec.read_proportion, 10);
    assert_eq!(spec.rmw_proportion, 20);
    assert_eq!(spec.scan_proportion, 30);
}

#[test]
fn test_next_table_is_configured_table() {
    let workload = CoreWorkload::new(WorkloadSpec::default()).unwrap();
    assert_eq!(workload.next_table(), "usertable");
}

#[test]
fn test_operation_default_is_insert() {
    assert_eq!(Operation::default(), Operation::Insert);
}

#[test]
fn test_hashed_key_name_matches_xxhash64() {
    // The hashed naming scheme is the 64-bit xxHash (seed zero) of the
    // key id's little-endian bytes; cross-check against an independent
    // implementation of the same function.
    let workload = CoreWorkload::new(WorkloadSpec::default()).unwrap();
    let digest = twox_hash::XxHash64::oneshot(0, &42u64.to_le_bytes());
    assert_eq!(workload.get_key_name(42), format!("user{}", digest));
}

#[test]
fn test_io_error_conversion() {
    let ioe = std::io::Error::new(std::io::ErrorKind::NotFound, "missing");
    let err = Error::from(ioe);
    assert!(matches!(err, Error::Io(_)));
    assert_eq!(err.describe(), "IO error");
}

#[test]
fn test_error_describe_messages() {
    let mut spec = WorkloadSpec::default();
    spec.field_len_dist = DistributionSpec::Latest;
    let err = match CoreWorkload::new(spec) {
        Err(e) => e,
        Ok(_) => panic!("construction should fail"),
    };
    assert_eq!(err.describe(), "Invalid argument: field length distribution");
    assert_eq!(
        Error::TransactionAborted.describe(),
        "Transaction aborted"
    );
    assert_eq!(
        Error::UnknownSpecFormat.describe(),
        "Unknown workload spec format"
    );
}
