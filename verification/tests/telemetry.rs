use replay_core::failure::{failure_response, FailureKind, FailureResponse};
use replay_core::monitor::{filter_volumes, table_size_sample, total_size, VolumeUsage};

fn volume(name: &str, size_bytes: u64) -> VolumeUsage {
    VolumeUsage { name: name.as_bytes().to_vec(), size_bytes }
}

#[test]
fn only_cluster_volumes_become_samples() {
    let volumes = vec![
        volume("modelardb-cluster_edge-1", 4096),
        volume("unrelated-volume", 77),
        volume("modelardb-cluster_edge-2", 8192),
    ];
    let prefix = b"modelardb-cluster_".to_vec();
    let samples = filter_volumes(&volumes, &prefix);
    assert_eq!(samples.len(), 2);
    assert_eq!(samples[0].node_name, b"edge-1".to_vec());
    assert_eq!(samples[0].size_bytes, 4096);
    assert_eq!(samples[1].node_name, b"edge-2".to_vec());
    assert_eq!(samples[1].size_bytes, 8192);
}

#[test]
fn an_empty_report_yields_no_samples() {
    let prefix = b"modelardb-cluster_".to_vec();
    assert!(filter_volumes(&vec![], &prefix).is_empty());
}

#[test]
fn a_name_shorter_than_the_prefix_never_matches() {
    let volumes = vec![volume("modelardb", 1)];
    let prefix = b"modelardb-cluster_".to_vec();
    assert!(filter_volumes(&volumes, &prefix).is_empty());
}

#[test]
fn a_name_equal_to_the_prefix_yields_an_empty_node_name() {
    let volumes = vec![volume("modelardb-cluster_", 5)];
    let prefix = b"modelardb-cluster_".to_vec();
    let samples = filter_volumes(&volumes, &prefix);
    assert_eq!(samples.len(), 1);
    assert!(samples[0].node_name.is_empty());
}

#[test]
fn listing_sizes_are_summed() {
    assert_eq!(total_size(&vec![]), 0);
    assert_eq!(total_size(&vec![1, 2, 3]), 6);
    assert_eq!(total_size(&vec![4096, 8192, 100]), 12388);
}

#[test]
fn an_overflowing_sum_saturates() {
    assert_eq!(total_size(&vec![u64::MAX, 1]), u64::MAX);
    assert_eq!(total_size(&vec![u64::MAX - 1, 1]), u64::MAX);
}

#[test]
fn a_table_size_sample_keeps_its_backend_label() {
    let sample = table_size_sample("modelardb".to_owned(), &vec![100, 200]);
    assert_eq!(sample.backend_label, "modelardb");
    assert_eq!(sample.size_bytes, 300);
}

#[test]
fn each_failure_kind_gets_its_response() {
    assert_eq!(failure_response(FailureKind::Transient), FailureResponse::Retry);
    assert_eq!(failure_response(FailureKind::Permanent), FailureResponse::AbortJob);
    assert_eq!(
        failure_response(FailureKind::PartialDispatch),
        FailureResponse::ContinueOthers
    );
}
