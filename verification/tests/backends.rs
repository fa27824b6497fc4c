use kvbench::adapter::{BackendConfig, DurabilityMode, StorageBackend};
use kvbench::fastmap::FastMapBackend;
use kvbench::store::MapBackend;
use kvbench::workload::{dataset_keys, generate_initial};

fn config() -> BackendConfig {
    BackendConfig::new(1 << 30, DurabilityMode::NoSync, 1 << 20)
}

#[test]
fn map_round_trip() {
    let mut b = MapBackend::open(&config()).unwrap();
    let data = vec![(1u64, 10u64), (2, 20), (3, 30)];
    b.write_batch(&data);
    let vals = b.read_many(&vec![1, 2, 3]);
    assert_eq!(vals, vec![Some(10), Some(20), Some(30)]);
    b.close();
}

#[test]
fn map_last_write_wins() {
    let mut b = MapBackend::open(&config()).unwrap();
    b.write_batch(&vec![(1u64, 10u64), (2, 20), (1, 30)]);
    let vals = b.read_many(&vec![1, 2]);
    assert_eq!(vals, vec![Some(30), Some(20)]);
    b.close();
}

#[test]
fn map_absent_key_reads_none() {
    let mut b = MapBackend::open(&config()).unwrap();
    b.write_batch(&vec![(1u64, 10u64)]);
    let vals = b.read_many(&vec![9]);
    assert_eq!(vals, vec![None]);
    b.close();
}

#[test]
fn map_close_is_idempotent() {
    let mut b = MapBackend::open(&config()).unwrap();
    b.write_batch(&vec![(1u64, 10u64)]);
    b.close();
    b.close();
}

#[test]
fn map_flush_is_noop() {
    let mut b = MapBackend::open(&config()).unwrap();
    b.write_batch(&vec![(1u64, 10u64)]);
    b.flush();
    let vals = b.read_many(&vec![1]);
    assert_eq!(vals, vec![Some(10)]);
    b.close();
}

#[test]
fn map_end_to_end_ten_pairs() {
    let data = generate_initial(10);
    let mut b = MapBackend::open(&config()).unwrap();
    b.write_batch(&data);
    let keys = dataset_keys(&data);
    let vals = b.read_many(&keys);
    assert_eq!(vals.len(), 10);
    for (i, v) in vals.iter().enumerate() {
        // The value read back is the one of the key's last occurrence.
        let expected = data.iter().rev().find(|(k, _)| *k == keys[i]).unwrap().1;
        assert_eq!(*v, Some(expected));
    }
    b.close();
}

#[test]
fn fast_map_round_trip() {
    let mut b = FastMapBackend::open(&config()).unwrap();
    let data = vec![(1u64, 10u64), (2, 20), (3, 30)];
    b.write_batch(&data);
    let vals = b.read_many(&vec![1, 2, 3]);
    assert_eq!(vals, vec![Some(10), Some(20), Some(30)]);
    b.close();
}

#[test]
fn fast_map_last_write_wins() {
    let mut b = FastMapBackend::open(&config()).unwrap();
    b.write_batch(&vec![(1u64, 10u64), (2, 20), (1, 30)]);
    let vals = b.read_many(&vec![1, 2]);
    assert_eq!(vals, vec![Some(30), Some(20)]);
    b.close();
}

#[test]
fn fast_map_absent_key_reads_none() {
    let mut b = FastMapBackend::open(&config()).unwrap();
    b.write_batch(&vec![(1u64, 10u64)]);
    let vals = b.read_many(&vec![9]);
    assert_eq!(vals, vec![None]);
    b.close();
}

#[test]
fn fast_map_close_is_idempotent() {
    let mut b = FastMapBackend::open(&config()).unwrap();
    b.write_batch(&vec![(1u64, 10u64)]);
    b.close();
    b.close();
}

#[test]
fn fast_map_end_to_end_ten_pairs() {
    let data = generate_initial(10);
    let mut b = FastMapBackend::open(&config()).unwrap();
    b.write_batch(&data);
    let keys = dataset_keys(&data);
    let vals = b.read_many(&keys);
    assert_eq!(vals.len(), 10);
    for (i, v) in vals.iter().enumerate() {
        let expected = data.iter().rev().find(|(k, _)| *k == keys[i]).unwrap().1;
        assert_eq!(*v, Some(expected));
    }
    b.close();
}
