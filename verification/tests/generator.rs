use kvbench::workload::{
    dataset_keys, generate_initial, generate_mixed_update_data, generate_test_data,
    generate_update_mix, update_share, EmptyExistingSetError, Fraction, DATA_SIZE,
};

fn count_keys_from(data: &[(u64, u64)], existing: &[(u64, u64)]) -> usize {
    data.iter()
        .filter(|(k, _)| existing.iter().any(|(ek, _)| ek == k))
        .count()
}

#[test]
fn initial_len_zero() {
    assert_eq!(generate_initial(0).len(), 0);
}

#[test]
fn initial_len_exact() {
    assert_eq!(generate_initial(10).len(), 10);
    assert_eq!(generate_initial(1).len(), 1);
    assert_eq!(generate_initial(1000).len(), 1000);
}

#[test]
fn test_data_len() {
    assert_eq!(generate_test_data().len(), DATA_SIZE);
}

#[test]
fn update_share_rounds_to_nearest() {
    assert_eq!(update_share(10, Fraction::new(1, 2)), 5);
    assert_eq!(update_share(100_000, Fraction::new(19, 20)), 95_000);
    // 7 * 1/3 = 2.33.. rounds down
    assert_eq!(update_share(7, Fraction::new(1, 3)), 2);
    // 1 * 1/2 = 0.5 rounds up
    assert_eq!(update_share(1, Fraction::new(1, 2)), 1);
    assert_eq!(update_share(0, Fraction::new(1, 2)), 0);
    assert_eq!(update_share(10, Fraction::new(0, 1)), 0);
    assert_eq!(update_share(10, Fraction::new(1, 1)), 10);
}

#[test]
fn update_mix_len_and_split() {
    let existing = generate_initial(10);
    let mixed = generate_update_mix(&existing, 10, Fraction::new(1, 2)).unwrap();
    assert_eq!(mixed.len(), 10);
    // The first five entries are updates: their keys come from `existing`.
    assert_eq!(count_keys_from(&mixed[..5], &existing), 5);
    // Exactly the update portion hits the existing key set: fresh random
    // inserts colliding with one of ten 64-bit keys is negligible noise.
    assert_eq!(count_keys_from(&mixed, &existing), 5);
}

#[test]
fn update_mix_zero_total() {
    let existing = generate_initial(3);
    let mixed = generate_update_mix(&existing, 0, Fraction::new(1, 2)).unwrap();
    assert_eq!(mixed.len(), 0);
}

#[test]
fn update_mix_empty_existing_fails() {
    let existing: Vec<(u64, u64)> = Vec::new();
    let r = generate_update_mix(&existing, 4, Fraction::new(1, 2));
    assert_eq!(r, Err(EmptyExistingSetError));
}

#[test]
fn update_mix_empty_existing_zero_fraction_succeeds() {
    let existing: Vec<(u64, u64)> = Vec::new();
    let mixed = generate_update_mix(&existing, 4, Fraction::new(0, 1)).unwrap();
    assert_eq!(mixed.len(), 4);
}

#[test]
fn update_mix_all_updates() {
    let existing = generate_initial(4);
    let mixed = generate_update_mix(&existing, 8, Fraction::new(1, 1)).unwrap();
    assert_eq!(mixed.len(), 8);
    assert_eq!(count_keys_from(&mixed, &existing), 8);
}

#[test]
fn mixed_update_data_shape() {
    let existing = generate_initial(10);
    let mixed = generate_mixed_update_data(&existing);
    assert_eq!(mixed.len(), DATA_SIZE);
    // 95% updates, 5% fresh inserts.
    assert_eq!(count_keys_from(&mixed[..95_000], &existing), 95_000);
}

#[test]
fn dataset_keys_projects_in_order() {
    let data = vec![(3u64, 30u64), (1, 10), (3, 40)];
    assert_eq!(dataset_keys(&data), vec![3, 1, 3]);
}
