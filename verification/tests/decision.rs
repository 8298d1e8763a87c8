use pallet_template::{next_total, Error};

#[test]
fn next_total_first_write() {
    assert_eq!(next_total(50, None, 10), Ok(10));
    assert_eq!(next_total(50, None, 0), Ok(0));
    assert_eq!(next_total(50, None, 50), Ok(50));
}

#[test]
fn next_total_adds_to_the_stored_total() {
    assert_eq!(next_total(50, Some(10), 20), Ok(30));
    assert_eq!(next_total(50, Some(0), 0), Ok(0));
    assert_eq!(next_total(50, Some(4_294_967_245), 50), Ok(u32::MAX));
}

#[test]
fn next_total_rejects_values_above_the_ceiling() {
    assert_eq!(next_total(50, None, 51), Err(Error::ValueBiggerThanMax));
    assert_eq!(next_total(50, Some(10), 51), Err(Error::ValueBiggerThanMax));
    assert_eq!(next_total(0, None, 1), Err(Error::ValueBiggerThanMax));
}

#[test]
fn next_total_rejects_overflow() {
    assert_eq!(next_total(50, Some(4_294_967_290), 10), Err(Error::StorageOverflow));
    assert_eq!(next_total(50, Some(u32::MAX), 1), Err(Error::StorageOverflow));
    assert_eq!(next_total(50, Some(4_294_967_290), 5), Ok(u32::MAX));
}

#[test]
fn next_total_tests_the_ceiling_first() {
    assert_eq!(next_total(50, Some(4_294_967_290), 51), Err(Error::ValueBiggerThanMax));
    assert_eq!(next_total(50, Some(u32::MAX), u32::MAX), Err(Error::ValueBiggerThanMax));
}

#[test]
fn next_total_with_the_widest_ceiling() {
    assert_eq!(next_total(u32::MAX, None, u32::MAX), Ok(u32::MAX));
    assert_eq!(next_total(u32::MAX, Some(1), u32::MAX), Err(Error::StorageOverflow));
    assert_eq!(next_total(u32::MAX, Some(0), u32::MAX), Ok(u32::MAX));
}
