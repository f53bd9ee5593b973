use facet::Facet;
use facet_enum_repr::{
    complete_discriminants, convert_checked, discriminant_value, discriminants_fit, find_variant,
    variant_discriminants, TryFromReprError,
};

#[test]
fn sparse_table_finds_each_variant() {
    let table: Vec<i64> = vec![-5, 100, 7, 0];
    assert_eq!(find_variant(&table, -5i16), Ok(0));
    assert_eq!(find_variant(&table, 100i16), Ok(1));
    assert_eq!(find_variant(&table, 7i16), Ok(2));
    assert_eq!(find_variant(&table, 0i16), Ok(3));
}

#[test]
fn value_outside_table_is_unknown() {
    let table: Vec<i64> = vec![-5, 100, 7];
    assert_eq!(find_variant(&table, 8i16), Err(TryFromReprError::UnknownValue(8i16)));
    assert_eq!(find_variant(&table, -100i16), Err(TryFromReprError::UnknownValue(-100i16)));
}

#[test]
fn first_of_repeated_discriminants_wins() {
    let table: Vec<i64> = vec![3, 9, 9];
    assert_eq!(find_variant(&table, 9u8), Ok(1));
}

#[test]
fn empty_table_matches_nothing() {
    let table: Vec<i64> = Vec::new();
    assert_eq!(find_variant(&table, 0u64), Err(TryFromReprError::UnknownValue(0u64)));
    assert!(discriminants_fit::<u8>(&table));
}

#[test]
fn discriminants_must_fit_their_repr() {
    assert!(discriminants_fit::<u8>(&vec![0, 255]));
    assert!(!discriminants_fit::<u8>(&vec![0, 256]));
    assert!(!discriminants_fit::<u32>(&vec![-1]));
    assert!(discriminants_fit::<i8>(&vec![-128, 127]));
    assert!(discriminants_fit::<i64>(&vec![i64::MIN, i64::MAX]));
}

#[test]
fn discriminant_value_reads_the_table() {
    let table: Vec<i64> = vec![10, -3, 65_536];
    assert_eq!(discriminant_value::<u8>(&table, 0), 10);
    assert_eq!(discriminant_value::<i32>(&table, 1), -3);
    assert_eq!(discriminant_value::<u32>(&table, 2), 65_536);
}

#[test]
fn checked_conversion_keeps_values_that_fit() {
    assert_eq!(convert_checked::<u32, u8>(255), Some(255u8));
    assert_eq!(convert_checked::<u32, u16>(65_535), Some(65_535u16));
    assert_eq!(convert_checked::<i8, i64>(-7), Some(-7i64));
    assert_eq!(convert_checked::<u64, i128>(u64::MAX), Some(u64::MAX as i128));
}

#[test]
fn checked_conversion_refuses_values_that_do_not_fit() {
    assert_eq!(convert_checked::<u32, u16>(65_536), None);
    assert_eq!(convert_checked::<u32, u8>(256), None);
    assert_eq!(convert_checked::<i32, u32>(-1), None);
    assert_eq!(convert_checked::<i128, u64>(-1), None);
}

#[test]
fn complete_discriminants_needs_every_variant() {
    assert_eq!(complete_discriminants(&vec![Some(4), Some(-2)]), Some(vec![4, -2]));
    assert_eq!(complete_discriminants(&vec![Some(4), None]), None);
    assert_eq!(complete_discriminants(&Vec::new()), Some(Vec::new()));
}

#[test]
fn registry_lists_enum_variants() {
    assert_eq!(variant_discriminants(<Option<u64> as Facet>::SHAPE), Some(vec![0, 1]));
}

#[test]
fn registry_refuses_non_enum_shapes() {
    assert_eq!(variant_discriminants(<u32 as Facet>::SHAPE), None);
}

#[test]
fn u128_values_are_supported() {
    let table: Vec<i64> = vec![0, i64::MAX];
    assert_eq!(find_variant(&table, i64::MAX as u128), Ok(1));
    assert_eq!(find_variant(&table, u128::MAX), Err(TryFromReprError::UnknownValue(u128::MAX)));
    assert_eq!(convert_checked::<u128, u8>(200), Some(200u8));
    assert_eq!(convert_checked::<u128, u64>(u128::MAX), None);
    assert_eq!(convert_checked::<u64, u128>(u64::MAX), Some(u64::MAX as u128));
    assert_eq!(convert_checked::<i128, u128>(-1), None);
}

#[test]
fn extreme_signed_values_cross_types() {
    assert_eq!(convert_checked::<i128, i128>(i128::MIN), Some(i128::MIN));
    assert_eq!(convert_checked::<i128, i64>(i128::MIN), None);
    assert_eq!(convert_checked::<i64, i128>(i64::MIN), Some(i64::MIN as i128));
    assert_eq!(convert_checked::<i8, u8>(-128), None);
    assert_eq!(discriminant_value::<i64>(&vec![i64::MIN], 0), i64::MIN);
}
