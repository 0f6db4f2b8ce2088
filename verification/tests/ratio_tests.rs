use picklist::decimal::decimal_string;
use picklist::ratio::Ratio;
use picklist::ratio::RatioTable;
use picklist::recipe::Sku;

fn sku_with(table: RatioTable) -> Sku {
    Sku {
        code: "S1".to_string(),
        name: "Carrot".to_string(),
        servings_ratio: table,
    }
}

#[test]
fn picks_is_ceiling() {
    assert_eq!(Ratio::new(3, 2).unwrap().picks(), 2);
    assert_eq!(Ratio::new(3, 1).unwrap().picks(), 3);
    assert_eq!(Ratio::new(0, 5).unwrap().picks(), 0);
    assert_eq!(Ratio::new(1, 3).unwrap().picks(), 1);
    assert_eq!(Ratio::new(4, 2).unwrap().picks(), 2);
    assert_eq!(Ratio::new(7, 4).unwrap().picks(), 2);
    assert_eq!(Ratio::new(u64::MAX, 1).unwrap().picks(), u64::MAX);
    assert_eq!(Ratio::new(u64::MAX, 2).unwrap().picks(), u64::MAX / 2 + 1);
}

#[test]
fn zero_denominator_is_rejected() {
    assert!(Ratio::new(1, 0).is_none());
    assert!(Ratio::new(0, 0).is_none());
}

#[test]
fn missing_tier_yields_zero() {
    let table = RatioTable::empty().with_tier(2, Ratio::new(3, 2).unwrap());
    let sku = sku_with(table);
    assert_eq!(sku.picklist(1), "0");
    assert_eq!(sku.picklist(2), "2");
    assert_eq!(sku.picklist(3), "0");
    assert_eq!(sku.picklist(6), "0");
    assert_eq!(sku.picklist(9), "0");
}

#[test]
fn empty_table_yields_zero_everywhere() {
    let sku = sku_with(RatioTable::empty());
    for tier in 1..=6u32 {
        assert_eq!(sku.picklist(tier), "0");
    }
}

#[test]
fn with_tier_keeps_other_tiers() {
    let table = RatioTable::empty()
        .with_tier(1, Ratio::new(1, 1).unwrap())
        .with_tier(6, Ratio::new(5, 2).unwrap());
    assert_eq!(table.get(1).unwrap().picks(), 1);
    assert!(table.get(2).is_none());
    assert!(table.get(5).is_none());
    assert_eq!(table.get(6).unwrap().picks(), 3);
}

#[test]
fn decimal_rendering_is_exact() {
    assert_eq!(decimal_string(0), "0");
    assert_eq!(decimal_string(7), "7");
    assert_eq!(decimal_string(10), "10");
    assert_eq!(decimal_string(42), "42");
    assert_eq!(decimal_string(205), "205");
    assert_eq!(decimal_string(1000), "1000");
    assert_eq!(decimal_string(u64::MAX), "18446744073709551615");
}
