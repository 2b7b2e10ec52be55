use number_shortener::{classify, get_prefixes, get_prefixes_enum, suffix_symbol, Prefix};

#[test]
fn symbol_table_holds_the_five_named_powers() {
    let table = get_prefixes();
    assert_eq!(table.len(), 5);
    assert_eq!(table.get(&3), Some(&"K"));
    assert_eq!(table.get(&6), Some(&"M"));
    assert_eq!(table.get(&9), Some(&"G"));
    assert_eq!(table.get(&12), Some(&"T"));
    assert_eq!(table.get(&15), Some(&"P"));
    assert_eq!(table.get(&0), None);
    assert_eq!(table.get(&18), None);
}

#[test]
fn tier_table_holds_the_five_named_powers() {
    let table = get_prefixes_enum();
    assert_eq!(table.len(), 5);
    assert_eq!(table.get(&3), Some(&Prefix::Kilo));
    assert_eq!(table.get(&6), Some(&Prefix::Mega));
    assert_eq!(table.get(&9), Some(&Prefix::Giga));
    assert_eq!(table.get(&12), Some(&Prefix::Tera));
    assert_eq!(table.get(&15), Some(&Prefix::Peta));
    assert_eq!(table.get(&0), None);
    assert_eq!(table.get(&-3), None);
}

#[test]
fn tables_name_the_same_powers() {
    let symbols = get_prefixes();
    let tiers = get_prefixes_enum();
    let mut left: Vec<i32> = symbols.keys().copied().collect();
    let mut right: Vec<i32> = tiers.keys().copied().collect();
    left.sort();
    right.sort();
    assert_eq!(left, vec![3, 6, 9, 12, 15]);
    assert_eq!(left, right);
}

#[test]
fn classify_finds_each_named_power() {
    assert_eq!(classify(3), Prefix::Kilo);
    assert_eq!(classify(6), Prefix::Mega);
    assert_eq!(classify(9), Prefix::Giga);
    assert_eq!(classify(12), Prefix::Tera);
    assert_eq!(classify(15), Prefix::Peta);
}

#[test]
fn classify_falls_back_to_unknown() {
    for exponent in [0, 1, 2, 4, 5, 7, 14, 16, 18, 21, -1, -3, -6, i32::MIN, i32::MAX] {
        assert_eq!(classify(exponent), Prefix::Unknown, "exponent {}", exponent);
    }
}

#[test]
fn suffix_symbol_finds_each_named_power() {
    assert_eq!(suffix_symbol(3), "K");
    assert_eq!(suffix_symbol(6), "M");
    assert_eq!(suffix_symbol(9), "G");
    assert_eq!(suffix_symbol(12), "T");
    assert_eq!(suffix_symbol(15), "P");
}

#[test]
fn suffix_symbol_is_empty_elsewhere() {
    for exponent in [0, 1, 2, 4, 8, 10, 13, 18, 30, -3, -15, i32::MIN, i32::MAX] {
        assert_eq!(suffix_symbol(exponent), "", "exponent {}", exponent);
    }
}

#[test]
fn weight_finds_the_tier_again() {
    for tier in [Prefix::Kilo, Prefix::Mega, Prefix::Giga, Prefix::Tera, Prefix::Peta] {
        assert_eq!(classify(tier.weight()), tier);
    }
    assert_eq!(classify(Prefix::Unknown.weight()), Prefix::Unknown);
    for (power, tier) in get_prefixes_enum() {
        assert_eq!(tier.weight(), power);
    }
}

#[test]
fn a_power_has_a_symbol_exactly_when_it_has_a_tier() {
    for exponent in -20..40 {
        let named = classify(exponent) != Prefix::Unknown;
        assert_eq!(suffix_symbol(exponent).is_empty(), !named);
        if named {
            assert_eq!(suffix_symbol(exponent).chars().count(), 1);
        }
    }
}
