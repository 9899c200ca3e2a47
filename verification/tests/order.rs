use std::cmp::Ordering;
use unit_fraction::{Phase, Primant, CODE_COUNT, MAX_CODE};

const CODES: [u32; 8] = [0, 1, 2, 1_000_000, 2_147_483_647, 2_147_483_648, 4_294_967_294, 4_294_967_295];

#[test]
fn primant_order_is_the_order_of_codes_and_of_values() {
    for a in CODES {
        for b in CODES {
            let (x, y) = (Primant::from_raw(a), Primant::from_raw(b));
            let (vx, vy) = (a as f64 / MAX_CODE as f64, b as f64 / MAX_CODE as f64);
            assert_eq!(x < y, a < b);
            assert_eq!(x < y, vx < vy);
            assert_eq!(x <= y, a <= b);
            assert_eq!(x > y, a > b);
            assert_eq!(x >= y, a >= b);
            assert_eq!(x == y, a == b);
            assert_eq!(x == y, vx == vy);
            assert_eq!(x != y, a != b);
        }
    }
}

#[test]
fn phase_order_is_the_order_of_codes_and_of_values() {
    for a in CODES {
        for b in CODES {
            let (x, y) = (Phase::from_raw(a), Phase::from_raw(b));
            let (vx, vy) = (a as f64 / CODE_COUNT as f64, b as f64 / CODE_COUNT as f64);
            assert_eq!(x < y, a < b);
            assert_eq!(x < y, vx < vy);
            assert_eq!(x <= y, a <= b);
            assert_eq!(x > y, a > b);
            assert_eq!(x >= y, a >= b);
            assert_eq!(x == y, a == b);
            assert_eq!(x == y, vx == vy);
            assert_eq!(x != y, a != b);
        }
    }
}

#[test]
fn primant_comparison_names_the_three_outcomes() {
    let (low, high) = (Primant::from_raw(7), Primant::from_raw(9));
    assert_eq!(low.partial_cmp(&high), Some(Ordering::Less));
    assert_eq!(high.partial_cmp(&low), Some(Ordering::Greater));
    assert_eq!(low.partial_cmp(&low), Some(Ordering::Equal));
    assert_eq!(low.cmp(&high), Ordering::Less);
    assert_eq!(high.cmp(&low), Ordering::Greater);
    assert_eq!(high.cmp(&high), Ordering::Equal);
}

#[test]
fn phase_comparison_names_the_three_outcomes() {
    let (low, high) = (Phase::from_raw(7), Phase::from_raw(9));
    assert_eq!(low.partial_cmp(&high), Some(Ordering::Less));
    assert_eq!(high.partial_cmp(&low), Some(Ordering::Greater));
    assert_eq!(low.partial_cmp(&low), Some(Ordering::Equal));
    assert_eq!(low.cmp(&high), Ordering::Less);
    assert_eq!(high.cmp(&low), Ordering::Greater);
    assert_eq!(high.cmp(&high), Ordering::Equal);
}

#[test]
fn total_and_partial_order_agree() {
    for a in CODES {
        for b in CODES {
            let (x, y) = (Primant::from_raw(a), Primant::from_raw(b));
            assert_eq!(x.partial_cmp(&y), Some(x.cmp(&y)));
            let (x, y) = (Phase::from_raw(a), Phase::from_raw(b));
            assert_eq!(x.partial_cmp(&y), Some(x.cmp(&y)));
        }
    }
}

#[test]
fn sorting_fractions_sorts_their_codes() {
    let mut fractions: Vec<Primant> = [9u32, 0, 4_294_967_295, 3, 2_147_483_648].iter().map(|c| Primant::from_raw(*c)).collect();
    fractions.sort();
    let codes: Vec<u32> = fractions.iter().map(|f| f.to_raw()).collect();
    assert_eq!(codes, vec![0, 3, 9, 2_147_483_648, 4_294_967_295]);
    let largest = fractions.iter().copied().max().unwrap();
    assert_eq!(largest.to_raw(), u32::MAX);
}

#[test]
fn copies_are_equal_to_the_original() {
    let fraction = Primant::from_raw(12_345);
    let copy = fraction;
    let clone = fraction.clone();
    assert!(copy == fraction && clone == fraction);
    let phase = Phase::from_raw(54_321);
    let copy = phase;
    let clone = phase.clone();
    assert!(copy == phase && clone == phase);
}
