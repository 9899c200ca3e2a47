use unit_fraction::{Primant, MAX_CODE};

fn float_text(code: u32) -> String {
    format!("{:.2}%", code as f64 / u32::MAX as f64 * 100.0)
}

#[test]
fn test_display() {
    let fraction = Primant::from_raw((0.5f64 * u32::MAX as f64) as u32);
    let output = fraction.to_string();
    println!("{}", output);
    assert_eq!(fraction.to_string(), "50.00%");
}

#[test]
fn one_half_from_a_ratio_reads_fifty_percent() {
    assert_eq!(Primant::from_ratio(1, 2).to_string(), "50.00%");
}

#[test]
fn the_ends_read_zero_and_a_hundred_percent() {
    assert_eq!(Primant::from_raw(0).to_string(), "0.00%");
    assert_eq!(Primant::min_value().to_string(), "0.00%");
    assert_eq!(Primant::from_raw(MAX_CODE).to_string(), "100.00%");
    assert_eq!(Primant::max_value().to_string(), "100.00%");
}

#[test]
fn percent_text_has_one_two_or_three_whole_digits() {
    assert_eq!(Primant::from_ratio(1, 3).to_string(), "33.33%");
    assert_eq!(Primant::from_ratio(2, 3).to_string(), "66.67%");
    assert_eq!(Primant::from_ratio(1, 17).to_string(), "5.88%");
    assert_eq!(Primant::from_ratio(1, 255).to_string(), "0.39%");
    assert_eq!(Primant::from_ratio(3, 5).to_string(), "60.00%");
    assert_eq!(Primant::from_ratio(1, 15).to_string(), "6.67%");
    assert_eq!(Primant::from_raw(429_496_730).to_string(), "10.00%");
    assert_eq!(Primant::from_raw(4_294_967_294).to_string(), "100.00%");
}

#[test]
fn percent_text_rounds_to_the_nearest_hundredth() {
    // Half a hundredth of a percent is 214748.36475 codes.
    assert_eq!(Primant::from_raw(1).to_string(), "0.00%");
    assert_eq!(Primant::from_raw(214_748).to_string(), "0.00%");
    assert_eq!(Primant::from_raw(214_749).to_string(), "0.01%");
    // 99.995 percent is 4294752546.6 codes.
    assert_eq!(Primant::from_raw(4_294_752_546).to_string(), "99.99%");
    assert_eq!(Primant::from_raw(4_294_752_547).to_string(), "100.00%");
    // 9.995 percent is 429281981.1 codes.
    assert_eq!(Primant::from_raw(429_281_981).to_string(), "9.99%");
    assert_eq!(Primant::from_raw(429_281_982).to_string(), "10.00%");
}

#[test]
fn percent_text_is_the_two_digit_rendering_of_the_double() {
    for code in [0u32, 1, 2, 1_000, 214_748, 214_749, 2_147_483_647, 2_147_483_648, 4_294_967_294, 4_294_967_295] {
        assert_eq!(Primant::from_raw(code).to_string(), float_text(code));
    }
}

#[test]
fn percent_text_agrees_with_the_double_at_every_rounding_step() {
    // The text changes where the percentage passes an odd number of half
    // hundredths: try the codes on both sides of each such step.
    for step in 0u64..10_000 {
        let edge = ((2 * step + 1) * MAX_CODE as u64).div_ceil(20_000);
        for code in [edge - 1, edge, edge + 1] {
            if code <= MAX_CODE as u64 {
                let code = code as u32;
                assert_eq!(Primant::from_raw(code).to_string(), float_text(code));
            }
        }
    }
}

#[test]
fn percent_text_agrees_with_the_double_on_scattered_codes() {
    let mut code: u32 = 12_345;
    for _ in 0..20_000 {
        code = code.wrapping_mul(1_664_525).wrapping_add(1_013_904_223);
        assert_eq!(Primant::from_raw(code).to_string(), float_text(code));
    }
}

#[test]
fn percent_text_always_ends_in_two_digits_and_a_sign() {
    for code in [0u32, 7, 65_535, 16_777_216, 2_863_311_530, 4_294_967_295] {
        let text = Primant::from_raw(code).to_string();
        let bytes = text.as_bytes();
        let n = bytes.len();
        assert!(n >= 5 && n <= 7);
        assert_eq!(bytes[n - 1], b'%');
        assert!(bytes[n - 2].is_ascii_digit());
        assert!(bytes[n - 3].is_ascii_digit());
        assert_eq!(bytes[n - 4], b'.');
        assert!(bytes[..n - 4].iter().all(|b| b.is_ascii_digit()));
        assert!(n == 5 || bytes[0] != b'0');
    }
}
