use prof::utils::human_bytes;

fn unit_scale(unit: &str) -> i128 {
    match unit {
        "GB" => 1 << 30,
        "MB" => 1 << 20,
        "KB" => 1 << 10,
        "B" => 1,
        _ => panic!("unknown unit {unit}"),
    }
}

/// Reads text written by `human_bytes` back into a signed count of bytes.
fn read_back(text: &str) -> i128 {
    let (negative, body) = match text.strip_prefix('-') {
        Some(rest) => (true, rest),
        None => (false, text),
    };
    let mut total: i128 = 0;
    for token in body.split(' ') {
        let digits: String = token.chars().take_while(|c| c.is_ascii_digit()).collect();
        let unit = &token[digits.len()..];
        let value: i128 = digits.parse().unwrap();
        assert!(value > 0, "zero unit in {text:?}");
        total += value * unit_scale(unit);
    }
    if negative {
        -total
    } else {
        total
    }
}

#[test]
fn format_zero() {
    assert_eq!(human_bytes(0), "0B");
}

#[test]
fn format_negative_bytes() {
    assert_eq!(human_bytes(-5), "-5B");
}

#[test]
fn format_one_kilobyte() {
    assert_eq!(human_bytes(1024), "1KB");
}

#[test]
fn format_kilobyte_and_a_half() {
    assert_eq!(human_bytes(1536), "1KB 512B");
}

#[test]
fn format_one_megabyte() {
    assert_eq!(human_bytes(1_048_576), "1MB");
}

#[test]
fn format_skips_zero_units_between() {
    assert_eq!(human_bytes(1_073_741_824 + 3 * 1_048_576 + 5), "1GB 3MB 5B");
}

#[test]
fn format_negative_mixed_units() {
    assert_eq!(human_bytes(-(2 * 1024 * 1024 + 7 * 1024)), "-2MB 7KB");
}

#[test]
fn format_gigabytes_do_not_wrap() {
    assert_eq!(human_bytes(2048 * 1_073_741_824), "2048GB");
}

#[test]
fn format_largest_count() {
    assert_eq!(human_bytes(i64::MAX), "8589934591GB 1023MB 1023KB 1023B");
}

#[test]
fn format_smallest_count_uses_largest_magnitude() {
    assert_eq!(human_bytes(i64::MIN), "-8589934591GB 1023MB 1023KB 1023B");
}

#[test]
fn format_reads_back_to_the_same_count() {
    let sizes: [i64; 10] = [
        1,
        -1,
        1023,
        1025,
        -1536,
        1_048_577,
        123_456_789,
        -987_654_321_012,
        5 * 1_073_741_824 + 1,
        i64::MAX,
    ];
    for size in sizes {
        assert_eq!(read_back(&human_bytes(size)), size as i128, "size {size}");
    }
}
