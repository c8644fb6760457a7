use openvmm_ctl::size::human_bytes;

/// The text of `bytes / unit` as floating point prints it.
fn printed(bytes: u64, unit: u64, suffix: &str) -> String {
    format!("{:.2} {}", bytes as f64 / unit as f64, suffix)
}

fn expected(bytes: u64) -> String {
    if bytes >= 1 << 40 {
        printed(bytes, 1 << 40, "TiB")
    } else if bytes >= 1 << 30 {
        printed(bytes, 1 << 30, "GiB")
    } else if bytes >= 1 << 20 {
        printed(bytes, 1 << 20, "MiB")
    } else if bytes >= 1 << 10 {
        printed(bytes, 1 << 10, "KiB")
    } else {
        format!("{} B", bytes)
    }
}

#[test]
fn human_bytes_exact_values() {
    assert_eq!(human_bytes(0), "0 B");
    assert_eq!(human_bytes(1), "1 B");
    assert_eq!(human_bytes(1023), "1023 B");
    assert_eq!(human_bytes(1024), "1.00 KiB");
    assert_eq!(human_bytes(1536), "1.50 KiB");
    assert_eq!(human_bytes(1034), "1.01 KiB");
    assert_eq!(human_bytes(1024 * 1024), "1.00 MiB");
    assert_eq!(human_bytes(1024 * 1024 * 1024), "1.00 GiB");
    assert_eq!(human_bytes(10 * 1024 * 1024 * 1024), "10.00 GiB");
    assert_eq!(human_bytes(1024 * 1024 * 1024 * 1024), "1.00 TiB");
    assert_eq!(human_bytes(u64::MAX), "16777216.00 TiB");
}

#[test]
fn human_bytes_rounds_up_within_the_unit() {
    assert_eq!(human_bytes(1024 * 1024 - 1), "1024.00 KiB");
    assert_eq!(human_bytes(1024 * 1024 * 1024 - 1), "1024.00 MiB");
}

#[test]
fn human_bytes_ties_go_to_even() {
    assert_eq!(human_bytes(1024 + 128), "1.12 KiB");
    assert_eq!(human_bytes(1024 + 384), "1.38 KiB");
    assert_eq!(human_bytes(1024 + 640), "1.62 KiB");
    assert_eq!(human_bytes(1024 + 896), "1.88 KiB");
}

#[test]
fn human_bytes_beyond_the_precision_of_a_double() {
    let tie = (1u64 << 60) + (1 << 37);
    for bytes in [tie - 300, tie - 1, tie, tie + 1, tie + 64, tie + 127, tie + 128, tie + 129, tie + 300] {
        assert_eq!(human_bytes(bytes), expected(bytes));
    }
    assert_eq!(human_bytes(tie), "1048576.12 TiB");
    assert_eq!(human_bytes(tie + 128), "1048576.12 TiB");
    assert_eq!(human_bytes(tie + 129), "1048576.13 TiB");
}

#[test]
fn human_bytes_agrees_with_floating_point() {
    for bytes in 0..5000u64 {
        assert_eq!(human_bytes(bytes), expected(bytes));
    }
    for shift in 0..64u32 {
        for step in [0u64, 1, 2, 3, 5, 255, 256, 257, 511, 512, 513, 1023, 1024, 1025] {
            let power = 1u64 << shift;
            for bytes in [power.wrapping_add(step), power.wrapping_sub(step), power | (power >> 3).wrapping_add(step)] {
                assert_eq!(human_bytes(bytes), expected(bytes));
            }
        }
    }
    let mut seed = 0x1234_5678_9abc_def1u64;
    for round in 0..20000u32 {
        seed ^= seed << 13;
        seed ^= seed >> 7;
        seed ^= seed << 17;
        let bytes = seed >> (round % 64);
        assert_eq!(human_bytes(bytes), expected(bytes));
    }
}

#[test]
fn human_bytes_keeps_order() {
    let sizes = [1023u64, 1024, 1048575, 1048576, 1 << 30, (1 << 40) - 1, 1 << 40];
    let shown: Vec<String> = sizes.iter().map(|b| human_bytes(*b)).collect();
    assert_eq!(
        shown,
        vec!["1023 B", "1.00 KiB", "1024.00 KiB", "1.00 MiB", "1.00 GiB", "1024.00 GiB", "1.00 TiB"]
    );
}
