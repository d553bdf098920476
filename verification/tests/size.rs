use flasher::size::format_size;

fn by_floats(bytes: u64) -> String {
    const KB: u64 = 1024;
    const MB: u64 = KB * 1024;
    const GB: u64 = MB * 1024;
    const TB: u64 = GB * 1024;
    if bytes >= TB {
        format!("{:.1} TB", bytes as f64 / TB as f64)
    } else if bytes >= GB {
        format!("{:.1} GB", bytes as f64 / GB as f64)
    } else if bytes >= MB {
        format!("{:.1} MB", bytes as f64 / MB as f64)
    } else if bytes >= KB {
        format!("{:.1} KB", bytes as f64 / KB as f64)
    } else {
        format!("{} B", bytes)
    }
}

#[test]
fn named_examples() {
    assert_eq!(format_size(1536), "1.5 KB");
    assert_eq!(format_size(0), "0 B");
    assert_eq!(format_size(1_099_511_627_776), "1.0 TB");
}

#[test]
fn plain_bytes_are_integers() {
    assert_eq!(format_size(1), "1 B");
    assert_eq!(format_size(9), "9 B");
    assert_eq!(format_size(10), "10 B");
    assert_eq!(format_size(512), "512 B");
    assert_eq!(format_size(1023), "1023 B");
}

#[test]
fn unit_boundaries() {
    assert_eq!(format_size(1024), "1.0 KB");
    assert_eq!(format_size(1024 * 1024 - 1), "1024.0 KB");
    assert_eq!(format_size(1024 * 1024), "1.0 MB");
    assert_eq!(format_size(1024 * 1024 * 1024 - 1), "1024.0 MB");
    assert_eq!(format_size(1024 * 1024 * 1024), "1.0 GB");
    assert_eq!(format_size(1_099_511_627_775), "1024.0 GB");
    assert_eq!(format_size(u64::MAX), "16777216.0 TB");
}

#[test]
fn ties_go_to_the_even_tenth() {
    // 1.25 KB and 1.75 KB are exactly halfway between two tenths.
    assert_eq!(format_size(1280), "1.2 KB");
    assert_eq!(format_size(1792), "1.8 KB");
    assert_eq!(format_size(1024 + 51), "1.0 KB");
    assert_eq!(format_size(1024 + 52), "1.1 KB");
    assert_eq!(format_size(5 * 1024 * 1024 * 1024 / 4), "1.2 GB");
}

#[test]
fn typical_device_sizes() {
    assert_eq!(format_size(8_000_000_000), "7.5 GB");
    assert_eq!(format_size(16_013_942_784), "14.9 GB");
    assert_eq!(format_size(2_000_398_934_016), "1.8 TB");
    assert_eq!(format_size(700 * 1024 * 1024), "700.0 MB");
}

#[test]
fn agrees_with_floating_point_rendering_on_a_sweep() {
    let mut state: u64 = 0x9e37_79b9_7f4a_7c15;
    let mut checked = 0;
    while checked < 20_000 {
        state ^= state << 13;
        state ^= state >> 7;
        state ^= state << 17;
        let shift = (state >> 58) as u32;
        let bytes = state >> shift;
        assert_eq!(format_size(bytes), by_floats(bytes), "bytes = {}", bytes);
        checked += 1;
    }
}

#[test]
fn agrees_with_floating_point_rendering_near_powers_of_two() {
    let mut bit = 0;
    while bit < 64 {
        let base: u64 = 1 << bit;
        let mut delta: u64 = 0;
        while delta < 3000 {
            let up = base.wrapping_add(delta);
            let down = base.wrapping_sub(delta);
            assert_eq!(format_size(up), by_floats(up), "bytes = {}", up);
            assert_eq!(format_size(down), by_floats(down), "bytes = {}", down);
            delta += 1;
        }
        bit += 1;
    }
}

#[test]
fn agrees_with_floating_point_rendering_on_halfway_counts() {
    // Multiples of a twentieth of a unit sit on or next to rounding ties.
    let units: [u64; 4] = [1 << 10, 1 << 20, 1 << 30, 1 << 40];
    for unit in units {
        let mut k: u64 = 20;
        while k < 20 * 1024 {
            let bytes = unit / 4 * k / 5;
            if bytes >= unit {
                assert_eq!(format_size(bytes), by_floats(bytes), "bytes = {}", bytes);
                assert_eq!(format_size(bytes + 1), by_floats(bytes + 1), "bytes = {}", bytes + 1);
                assert_eq!(format_size(bytes - 1), by_floats(bytes - 1), "bytes = {}", bytes - 1);
            }
            k += 1;
        }
    }
}
