use simulation::files::{
    compute_file_ok, count_lines, derive_compute_csv_path, isqrt_u32, min_compute_lines_for, reserves_file_ok,
    white_space, RESERVES_FILE_LINES,
};
use simulation::stats::{is_flush_slot, FLUSH_INTERVAL_SLOTS};

#[test]
fn isqrt_matches_std() {
    for n in [0u32, 1, 2, 3, 4, 5, 8, 9, 15, 16, 17, 32, 128, 512, 65535, 65536, 1 << 31, u32::MAX - 1, u32::MAX] {
        assert_eq!(isqrt_u32(n), n.isqrt(), "n = {}", n);
    }
    assert_eq!(isqrt_u32(u32::MAX), 65535);
}

#[test]
fn min_compute_lines_for_study_user_counts() {
    assert_eq!(min_compute_lines_for(32), 31_000);
    assert_eq!(min_compute_lines_for(128), 127_000);
    assert_eq!(min_compute_lines_for(512), 510_000);
    assert_eq!(min_compute_lines_for(1), 0);
    // 256: roots 16, 4, 2 give an allowance of 2.
    assert_eq!(min_compute_lines_for(256), 254_000);
}

#[test]
fn compute_file_threshold() {
    assert!(compute_file_ok(32, 31_000));
    assert!(compute_file_ok(32, 40_000));
    assert!(!compute_file_ok(32, 30_999));
}

#[test]
fn reserves_file_needs_exact_count_and_no_blank() {
    assert_eq!(RESERVES_FILE_LINES, 2003);
    assert!(reserves_file_ok(2003, 0));
    assert!(!reserves_file_ok(2002, 0));
    assert!(!reserves_file_ok(2004, 0));
    assert!(!reserves_file_ok(2003, 1));
}

#[test]
fn count_lines_like_bufread() {
    assert_eq!(count_lines(""), (0, 0));
    assert_eq!(count_lines("a"), (1, 0));
    assert_eq!(count_lines("a\n"), (1, 0));
    assert_eq!(count_lines("a\nb"), (2, 0));
    assert_eq!(count_lines("a\n\n"), (2, 1));
    assert_eq!(count_lines("\n"), (1, 1));
    assert_eq!(count_lines("a\r\nb\r\n"), (2, 0));
    assert_eq!(count_lines("  \t\r\nx\n \u{3000}\u{a0}\n"), (3, 2));
    assert_eq!(count_lines("header\n1,2\n\n3,4"), (4, 1));
}

#[test]
fn count_lines_agrees_with_std_on_samples() {
    let samples = ["", "x", "x\n", "\n\n\n", " \n\t\n", "a\n \nb\n", "é\n\u{2003}\n", "\r\n", "a\u{85}\nb"];
    for text in samples {
        let total = text.lines().count();
        let blank = text.lines().filter(|l| l.trim().is_empty()).count();
        assert_eq!(count_lines(text), (total, blank), "text = {:?}", text);
    }
}

#[test]
fn white_space_matches_std() {
    for u in 0u32..0x3100 {
        if let Some(c) = char::from_u32(u) {
            assert_eq!(white_space(c), c.is_whitespace(), "char {:#x}", u);
        }
    }
    assert!(!white_space('a'));
    assert!(!white_space('\u{10ffff}'));
}

#[test]
fn derive_compute_csv_path_replaces_extension() {
    assert_eq!(derive_compute_csv_path("out.csv", "_compute"), "out_compute.csv");
    assert_eq!(derive_compute_csv_path("out", "_compute"), "out_compute.csv");
    assert_eq!(derive_compute_csv_path("dir/seed_42.csv", "_x"), "dir/seed_42_x.csv");
    assert_eq!(derive_compute_csv_path("é.csv", ""), "é.csv");
    assert_eq!(derive_compute_csv_path("a.txt", "_b"), "a.txt_b.csv");
    assert_eq!(derive_compute_csv_path(".csv", "x"), "x.csv");
    assert_eq!(derive_compute_csv_path("csv", "x"), "csvx.csv");
}

#[test]
fn flush_every_thousand_slots() {
    assert_eq!(FLUSH_INTERVAL_SLOTS, 1000);
    assert!(!is_flush_slot(1));
    assert!(!is_flush_slot(999));
    assert!(is_flush_slot(1000));
    assert!(is_flush_slot(2000));
    assert!(!is_flush_slot(2001));
}
