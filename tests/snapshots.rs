use memstat::stats::{
    get_memory_stats, native_stats, pseudo_file_stats, report_field, subprocess_stats,
    unsupported_stats, MemoryStats, NativeMemoryStatus, PlatformReading, ReportFormat,
    UsedPercent,
};
use memstat::timestamp::is_utc_millis_text;

fn lines(text: &[&str]) -> Vec<Vec<char>> {
    text.iter().map(|l| l.chars().collect()).collect()
}

fn text(lines: &[&str]) -> Vec<char> {
    let mut t = lines.join("\n");
    t.push('\n');
    t.chars().collect()
}

fn chars(s: &str) -> Vec<char> {
    s.chars().collect()
}

fn meminfo() -> Vec<Vec<char>> {
    lines(&[
        "MemTotal:       16000 kB",
        "MemFree:         4000 kB",
        "MemAvailable:    9000 kB",
        "Buffers:         1000 kB",
        "Cached:          3000 kB",
        "SwapCached:         0 kB",
        "HugePages_Total:    0",
    ])
}

fn assert_in_range(s: &MemoryStats) {
    assert!(s.used_percent.part <= s.used_percent.whole);
    if s.total == 0 {
        assert_eq!(s.used_percent.part, 0);
    }
    assert!(is_utc_millis_text(&s.timestamp));
}

#[test]
fn pseudo_file_converts_kibibytes() {
    let s = pseudo_file_stats(&meminfo(), "t".to_string());
    assert_eq!(s.total, 16000 * 1024);
    assert_eq!(s.free, 4000 * 1024);
    assert_eq!(s.available, 9000 * 1024);
    assert_eq!(s.buffers, Some(1000 * 1024));
    assert_eq!(s.cached, Some(3000 * 1024));
    assert_eq!(s.used, 8000 * 1024);
    assert_eq!(s.used_percent, UsedPercent { part: 8000 * 1024, whole: 16000 * 1024 });
    assert_eq!(s.timestamp, "t");
}

#[test]
fn pseudo_file_value_without_unit_is_verbatim() {
    let l = lines(&["HugePages_Total:    7", "Hugepagesize:  2048 KB"]);
    assert_eq!(report_field(ReportFormat::Table, &l, &chars("HugePages_Total")), Some(7));
    assert_eq!(report_field(ReportFormat::Table, &l, &chars("Hugepagesize")), Some(2048 * 1024));
    assert_eq!(report_field(ReportFormat::Table, &l, &chars("Missing")), None);
}

#[test]
fn pseudo_file_available_falls_back_to_free() {
    let l = lines(&["MemTotal: 100", "MemFree: 40"]);
    let s = pseudo_file_stats(&l, "t".to_string());
    assert_eq!(s.available, 40);
    assert_eq!(s.used, 60);
    assert_eq!(s.buffers, None);
    assert_eq!(s.cached, None);
}

#[test]
fn pseudo_file_used_clamps_at_zero() {
    let l = lines(&["MemTotal: 100", "MemFree: 40", "Buffers: 50", "Cached: 50"]);
    let s = pseudo_file_stats(&l, "t".to_string());
    assert_eq!(s.used, 0);
    assert_eq!(s.used_percent.part, 0);
}

#[test]
fn pseudo_file_later_line_wins_and_bad_lines_skip() {
    let l = lines(&[
        "MemTotal: 100",
        "MemTotal: 200",
        "MemFree: 10: 20",
        "MemFree abc",
        "MemFree: x kB",
        "  MemFree  :  +30  ",
        "Cached: 18446744073709551615 kB",
    ]);
    assert_eq!(report_field(ReportFormat::Table, &l, &chars("MemTotal")), Some(200));
    assert_eq!(report_field(ReportFormat::Table, &l, &chars("MemFree")), Some(30));
    assert_eq!(report_field(ReportFormat::Table, &l, &chars("Cached")), None);
}

#[test]
fn pseudo_file_empty_gives_zeros() {
    let s = pseudo_file_stats(&Vec::new(), "t".to_string());
    assert_eq!(s.total, 0);
    assert_eq!(s.free, 0);
    assert_eq!(s.available, 0);
    assert_eq!(s.used, 0);
    assert_eq!(s.used_percent, UsedPercent { part: 0, whole: 0 });
}

#[test]
fn subprocess_pair_counts_pages() {
    let total = chars("  17179869184\n");
    let pages = text(&[
        "Mach Virtual Memory Statistics: (page size of 4096 bytes)",
        "Pages free:                               1000.",
        "Pages active:                             2000.",
        "Pages inactive:                            500.",
        "Pages speculative:                         100.",
    ]);
    let s = subprocess_stats(&total, &pages, "t".to_string());
    assert_eq!(s.total, 17179869184);
    assert_eq!(s.free, 1000 * 4096);
    assert_eq!(s.available, 1500 * 4096);
    assert_eq!(s.used, 17179869184 - 1500 * 4096);
    assert_eq!(s.buffers, None);
    assert_eq!(s.cached, None);
}

#[test]
fn subprocess_pair_bad_total_is_zero() {
    let s = subprocess_stats(&chars("n/a"), &Vec::new(), "t".to_string());
    assert_eq!(s.total, 0);
    assert_eq!(s.used, 0);
    assert_eq!(s.used_percent, UsedPercent { part: 0, whole: 0 });
}

#[test]
fn native_call_uses_reported_load() {
    let st = NativeMemoryStatus { succeeded: true, memory_load: 42, total_phys: 1000, avail_phys: 600 };
    let s = native_stats(st, "t".to_string());
    assert_eq!(s.total, 1000);
    assert_eq!(s.free, 600);
    assert_eq!(s.available, 600);
    assert_eq!(s.used, 400);
    assert_eq!(s.used_percent, UsedPercent { part: 42, whole: 100 });
}

#[test]
fn native_call_clamps_load() {
    let st = NativeMemoryStatus { succeeded: true, memory_load: 150, total_phys: 1000, avail_phys: 2000 };
    let s = native_stats(st, "t".to_string());
    assert_eq!(s.used, 0);
    assert_eq!(s.used_percent, UsedPercent { part: 100, whole: 100 });
}

#[test]
fn native_call_failure_gives_zeros() {
    let st = NativeMemoryStatus { succeeded: false, memory_load: 42, total_phys: 1000, avail_phys: 600 };
    let s = native_stats(st, "t".to_string());
    assert_eq!(s.total, 0);
    assert_eq!(s.available, 0);
    assert_eq!(s.used_percent, UsedPercent { part: 0, whole: 0 });
}

#[test]
fn unsupported_gives_zeros() {
    let s = unsupported_stats("t".to_string());
    assert_eq!((s.total, s.free, s.available, s.used), (0, 0, 0, 0));
    assert_eq!(s.buffers, None);
    assert_eq!(s.cached, None);
}

#[test]
fn every_backend_keeps_share_in_range() {
    let clock = Some((1_700_000_000u64, 123u32));
    let readings = vec![
        PlatformReading::PseudoFile { lines: meminfo() },
        PlatformReading::PseudoFile { lines: lines(&["MemFree: 5"]) },
        PlatformReading::SubprocessPair { total_report: chars("8192"), page_report: chars("Pages free: 1.\r\n") },
        PlatformReading::NativeCall {
            status: NativeMemoryStatus { succeeded: true, memory_load: 77, total_phys: 0, avail_phys: 0 },
        },
        PlatformReading::Unsupported,
    ];
    for r in &readings {
        let s = get_memory_stats(r, clock);
        assert_in_range(&s);
        assert_eq!(s.timestamp, "2023-11-14T22:13:20.123Z");
    }
}

#[test]
fn dispatch_matches_backend() {
    let s = get_memory_stats(&PlatformReading::PseudoFile { lines: meminfo() }, None);
    assert_eq!(s.total, 16000 * 1024);
    assert_eq!(s.used, 8000 * 1024);
    assert_eq!(s.timestamp, "1970-01-01T00:00:00.000Z");
}

#[test]
fn pseudo_file_skips_unicode_whitespace() {
    let l = lines(&["MemTotal:\u{a0}1", "MemFree:\u{3000}2\u{2003}kB", "\u{85}Cached\u{a0}: 3 \u{212a}B"]);
    let s = pseudo_file_stats(&l, "t".to_string());
    assert_eq!(s.total, 1);
    assert_eq!(s.free, 2048);
    assert_eq!(s.cached, Some(3072));
}

#[test]
fn subprocess_total_skips_unicode_whitespace() {
    let s = subprocess_stats(&chars("\u{a0}1"), &chars("Pages free:\u{a0}0.\u{2028}"), "t".to_string());
    assert_eq!(s.total, 1);
    assert_eq!(s.free, 0);
    assert_eq!(s.used, 1);
}
