use memstat::boundary::status_code;
use memstat::cache::{release_memory_cache, CacheReleaseReport};
use memstat::fragment::{block_size, block_step, BlockStep};
use memstat::report::{read_u64, split_lines};

#[test]
fn release_on_unsupported_host_fails() {
    assert!(!release_memory_cache(CacheReleaseReport::Unsupported));
}

#[test]
fn release_succeeds_if_any_action_did() {
    let pf = |sync_ok, write_ok| release_memory_cache(CacheReleaseReport::PseudoFile { sync_ok, write_ok });
    assert!(pf(true, true));
    assert!(pf(true, false));
    assert!(pf(false, true));
    assert!(!pf(false, false));
    assert!(release_memory_cache(CacheReleaseReport::Subprocess { launched: true }));
    assert!(!release_memory_cache(CacheReleaseReport::Subprocess { launched: false }));
    assert!(release_memory_cache(CacheReleaseReport::NativeCall { status: 1 }));
    assert!(release_memory_cache(CacheReleaseReport::NativeCall { status: -3 }));
    assert!(!release_memory_cache(CacheReleaseReport::NativeCall { status: 0 }));
}

#[test]
fn status_codes() {
    assert_eq!(status_code(true), 1);
    assert_eq!(status_code(false), 0);
}

#[test]
fn block_sizes() {
    assert_eq!(block_size(4), Some(4096));
    assert_eq!(block_size(0), Some(0));
    assert_eq!(block_size(-1), None);
    assert_eq!(block_size(i32::MAX), Some(i32::MAX as usize * 1024));
}

#[test]
fn block_steps() {
    assert_eq!(
        block_step(0, 4096),
        BlockStep { size: 4096, fill_len: 1024, fill_byte: 0, retain: false, pause: true }
    );
    assert_eq!(
        block_step(256, 100),
        BlockStep { size: 100, fill_len: 100, fill_byte: 1, retain: true, pause: false }
    );
    assert_eq!(block_step(254, 0).fill_byte, 254);
    assert_eq!(block_step(255, 0).fill_byte, 0);
}

#[test]
fn thirty_blocks_of_four_kib() {
    let size = block_size(4).unwrap();
    let steps: Vec<BlockStep> = (0..30).map(|i| block_step(i, size)).collect();
    assert_eq!(steps.iter().filter(|s| s.retain).count(), 20);
    assert_eq!(steps.iter().filter(|s| !s.retain).count(), 10);
    assert_eq!(steps.iter().filter(|s| s.pause).count(), 3);
    assert!(steps.iter().all(|s| s.fill_len == 1024 && s.size == 4096));
}

#[test]
fn reads_u64_text() {
    let b: Vec<char> = "x+42 18446744073709551615 18446744073709551616 -1 +".chars().collect();
    assert_eq!(read_u64(&b, 1, 4), Some(42));
    assert_eq!(read_u64(&b, 5, 25), Some(u64::MAX));
    assert_eq!(read_u64(&b, 26, 46), None);
    assert_eq!(read_u64(&b, 47, 49), None);
    assert_eq!(read_u64(&b, 50, 51), None);
    assert_eq!(read_u64(&b, 0, 0), None);
}

#[test]
fn splits_lines() {
    let v = |s: &str| split_lines(&s.chars().collect());
    let b = |s: &str| s.chars().collect::<Vec<char>>();
    assert_eq!(v("a\r\nb\n\nc"), vec![b("a"), b("b"), b(""), b("c")]);
    assert_eq!(v("a\n"), vec![b("a")]);
    assert_eq!(v("\n"), vec![b("")]);
    assert_eq!(v(""), Vec::<Vec<char>>::new());
    assert_eq!(v("x\r"), vec![b("x")]);
}
