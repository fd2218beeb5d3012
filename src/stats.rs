//! Memory snapshots and the backends that build them from what each kind of
//! host reports.
use vstd::prelude::*;
use crate::report::{
    colon_of, has_sole_colon, key_of, lines_of, parse_u64, read_u64, skip_ws, skip_ws_from, spells,
    spells_key, split_key, split_lines, trim_back, trim_back_to, trim_dots, trim_dots_to, word_end,
    word_end_from,
};
use crate::timestamp::{clock_rendering, format_timestamp, is_utc_millis, settled};

verus! {

/// Bytes in one page of the page-count report.
pub const PAGE_SIZE: u64 = 4096;

/// Bytes in one kibibyte.
pub const KIB: u64 = 1024;

/// A share of memory in use, as `100 * part / whole` percent; zero when
/// `whole` is zero.
#[derive(Clone, Copy, Debug, PartialEq, Eq)]
pub struct UsedPercent {
    pub part: u64,
    pub whole: u64,
}

impl UsedPercent {
    /// The share lies in `[0, 100]` percent: `part <= whole`.
    pub open spec fn in_range(self) -> bool {
        self.part <= self.whole
    }

    /// The share is zero percent.
    pub open spec fn is_zero(self) -> bool {
        self.part == 0
    }
}

/// A point-in-time view of physical memory, in bytes.
#[derive(Debug)]
pub struct MemoryStats {
    pub total: u64,
    pub free: u64,
    pub available: u64,
    pub used: u64,
    pub used_percent: UsedPercent,
    pub buffers: Option<u64>,
    pub cached: Option<u64>,
    pub timestamp: String,
}

/// `a - b`, or zero where `b` exceeds `a`.
pub open spec fn clamped_sub(a: int, b: int) -> int {
    if a > b {
        a - b
    } else {
        0
    }
}

/// `a + b`, or `u64::MAX` where the sum does not fit.
pub open spec fn capped_add(a: int, b: int) -> int {
    if a + b > u64::MAX {
        u64::MAX as int
    } else {
        a + b
    }
}

pub open spec fn or_zero(v: Option<u64>) -> u64 {
    match v {
        Some(x) => x,
        None => 0,
    }
}

/// `used / total`, with nothing in use out of nothing.
pub open spec fn share_of(used: u64, total: u64) -> UsedPercent {
    if total == 0 {
        UsedPercent { part: 0, whole: 0 }
    } else {
        UsedPercent { part: used, whole: total }
    }
}

/// The two line formats of `key: value` reports.
#[derive(Clone, Copy, Debug, PartialEq, Eq)]
pub enum ReportFormat {
    /// `Key:  value [kB]`, a value in bytes or, with `kB`, in kibibytes.
    Table,
    /// `Key:  count.`, a count of pages.
    PageCounts,
}

/// The value of a line of a report in `format`, in bytes.
pub open spec fn entry_of(format: ReportFormat, line: Seq<char>) -> Option<(Seq<char>, u64)> {
    match format {
        ReportFormat::Table => table_entry(line),
        ReportFormat::PageCounts => page_entry(line),
    }
}

/// The value of a page-count line in bytes: the text after the colon,
/// trimmed and stripped of trailing dots, read as a `u64` count of pages;
/// none where the line has no sole colon, that text is no `u64`, or the
/// product does not fit.
pub open spec fn page_entry(line: Seq<char>) -> Option<(Seq<char>, u64)> {
    if has_sole_colon(line) {
        let t = skip_ws(line, colon_of(line) + 1);
        let e = trim_dots(line, t, trim_back(line, t, line.len() as int));
        match parse_u64(line, t, e) {
            Some(v) => if v * 4096 <= u64::MAX {
                Some((key_of(line), (v * 4096) as u64))
            } else {
                None
            },
            None => None,
        }
    } else {
        None
    }
}

/// The value of a table line, converted to bytes where its unit lowercases
/// to `kb`; none where the line has no sole colon, its first word
/// after the colon is no `u64`, or the converted value does not fit.
pub open spec fn table_entry(line: Seq<char>) -> Option<(Seq<char>, u64)> {
    if has_sole_colon(line) {
        let t1 = skip_ws(line, colon_of(line) + 1);
        let e1 = word_end(line, t1);
        match parse_u64(line, t1, e1) {
            Some(v) => {
                let t2 = skip_ws(line, e1);
                let e2 = word_end(line, t2);
                if is_kb(line, t2, e2) {
                    if v * 1024 <= u64::MAX {
                        Some((key_of(line), (v * 1024) as u64))
                    } else {
                        None
                    }
                } else {
                    Some((key_of(line), v))
                }
            },
            None => None,
        }
    } else {
        None
    }
}

/// `line[lo..hi]` lowercases to `kb`: `k`, `K` or the Kelvin sign, then
/// `b` or `B`.
pub open spec fn is_kb(line: Seq<char>, lo: int, hi: int) -> bool {
    &&& hi == lo + 2
    &&& (line[lo] == 'k' || line[lo] == 'K' || line[lo] == '\u{212a}')
    &&& (line[lo + 1] == 'b' || line[lo + 1] == 'B')
}

/// The value of the last of the first `n` lines whose key is `key`.
pub open spec fn report_lookup(
    format: ReportFormat,
    lines: Seq<Seq<char>>,
    key: Seq<char>,
    n: int,
) -> Option<u64>
    decreases n,
{
    if n <= 0 {
        None
    } else {
        match entry_of(format, lines[n - 1]) {
            Some((k, v)) => if spells(k, key) {
                Some(v)
            } else {
                report_lookup(format, lines, key, n - 1)
            },
            None => report_lookup(format, lines, key, n - 1),
        }
    }
}

/// The value that a report gives `key`: that of its last line with that key.
pub open spec fn report_value(format: ReportFormat, lines: Seq<Seq<char>>, key: Seq<char>) -> Option<
    u64,
> {
    report_lookup(format, lines, key, lines.len() as int)
}

/// Reads one table line: the bounds of its key and its value in bytes.
pub fn read_table_line(line: &Vec<char>) -> (r: Option<(usize, usize, u64)>)
    ensures
        match table_entry(line@) {
            Some((k, v)) => r matches Some((ks, ke, w)) && ks <= ke <= line@.len()
                && line@.subrange(ks as int, ke as int) == k && w == v,
            None => r is None,
        },
{
    let (ks, ke, c) = match split_key(line) {
        Some(x) => x,
        None => return None,
    };
    let n = line.len();
    assert(c < n);
    let t1 = skip_ws_from(line, c + 1);
    let e1 = word_end_from(line, t1);
    let v = match read_u64(line, t1, e1) {
        Some(v) => v,
        None => return None,
    };
    let t2 = skip_ws_from(line, e1);
    let e2 = word_end_from(line, t2);
    if e2 - t2 == 2 && (line[t2] == 'k' || line[t2] == 'K' || line[t2] == '\u{212a}') && (
    line[t2 + 1] == 'b' || line[t2 + 1] == 'B') {
        match v.checked_mul(KIB) {
            Some(b) => Some((ks, ke, b)),
            None => None,
        }
    } else {
        Some((ks, ke, v))
    }
}

/// Reads one page-count line: the bounds of its key and its value in bytes.
pub fn read_page_line(line: &Vec<char>) -> (r: Option<(usize, usize, u64)>)
    ensures
        match page_entry(line@) {
            Some((k, v)) => r matches Some((ks, ke, w)) && ks <= ke <= line@.len()
                && line@.subrange(ks as int, ke as int) == k && w == v,
            None => r is None,
        },
{
    let (ks, ke, c) = match split_key(line) {
        Some(x) => x,
        None => return None,
    };
    let n = line.len();
    assert(c < n);
    let t = skip_ws_from(line, c + 1);
    let e = trim_dots_to(line, t, trim_back_to(line, t, n));
    match read_u64(line, t, e) {
        Some(v) => match v.checked_mul(PAGE_SIZE) {
            Some(b) => Some((ks, ke, b)),
            None => None,
        },
        None => None,
    }
}

/// Reads one line of a report in `format`.
pub fn read_report_line(format: ReportFormat, line: &Vec<char>) -> (r: Option<(usize, usize, u64)>)
    ensures
        match entry_of(format, line@) {
            Some((k, v)) => r matches Some((ks, ke, w)) && ks <= ke <= line@.len()
                && line@.subrange(ks as int, ke as int) == k && w == v,
            None => r is None,
        },
{
    match format {
        ReportFormat::Table => read_table_line(line),
        ReportFormat::PageCounts => read_page_line(line),
    }
}

/// The value that the report `lines`, in `format`, gives `key`.
pub fn report_field(format: ReportFormat, lines: &Vec<Vec<char>>, key: &Vec<char>) -> (r: Option<u64>)
    ensures
        r == report_value(format, lines@.map_values(|v: Vec<char>| v@), key@),
{
    let mut found: Option<u64> = None;
    let mut i: usize = 0;
    while i < lines.len()
        invariant
            i <= lines@.len(),
            found == report_lookup(format, lines@.map_values(|v: Vec<char>| v@), key@, i as int),
        decreases lines@.len() - i,
    {
        match read_report_line(format, &lines[i]) {
            Some((ks, ke, v)) => {
                if spells_key(&lines[i], ks, ke, key) {
                    found = Some(v);
                }
            },
            None => {},
        }
        i += 1;
    }
    found
}

/// A single `u64` report (total memory in bytes), surrounding whitespace
/// allowed; zero where it is no `u64`.
pub open spec fn total_of(out: Seq<char>) -> u64 {
    let t = skip_ws(out, 0);
    or_zero(parse_u64(out, t, trim_back(out, t, out.len() as int)))
}

/// What the native memory-status call reported.
#[derive(Clone, Copy, Debug, PartialEq, Eq)]
pub struct NativeMemoryStatus {
    /// The call reported success.
    pub succeeded: bool,
    /// The host's own percentage of physical memory in use.
    pub memory_load: u32,
    pub total_phys: u64,
    pub avail_phys: u64,
}

/// What one host reported, by backend.
#[derive(Debug)]
pub enum PlatformReading {
    /// The lines of a `Key:  value [kB]` pseudo-file.
    PseudoFile { lines: Vec<Vec<char>> },
    /// The outputs of the total-memory tool and of the page-count tool.
    SubprocessPair { total_report: Vec<char>, page_report: Vec<char> },
    /// The result of the native memory-status call.
    NativeCall { status: NativeMemoryStatus },
    /// No backend serves this host.
    Unsupported,
}

/// The fields of `r` other than the timestamp are those of a table report.
pub open spec fn pseudo_file_snapshot(lines: Seq<Seq<char>>, r: MemoryStats) -> bool {
    let total = or_zero(report_value(ReportFormat::Table, lines, "MemTotal"@));
    let free = or_zero(report_value(ReportFormat::Table, lines, "MemFree"@));
    let buffers = report_value(ReportFormat::Table, lines, "Buffers"@);
    let cached = report_value(ReportFormat::Table, lines, "Cached"@);
    let used = match (buffers, cached) {
        (Some(b), Some(c)) => clamped_sub(total as int, free + b + c),
        _ => clamped_sub(total as int, free as int),
    };
    &&& r.total == total
    &&& r.free == free
    &&& r.available == match report_value(ReportFormat::Table, lines, "MemAvailable"@) {
        Some(a) => a,
        None => free,
    }
    &&& r.buffers == buffers
    &&& r.cached == cached
    &&& r.used == used
    &&& r.used_percent == share_of(r.used, total)
}

/// The fields of `r` other than the timestamp are those of the two tool reports.
pub open spec fn subprocess_snapshot(total_report: Seq<char>, page_text: Seq<char>, r: MemoryStats) -> bool {
    let page_report = lines_of(page_text);
    let total = total_of(total_report);
    let free = or_zero(report_value(ReportFormat::PageCounts, page_report, "Pages free"@));
    let inactive = or_zero(report_value(ReportFormat::PageCounts, page_report, "Pages inactive"@));
    let available = capped_add(free as int, inactive as int);
    &&& r.total == total
    &&& r.free == free
    &&& r.available == available
    &&& r.used == clamped_sub(total as int, available)
    &&& r.used_percent == share_of(r.used, total)
    &&& r.buffers is None
    &&& r.cached is None
}

/// The fields of `r` other than the timestamp are those of the native call:
/// all zero where it failed; else free memory is the available memory and
/// the share in use is the host's own load, at most 100.
pub open spec fn native_snapshot(status: NativeMemoryStatus, r: MemoryStats) -> bool {
    if status.succeeded {
        &&& r.total == status.total_phys
        &&& r.available == status.avail_phys
        &&& r.free == status.avail_phys
        &&& r.used == clamped_sub(status.total_phys as int, status.avail_phys as int)
        &&& r.used_percent == (if status.total_phys == 0 {
            UsedPercent { part: 0, whole: 0 }
        } else if status.memory_load <= 100 {
            UsedPercent { part: status.memory_load as u64, whole: 100 }
        } else {
            UsedPercent { part: 100, whole: 100 }
        })
        &&& r.buffers is None
        &&& r.cached is None
    } else {
        zero_snapshot(r)
    }
}

/// Every field of `r` but the timestamp is zero or absent.
pub open spec fn zero_snapshot(r: MemoryStats) -> bool {
    &&& r.total == 0
    &&& r.free == 0
    &&& r.available == 0
    &&& r.used == 0
    &&& r.used_percent == (UsedPercent { part: 0, whole: 0 })
    &&& r.buffers is None
    &&& r.cached is None
}

/// The fields of `r` other than the timestamp are what `reading` gives.
pub open spec fn snapshot_of(reading: PlatformReading, r: MemoryStats) -> bool {
    match reading {
        PlatformReading::PseudoFile { lines } => pseudo_file_snapshot(
            lines@.map_values(|v: Vec<char>| v@),
            r,
        ),
        PlatformReading::SubprocessPair { total_report, page_report } => subprocess_snapshot(
            total_report@,
            page_report@,
            r,
        ),
        PlatformReading::NativeCall { status } => native_snapshot(status, r),
        PlatformReading::Unsupported => zero_snapshot(r),
    }
}

/// What holds of every snapshot: the share in use lies in `[0, 100]`
/// percent, is zero where total memory is, and the capture time has the
/// `YYYY-MM-DDTHH:MM:SS.mmmZ` shape.
pub open spec fn well_formed(r: MemoryStats) -> bool {
    &&& r.used_percent.in_range()
    &&& r.total == 0 ==> r.used_percent.is_zero()
    &&& is_utc_millis(r.timestamp@)
}

fn clamp_sub(a: u64, b: u64) -> (r: u64)
    ensures
        r == clamped_sub(a as int, b as int),
{
    if a > b {
        a - b
    } else {
        0
    }
}

fn share(used: u64, total: u64) -> (r: UsedPercent)
    ensures
        r == share_of(used, total),
{
    if total == 0 {
        UsedPercent { part: 0, whole: 0 }
    } else {
        UsedPercent { part: used, whole: total }
    }
}

/// The snapshot of a `Key:  value [kB]` table: total, free, buffers and
/// cached by key; available by key, or free where it is missing; used is
/// total less free, buffers and cached (less free alone where either of
/// those is missing), clamped at zero; missing numbers count as zero.
pub fn pseudo_file_stats(lines: &Vec<Vec<char>>, timestamp: String) -> (r: MemoryStats)
    ensures
        pseudo_file_snapshot(lines@.map_values(|v: Vec<char>| v@), r),
        r.used_percent.in_range(),
        r.total == 0 ==> r.used_percent.is_zero(),
        r.timestamp == timestamp,
{
    let key_memtotal = vec!['M', 'e', 'm', 'T', 'o', 't', 'a', 'l'];
    let key_memfree = vec!['M', 'e', 'm', 'F', 'r', 'e', 'e'];
    let key_memavailable = vec!['M', 'e', 'm', 'A', 'v', 'a', 'i', 'l', 'a', 'b', 'l', 'e'];
    let key_buffers = vec!['B', 'u', 'f', 'f', 'e', 'r', 's'];
    let key_cached = vec!['C', 'a', 'c', 'h', 'e', 'd'];
    proof {
        reveal_strlit("MemTotal");
        reveal_strlit("MemFree");
        reveal_strlit("MemAvailable");
        reveal_strlit("Buffers");
        reveal_strlit("Cached");
        assert(key_memtotal@ =~= "MemTotal"@);
        assert(key_memfree@ =~= "MemFree"@);
        assert(key_memavailable@ =~= "MemAvailable"@);
        assert(key_buffers@ =~= "Buffers"@);
        assert(key_cached@ =~= "Cached"@);
    }
    let total = match report_field(ReportFormat::Table, lines, &key_memtotal) {
        Some(v) => v,
        None => 0,
    };
    let free = match report_field(ReportFormat::Table, lines, &key_memfree) {
        Some(v) => v,
        None => 0,
    };
    let available = match report_field(ReportFormat::Table, lines, &key_memavailable) {
        Some(v) => v,
        None => free,
    };
    let buffers = report_field(ReportFormat::Table, lines, &key_buffers);
    let cached = report_field(ReportFormat::Table, lines, &key_cached);
    let used = match (buffers, cached) {
        (Some(b), Some(c)) => clamp_sub(clamp_sub(clamp_sub(total, free), b), c),
        _ => clamp_sub(total, free),
    };
    MemoryStats {
        total,
        free,
        available,
        used,
        used_percent: share(used, total),
        buffers,
        cached,
        timestamp,
    }
}

/// The snapshot of the two tool reports: total from the first; free and
/// inactive page counts from the second; available is their sum, used is
/// total less available, clamped at zero.
pub fn subprocess_stats(total_report: &Vec<char>, page_text: &Vec<char>, timestamp: String) -> (r: MemoryStats)
    ensures
        subprocess_snapshot(total_report@, page_text@, r),
        r.used_percent.in_range(),
        r.total == 0 ==> r.used_percent.is_zero(),
        r.timestamp == timestamp,
{
    let key_pages_free = vec!['P', 'a', 'g', 'e', 's', ' ', 'f', 'r', 'e', 'e'];
    let key_pages_inactive = vec!['P', 'a', 'g', 'e', 's', ' ', 'i', 'n', 'a', 'c', 't', 'i', 'v', 'e'];
    proof {
        reveal_strlit("Pages free");
        reveal_strlit("Pages inactive");
        assert(key_pages_free@ =~= "Pages free"@);
        assert(key_pages_inactive@ =~= "Pages inactive"@);
    }
    let page_report = &split_lines(page_text);
    let t = skip_ws_from(total_report, 0);
    let total = match read_u64(total_report, t, trim_back_to(total_report, t, total_report.len())) {
        Some(v) => v,
        None => 0,
    };
    let free = match report_field(ReportFormat::PageCounts, page_report, &key_pages_free) {
        Some(v) => v,
        None => 0,
    };
    let inactive = match report_field(ReportFormat::PageCounts, page_report, &key_pages_inactive) {
        Some(v) => v,
        None => 0,
    };
    let available = free.saturating_add(inactive);
    let used = clamp_sub(total, available);
    MemoryStats {
        total,
        free,
        available,
        used,
        used_percent: share(used, total),
        buffers: None,
        cached: None,
        timestamp,
    }
}

/// The snapshot of what the native memory-status call reported.
pub fn native_stats(status: NativeMemoryStatus, timestamp: String) -> (r: MemoryStats)
    ensures
        native_snapshot(status, r),
        r.used_percent.in_range(),
        r.total == 0 ==> r.used_percent.is_zero(),
        r.timestamp == timestamp,
{
    if !status.succeeded {
        return unsupported_stats(timestamp);
    }
    let total = status.total_phys;
    let available = status.avail_phys;
    let used_percent = if total == 0 {
        UsedPercent { part: 0, whole: 0 }
    } else if status.memory_load <= 100 {
        UsedPercent { part: status.memory_load as u64, whole: 100 }
    } else {
        UsedPercent { part: 100, whole: 100 }
    };
    MemoryStats {
        total,
        free: available,
        available,
        used: clamp_sub(total, available),
        used_percent,
        buffers: None,
        cached: None,
        timestamp,
    }
}

/// The all-zero snapshot of a host that no backend serves.
pub fn unsupported_stats(timestamp: String) -> (r: MemoryStats)
    ensures
        zero_snapshot(r),
        r.used_percent.in_range(),
        r.total == 0 ==> r.used_percent.is_zero(),
        r.timestamp == timestamp,
{
    MemoryStats {
        total: 0,
        free: 0,
        available: 0,
        used: 0,
        used_percent: UsedPercent { part: 0, whole: 0 },
        buffers: None,
        cached: None,
        timestamp,
    }
}

/// The snapshot of what a host reported, captured at `since_epoch`
/// (seconds and milliseconds after the Unix epoch; none for a clock before
/// it). Never fails: missing data degrade to zero or absent fields.
pub fn get_memory_stats(reading: &PlatformReading, since_epoch: Option<(u64, u32)>) -> (r: MemoryStats)
    requires
        since_epoch matches Some((_, m)) ==> m < 1000,
    ensures
        snapshot_of(*reading, r),
        well_formed(r),
        r.timestamp@ == settled(clock_rendering(since_epoch)),
{
    let timestamp = format_timestamp(since_epoch);
    match reading {
        PlatformReading::PseudoFile { lines } => pseudo_file_stats(lines, timestamp),
        PlatformReading::SubprocessPair { total_report, page_report } => subprocess_stats(
            total_report,
            page_report,
            timestamp,
        ),
        PlatformReading::NativeCall { status } => native_stats(*status, timestamp),
        PlatformReading::Unsupported => unsupported_stats(timestamp),
    }
}

} // verus!
