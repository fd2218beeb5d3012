//! The allocate/touch/free pattern that leaves an allocator's free list
//! fragmented, and the fixed cost of the placeholder compaction pass.
use vstd::prelude::*;

verus! {

/// Alignment of every block, in bytes.
pub const BLOCK_ALIGN: usize = 64;

/// At most this many leading bytes of a block are written.
pub const TOUCH_LIMIT: usize = 1024;

/// Every this many blocks the run pauses.
pub const PAUSE_EVERY: i32 = 10;

/// Length of each pause, in milliseconds.
pub const PAUSE_MS: u64 = 1;

/// Every this many blocks one is freed at once.
pub const HOLE_EVERY: i32 = 3;

/// Length of the placeholder compaction pass, in milliseconds.
pub const DEFRAGMENT_DELAY_MS: u64 = 500;

/// What to do with block `i` of a run.
#[derive(Clone, Copy, Debug, PartialEq, Eq)]
pub struct BlockStep {
    /// Bytes to allocate; none where this is zero.
    pub size: usize,
    /// Number of leading bytes to write.
    pub fill_len: usize,
    /// The byte to write there.
    pub fill_byte: u8,
    /// Keep the block in the working set until the run ends (else free it at
    /// once, leaving a hole).
    pub retain: bool,
    /// Pause after this block.
    pub pause: bool,
}

/// The block of step `i` of a run with blocks of `size` bytes.
pub open spec fn step_of(i: int, size: usize) -> BlockStep {
    BlockStep {
        size,
        fill_len: if size < 1024 { size } else { 1024 },
        fill_byte: (i % 255) as u8,
        retain: i % 3 != 0,
        pause: i % 10 == 0,
    }
}

/// The number of steps among the first `n` that pause.
pub open spec fn pauses(n: int) -> int
    decreases n,
{
    if n <= 0 {
        0
    } else {
        pauses(n - 1) + if step_of(n - 1, 0).pause { 1int } else { 0int }
    }
}

/// The number of steps among the first `n` whose block stays in the working set.
pub open spec fn retained(n: int) -> int
    decreases n,
{
    if n <= 0 {
        0
    } else {
        retained(n - 1) + if step_of(n - 1, 0).retain { 1int } else { 0int }
    }
}

/// Bytes in a block of `size_kb` kibibytes; none for a negative size or
/// one that no 64-aligned layout can have (rounded up to the alignment, it
/// would exceed `isize::MAX`).
pub fn block_size(size_kb: i32) -> (r: Option<usize>)
    ensures
        r == (if 0 <= size_kb && size_kb * 1024 <= isize::MAX - 63 {
            Some((size_kb * 1024) as usize)
        } else {
            None::<usize>
        }),
{
    if size_kb < 0 {
        return None;
    }
    let bytes = (size_kb as u64) * 1024;
    if bytes > (isize::MAX as u64) - 63 {
        None
    } else {
        Some(bytes as usize)
    }
}

/// Step `i` of a run with blocks of `size` bytes: write `i mod 255` into the
/// first `min(size, 1024)` bytes; free every third block (from the first)
/// at once and keep the others; pause after every tenth (from the first).
pub fn block_step(i: i32, size: usize) -> (r: BlockStep)
    requires
        0 <= i,
    ensures
        r == step_of(i as int, size),
{
    BlockStep {
        size,
        fill_len: if size < TOUCH_LIMIT { size } else { TOUCH_LIMIT },
        fill_byte: (i % 255) as u8,
        retain: i % HOLE_EVERY != 0,
        pause: i % PAUSE_EVERY == 0,
    }
}

/// A run of `n` blocks pauses `ceil(n / 10)` times, so it waits about
/// `ceil(n / 10)` pauses of `PAUSE_MS` in all.
pub proof fn lemma_pauses_per_run(n: nat)
    ensures
        pauses(n as int) == (n + 9) / 10,
    decreases n,
{
    if n > 0 {
        lemma_pauses_per_run((n - 1) as nat);
        assert(pauses(n as int) == pauses(n - 1) + if (n - 1) % 10 == 0 { 1int } else { 0int });
        assert((n + 9) / 10 == (n + 8) / 10 + if (n - 1) % 10 == 0 { 1int } else { 0int }) by (nonlinear_arith);
    }
}

/// A run of `n` blocks keeps `n - ceil(n / 3)` of them in its working set
/// and frees the other `ceil(n / 3)` at once.
pub proof fn lemma_retained_per_run(n: nat)
    ensures
        retained(n as int) == n - (n + 2) / 3,
    decreases n,
{
    if n > 0 {
        lemma_retained_per_run((n - 1) as nat);
        assert(retained(n as int) == retained(n - 1) + if (n - 1) % 3 != 0 { 1int } else { 0int });
        assert((n + 2) / 3 == (n + 1) / 3 + if (n - 1) % 3 == 0 { 1int } else { 0int }) by (nonlinear_arith);
    }
}

} // verus!
