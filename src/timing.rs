use vstd::prelude::*;

verus! {

/// Largest transfer, in bytes, that one engine operation handles.
pub const MAX_BUFFER_SIZE: usize = 32768;

/// Bytes in one cipher block.
pub const AES_BLOCK_SIZE: usize = 16;

/// Operations timed together for each size of a throughput sweep.
pub const AES_ITERATIONS: u64 = 100;

/// Size of the discarded operation that precedes every sweep.
pub const WARMUP_SIZE: usize = 64;

/// Period of the idle heartbeat once every benchmark is done.
pub const HEARTBEAT_MICROS: u64 = 500000;

/// Microseconds in one second.
pub const MICROS_PER_SECOND: u64 = 1000000;

/// The size actually processed for a requested size.
pub open spec fn clamp_spec(size: int) -> int {
    if size <= MAX_BUFFER_SIZE as int {
        size
    } else {
        MAX_BUFFER_SIZE as int
    }
}

/// Bytes per second moved by `iterations` operations of `size` bytes in
/// `elapsed_us` microseconds, rounded down.
pub open spec fn throughput_spec(iterations: int, size: int, elapsed_us: int) -> int
    recommends
        elapsed_us > 0,
{
    (iterations * size * MICROS_PER_SECOND as int) / elapsed_us
}

/// The requested size limited to the largest buffer: `min(size, MAX_BUFFER_SIZE)`.
pub fn clamp_size(size: usize) -> (r: usize)
    ensures
        r as int == clamp_spec(size as int),
        r <= MAX_BUFFER_SIZE,
        r <= size,
{
    if size <= MAX_BUFFER_SIZE {
        size
    } else {
        MAX_BUFFER_SIZE
    }
}

/// Number of whole cipher blocks in the clamped size.
pub fn aes_block_count(size: usize) -> (r: usize)
    ensures
        r as int == clamp_spec(size as int) / AES_BLOCK_SIZE as int,
{
    clamp_size(size) / AES_BLOCK_SIZE
}

/// Time between two readings of a monotonic microsecond clock.
pub fn elapsed_micros(start_us: u64, end_us: u64) -> (r: u64)
    requires
        start_us <= end_us,
    ensures
        r == end_us - start_us,
{
    end_us - start_us
}

/// Whether a heartbeat period has passed since `start_us`.
pub fn heartbeat_due(start_us: u64, now_us: u64) -> (r: bool)
    requires
        start_us <= now_us,
    ensures
        r == (now_us - start_us >= HEARTBEAT_MICROS),
{
    elapsed_micros(start_us, now_us) >= HEARTBEAT_MICROS
}

/// A quotient of a number beyond `u128` by a divisor within `u64` is beyond `u64`.
proof fn lemma_wide_quotient(a: int, e: int)
    requires
        a > u128::MAX as int,
        0 < e <= u64::MAX as int,
    ensures
        a / e > u64::MAX as int,
{
    let q = a / e;
    assert(a == q * e + a % e) by (nonlinear_arith)
        requires e > 0, q == a / e;
    assert(0 <= a % e < e) by (nonlinear_arith)
        requires e > 0;
    if q <= u64::MAX as int {
        assert(q * e <= (u64::MAX as int) * e) by (nonlinear_arith)
            requires q <= u64::MAX as int, e > 0;
        assert((u64::MAX as int) * e <= (u64::MAX as int) * (u64::MAX as int)) by (nonlinear_arith)
            requires e <= u64::MAX as int;
        assert((u64::MAX as int) * (u64::MAX as int) + (u64::MAX as int) <= u128::MAX as int);
    }
}

/// Throughput in bytes per second of `iterations` operations on `size`
/// bytes each that took `elapsed_us` microseconds in all, rounded down.
/// There is none when no time elapsed or when it does not fit in a `u64`.
pub fn throughput_bytes_per_sec(iterations: u64, size: usize, elapsed_us: u64) -> (r: Option<u64>)
    ensures
        r is None <==> (elapsed_us == 0 || throughput_spec(
            iterations as int,
            size as int,
            elapsed_us as int,
        ) > u64::MAX as int),
        r matches Some(t) ==> t as int == throughput_spec(
            iterations as int,
            size as int,
            elapsed_us as int,
        ),
{
    if elapsed_us == 0 {
        return None;
    }
    let it: u128 = iterations as u128;
    let sz: u128 = size as u128;
    assert(it * sz <= (u64::MAX as int) * (u64::MAX as int)) by (nonlinear_arith)
        requires it <= u64::MAX as int, sz <= u64::MAX as int, it >= 0, sz >= 0;
    assert((u64::MAX as int) * (u64::MAX as int) <= u128::MAX as int);
    let bytes: u128 = it * sz;
    match bytes.checked_mul(MICROS_PER_SECOND as u128) {
        None => {
            proof {
                lemma_wide_quotient(bytes * MICROS_PER_SECOND as int, elapsed_us as int);
            }
            None
        },
        Some(scaled) => {
            let q: u128 = scaled / (elapsed_us as u128);
            if q > u64::MAX as u128 {
                None
            } else {
                Some(q as u64)
            }
        },
    }
}

} // verus!
