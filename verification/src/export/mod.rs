//! Exported-frame render backend: mpv renders into a small rotation of
//! exportable buffers on a thread of its own, and the shell takes the newest
//! rendered frame whenever it wants one.

pub mod frame;
pub mod linux;
pub mod macos;
pub mod pass;
pub mod pixels;
pub mod pool;
pub mod setup;
pub mod windows;

use vstd::prelude::*;

verus! {

/// Attach-time configuration of the exported-frame backend.
///
/// Construct with [`new`](Self::new) plus the chainable setters.
#[derive(Debug, Clone, Copy)]
#[non_exhaustive]
pub struct ExportOptions {
    /// Initial frame width in pixels.
    pub width: u32,
    /// Initial frame height in pixels.
    pub height: u32,
    /// Buffers in rotation (minimum 2, default 3): one being rendered, one
    /// published, one in the shell's hands.
    pub pool_size: usize,
}

/// `n`, but no less than the two buffers a rotation needs.
pub open spec fn at_least_two(n: usize) -> usize {
    if n < 2 {
        2
    } else {
        n
    }
}

impl ExportOptions {
    /// Options for `width`×`height` frames with the default pool of 3.
    pub fn new(width: u32, height: u32) -> (r: Self)
        ensures
            r == (ExportOptions { width, height, pool_size: 3 }),
    {
        Self { width, height, pool_size: 3 }
    }

    /// Set the pool size (clamped to at least 2), chainable from
    /// [`new`](Self::new).
    #[must_use]
    pub fn pool_size(self, pool_size: usize) -> (r: Self)
        ensures
            r == (ExportOptions { pool_size: at_least_two(pool_size), ..self }),
    {
        let clamped: usize = if pool_size < 2 {
            2
        } else {
            pool_size
        };
        ExportOptions { pool_size: clamped, ..self }
    }
}

/// `width` and `height` in one word: the width in the upper half, the height
/// in the lower.
pub open spec fn packed(width: u32, height: u32) -> int {
    width * 0x1_0000_0000 + height
}

/// Both dimensions in one word, the width in the upper half.
pub fn pack_size(width: u32, height: u32) -> (r: u64)
    ensures
        r == packed(width, height),
{
    let w: u64 = width as u64;
    let h: u64 = height as u64;
    assert((w << 32) | h == w * 0x1_0000_0000 + h) by (bit_vector)
        requires
            w <= 0xffff_ffff,
            h <= 0xffff_ffff,
    ;
    (w << 32) | h
}

/// The width and height held in one word.
pub fn unpack_size(packed: u64) -> (r: (u32, u32))
    ensures
        r.0 == packed / 0x1_0000_0000,
        r.1 == packed % 0x1_0000_0000,
{
    assert((packed >> 32) == packed / 0x1_0000_0000) by (bit_vector);
    assert((packed >> 32) <= 0xffff_ffff) by (bit_vector);
    assert(#[verifier::truncate] (packed as u32) == packed % 0x1_0000_0000) by (bit_vector);
    ((packed >> 32) as u32, #[verifier::truncate] (packed as u32))
}

/// Unpacking gives back what was packed.
pub proof fn law_unpack_of_pack(width: u32, height: u32)
    ensures
        0 <= packed(width, height) <= u64::MAX,
        packed(width, height) / 0x1_0000_0000 == width,
        packed(width, height) % 0x1_0000_0000 == height,
{
}

/// Packing gives back what was unpacked.
pub proof fn law_pack_of_unpack(word: u64)
    ensures
        packed((word / 0x1_0000_0000) as u32, (word % 0x1_0000_0000) as u32) == word,
{
    assert(word / 0x1_0000_0000 <= 0xffff_ffff);
}

/// However the pool size is set, a rotation has at least two buffers, and a
/// size of two or more is kept.
pub proof fn law_pool_size_is_at_least_two(n: usize)
    ensures
        at_least_two(n) >= 2,
        n >= 2 ==> at_least_two(n) == n,
{
}

} // verus!
