//! Reading a frame's pixels back.

use vstd::prelude::*;

verus! {

/// `row` of a `w` pixels wide image of four bytes a pixel, whose rows are
/// `stride` bytes apart.
pub open spec fn pixel_row(bytes: Seq<u8>, stride: int, w: int, row: int) -> Seq<u8> {
    bytes.subrange(row * stride, row * stride + w * 4)
}

/// The first `h` rows of an image, tightly packed.
pub open spec fn packed_rows(bytes: Seq<u8>, stride: int, w: int, h: nat) -> Seq<u8>
    decreases h,
{
    if h == 0 {
        Seq::empty()
    } else {
        packed_rows(bytes, stride, w, (h - 1) as nat) + pixel_row(bytes, stride, w, h - 1)
    }
}

/// `n` zero bytes.
pub open spec fn zeros(n: int) -> Seq<u8> {
    Seq::new(n as nat, |i: int| 0u8)
}

/// The bytes of an image whose rows are `stride` bytes apart hold `h` rows of
/// `w` pixels.
pub open spec fn holds_rows(bytes: Seq<u8>, stride: int, w: int, h: int) -> bool {
    w * 4 <= stride && stride * h <= bytes.len()
}

/// Black, fully transparent pixels for a `w`×`h` image.
pub fn zeroed(w: usize, h: usize) -> (r: Vec<u8>)
    requires
        w * h * 4 <= usize::MAX,
    ensures
        r@ == zeros(w * h * 4),
{
    let pixels: usize = w * h;
    let mut out: Vec<u8> = Vec::new();
    out.resize(pixels * 4, 0);
    assert(w * h * 4 >= 0) by (nonlinear_arith)
        requires
            w >= 0,
            h >= 0,
    ;
    assert(out@ =~= zeros(w * h * 4));
    out
}

/// The rows of an image as tightly packed rows, row 0 at the top.
pub fn pack_bgra_rows(bytes: &[u8], stride: usize, w: usize, h: usize) -> (r: Vec<u8>)
    requires
        holds_rows(bytes@, stride as int, w as int, h as int),
    ensures
        r@ == packed_rows(bytes@, stride as int, w as int, h as nat),
{
    let len: usize = bytes.len();
    let mut out: Vec<u8> = Vec::new();
    let mut row: usize = 0;
    while row < h
        invariant
            0 <= row <= h,
            bytes@.len() == len,
            holds_rows(bytes@, stride as int, w as int, h as int),
            out@ == packed_rows(bytes@, stride as int, w as int, row as nat),
        decreases h - row,
    {
        assert(row * stride + stride <= stride * h && 0 <= row * stride) by (nonlinear_arith)
            requires
                0 <= row < h,
                0 <= stride,
        ;
        let start: usize = row * stride;
        let ghost before = out@;
        let mut k: usize = 0;
        while k < w * 4
            invariant
                0 <= k <= w * 4,
                w * 4 <= stride,
                bytes@.len() == len,
                start == row * stride,
                start + stride <= bytes@.len(),
                out@ == before + bytes@.subrange(start as int, start + k),
            decreases w * 4 - k,
        {
            out.push(bytes[start + k]);
            k = k + 1;
            assert(out@ =~= before + bytes@.subrange(start as int, start + k));
        }
        row = row + 1;
    }
    out
}

/// The pixels of a `w`×`h` frame, where `mapped` is its memory and the
/// distance of its rows. Zeros where the memory cannot be mapped.
pub fn copy_pixels(w: usize, h: usize, mapped: Option<(&[u8], usize)>) -> (r: Vec<u8>)
    requires
        w * h * 4 <= usize::MAX,
        mapped matches Some(m) ==> holds_rows(m.0@, m.1 as int, w as int, h as int),
    ensures
        r@ == (match mapped {
            Some(m) => packed_rows(m.0@, m.1 as int, w as int, h as nat),
            None => zeros(w * h * 4),
        }),
{
    match mapped {
        Some(m) => pack_bgra_rows(m.0, m.1, w, h),
        None => zeroed(w, h),
    }
}

/// The bytes to map of a frame whose rows are `stride` bytes apart, if there
/// are any.
pub fn mapped_len(stride: u32, h: u32) -> (r: Option<usize>)
    requires
        stride * h <= usize::MAX,
    ensures
        r == (if stride * h == 0 {
            None::<usize>
        } else {
            Some((stride * h) as usize)
        }),
{
    assert(stride * h >= 0) by (nonlinear_arith)
        requires
            stride >= 0,
            h >= 0,
    ;
    let len: usize = stride as usize * h as usize;
    if len == 0 {
        None
    } else {
        Some(len)
    }
}

/// A readback has four bytes a pixel, and pixel byte `k` of row `row` is the
/// one that the frame's memory holds there.
pub proof fn law_readback_keeps_every_pixel(
    bytes: Seq<u8>,
    stride: int,
    w: int,
    h: nat,
    row: int,
    k: int,
)
    requires
        0 <= w,
        holds_rows(bytes, stride, w, h as int),
        0 <= row < h,
        0 <= k < w * 4,
    ensures
        packed_rows(bytes, stride, w, h).len() == w * 4 * h,
        packed_rows(bytes, stride, w, h)[row * (w * 4) + k] == bytes[row * stride + k],
    decreases h,
{
    assert(stride * (h - 1) <= stride * h) by (nonlinear_arith)
        requires
            stride >= 0,
    ;
    lemma_packed_len(bytes, stride, w, h);
    lemma_packed_len(bytes, stride, w, (h - 1) as nat);
    lemma_row_in_bounds(bytes, stride, w, h as int, h - 1);
    if row == h - 1 {
        assert(row * (w * 4) == w * 4 * (h - 1)) by (nonlinear_arith)
            requires
                row == h - 1,
        ;
    } else {
        law_readback_keeps_every_pixel(bytes, stride, w, (h - 1) as nat, row, k);
        assert(0 <= row * (w * 4) && row * (w * 4) + w * 4 <= w * 4 * (h - 1)) by (nonlinear_arith)
            requires
                0 <= row < h - 1,
                w >= 0,
        ;
    }
}

/// Row `row` lies within the bytes.
proof fn lemma_row_in_bounds(bytes: Seq<u8>, stride: int, w: int, h: int, row: int)
    requires
        0 <= w,
        holds_rows(bytes, stride, w, h),
        0 <= row < h,
    ensures
        0 <= row * stride,
        row * stride + w * 4 <= bytes.len(),
{
    assert(0 <= row * stride && row * stride + stride <= stride * h) by (nonlinear_arith)
        requires
            0 <= row < h,
            0 <= stride,
    ;
}

/// `h` packed rows have four bytes a pixel.
pub(crate) proof fn lemma_packed_len(bytes: Seq<u8>, stride: int, w: int, h: nat)
    requires
        0 <= w,
        holds_rows(bytes, stride, w, h as int),
    ensures
        packed_rows(bytes, stride, w, h).len() == w * 4 * h,
    decreases h,
{
    if h > 0 {
        assert(stride * (h - 1) <= stride * h) by (nonlinear_arith)
            requires
                stride >= 0,
        ;
        lemma_packed_len(bytes, stride, w, (h - 1) as nat);
        lemma_row_in_bounds(bytes, stride, w, h as int, h - 1);
        assert(w * 4 * (h - 1) + w * 4 == w * 4 * h) by (nonlinear_arith);
    } else {
        assert(w * 4 * h == 0) by (nonlinear_arith)
            requires
                h == 0,
        ;
    }
}

/// Rows that are tightly packed already come out as they are.
pub proof fn law_packed_rows_stay(bytes: Seq<u8>, w: int, h: nat)
    requires
        0 <= w,
        w * 4 * h <= bytes.len(),
    ensures
        packed_rows(bytes, w * 4, w, h) == bytes.subrange(0, w * 4 * h),
    decreases h,
{
    if h == 0 {
        assert(w * 4 * h == 0) by (nonlinear_arith)
            requires
                h == 0,
        ;
        assert(bytes.subrange(0, w * 4 * h) =~= Seq::<u8>::empty());
    } else {
        assert(0 <= w * 4 * (h - 1) && w * 4 * (h - 1) + w * 4 == w * 4 * h && (h - 1) * (w * 4)
            == w * 4 * (h - 1)) by (nonlinear_arith)
            requires
                w >= 0,
                h >= 1,
        ;
        law_packed_rows_stay(bytes, w, (h - 1) as nat);
        assert(bytes.subrange(0, w * 4 * h) =~= bytes.subrange(0, w * 4 * (h - 1)) + pixel_row(
            bytes,
            w * 4,
            w,
            h - 1,
        ));
    }
}

} // verus!
