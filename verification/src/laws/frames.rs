//! Laws of the frames in the shell's hands: what they are, what their pixels
//! are, and how a frame is rendered into its buffer.

use vstd::prelude::*;

use crate::export::frame::{export_draw, ExportedFrame};
use crate::export::pass::{PassAction, PassStep, RenderPass};
#[allow(unused_imports)]
use crate::export::pixels::{holds_rows, law_readback_keeps_every_pixel, lemma_packed_len};
use crate::export::pixels::{copy_pixels, mapped_len, pack_bgra_rows, zeroed};
use crate::export::pool::{Pool, PoolView, SurfaceBuffer};
#[allow(unused_imports)]
use crate::laws::pool::same_requests;
use crate::render::GlDraw;

verus! {

/// The two pools are of one size and number of buffers, and neither differs in
/// what runs or ends.
pub open spec fn same_flags<B>(a: PoolView<B>, b: PoolView<B>) -> bool {
    &&& a.width == b.width
    &&& a.height == b.height
    &&& a.pool_size == b.pool_size
    &&& a.rendering == b.rendering
    &&& a.closed == b.closed
    &&& a.shutdown == b.shutdown
    &&& a.update_pending == b.update_pending
}

/// A frame is the buffer that was published, with its width and height.
pub proof fn law_a_frame_is_the_published_buffer<B>(
    pool: &mut Pool<B>,
    r: Option<ExportedFrame<B>>,
    frame: ExportedFrame<B>,
    buffer: &SurfaceBuffer<B>,
    width: u32,
    height: u32,
)
    requires
        call_ensures(ExportedFrame::<B>::take_published, (pool,), r),
        call_ensures(ExportedFrame::<B>::buffer, (&frame,), buffer),
        call_ensures(ExportedFrame::<B>::width, (&frame,), width),
        call_ensures(ExportedFrame::<B>::height, (&frame,), height),
    ensures
        r is Some <==> old(pool)@.published is Some,
        r matches Some(taken) ==> old(pool)@.published == Some(taken@),
        final(pool)@.published is None,
        final(pool)@.in_use == old(pool)@.in_use + (if r is Some {
            1int
        } else {
            0int
        }),
        final(pool)@.free == old(pool)@.free,
        final(pool)@.live == old(pool)@.live,
        same_flags(old(pool)@, final(pool)@),
        final(pool)@.retired == old(pool)@.retired,
        final(pool)@.force_render == old(pool)@.force_render,
        final(pool)@.render_dropped == old(pool)@.render_dropped,
        final(pool)@.swap_pending == old(pool)@.swap_pending,
        *buffer == frame@,
        width == frame@.width,
        height == frame@.height,
{
}

/// A frame goes back as its own buffer: free again where it is released or was
/// displayed, and out for good where it is retired. Only a displayed one is told
/// to mpv.
pub proof fn law_a_frame_goes_back_as_its_buffer<B>(
    a: &mut Pool<B>,
    b: &mut Pool<B>,
    c: &mut Pool<B>,
    frame: ExportedFrame<B>,
    released: bool,
    retired: bool,
    presented: bool,
)
    requires
        old(a)@.in_use > 0,
        old(b)@.in_use > 0,
        old(b)@.live > 0,
        old(c)@.in_use > 0,
        call_ensures(ExportedFrame::<B>::release, (frame, a), released),
        call_ensures(ExportedFrame::<B>::retire, (frame, b), retired),
        call_ensures(ExportedFrame::<B>::presented, (frame, c), presented),
    ensures
        final(a)@.free == old(a)@.free.push(frame@),
        final(a)@.retired == old(a)@.retired,
        final(a)@.in_use == old(a)@.in_use - 1,
        final(a)@.live == old(a)@.live,
        final(a)@.swap_pending == old(a)@.swap_pending,
        final(b)@.free == old(b)@.free,
        final(b)@.retired == old(b)@.retired.push(frame@),
        final(b)@.in_use == old(b)@.in_use - 1,
        final(b)@.live == old(b)@.live - 1,
        final(b)@.swap_pending == old(b)@.swap_pending,
        final(c)@.free == old(c)@.free.push(frame@),
        final(c)@.retired == old(c)@.retired,
        final(c)@.in_use == old(c)@.in_use - 1,
        final(c)@.live == old(c)@.live,
        final(c)@.swap_pending,
        released == old(a)@.render_dropped,
        retired == old(b)@.render_dropped,
        presented == old(c)@.render_dropped,
        final(a)@.force_render == (old(a)@.force_render || released) && !final(a)@.render_dropped,
        final(b)@.force_render == (old(b)@.force_render || retired) && !final(b)@.render_dropped,
        final(c)@.force_render == (old(c)@.force_render || presented) && !final(c)@.render_dropped,
        same_flags(old(a)@, final(a)@),
        same_flags(old(b)@, final(b)@),
        same_flags(old(c)@, final(c)@),
        final(a)@.published == old(a)@.published,
        final(b)@.published == old(b)@.published,
        final(c)@.published == old(c)@.published,
{
}

/// A copy of mapped pixels has four bytes a pixel, row after row from the top:
/// each byte is the one that the memory holds at its row and column.
pub proof fn law_copied_pixels_are_the_mapped_ones(
    w: usize,
    h: usize,
    memory: &[u8],
    stride: usize,
    r: Vec<u8>,
    row: int,
    k: int,
)
    requires
        w * 4 <= stride,
        stride * h <= memory@.len(),
        call_ensures(copy_pixels, (w, h, Some((memory, stride))), r),
    ensures
        r@.len() == w * 4 * h,
        0 <= row < h && 0 <= k < w * 4 ==> r@[row * (w * 4) + k] == memory@[row * stride + k],
{
    lemma_packed_len(memory@, stride as int, w as int, h as nat);
    if 0 <= row < h && 0 <= k < w * 4 {
        law_readback_keeps_every_pixel(memory@, stride as int, w as int, h as nat, row, k);
    }
}

/// Rows are packed as they are copied.
pub proof fn law_packed_rows_are_the_rows(
    bytes: &[u8],
    stride: usize,
    w: usize,
    h: usize,
    r: Vec<u8>,
    row: int,
    k: int,
)
    requires
        w * 4 <= stride,
        stride * h <= bytes@.len(),
        call_ensures(pack_bgra_rows, (bytes, stride, w, h), r),
    ensures
        r@.len() == w * 4 * h,
        0 <= row < h && 0 <= k < w * 4 ==> r@[row * (w * 4) + k] == bytes@[row * stride + k],
{
    lemma_packed_len(bytes@, stride as int, w as int, h as nat);
    if 0 <= row < h && 0 <= k < w * 4 {
        law_readback_keeps_every_pixel(bytes@, stride as int, w as int, h as nat, row, k);
    }
}

/// Pixels that cannot be mapped are copied as zeros, four a pixel.
pub proof fn law_unmapped_pixels_are_zero(
    w: usize,
    h: usize,
    r: Vec<u8>,
    blank: Vec<u8>,
    i: int,
)
    requires
        call_ensures(copy_pixels, (w, h, None::<(&[u8], usize)>), r),
        call_ensures(zeroed, (w, h), blank),
    ensures
        r@.len() == w * h * 4,
        blank@.len() == w * h * 4,
        0 <= i < w * h * 4 ==> r@[i] == 0 && blank@[i] == 0,
{
    assert(w * h * 4 >= 0) by (nonlinear_arith)
        requires
            w >= 0,
            h >= 0,
    ;
}

/// A frame copies its own pixels, as many as its width and height give.
pub proof fn law_a_frame_copies_its_pixels<B>(
    frame: ExportedFrame<B>,
    memory: &[u8],
    stride: usize,
    r: Vec<u8>,
    row: int,
    k: int,
)
    requires
        frame@.width * 4 <= stride,
        stride * frame@.height <= memory@.len(),
        call_ensures(ExportedFrame::<B>::copy_pixels, (&frame, Some((memory, stride))), r),
    ensures
        r@.len() == frame@.width * 4 * frame@.height,
        0 <= row < frame@.height && 0 <= k < frame@.width * 4 ==> r@[row * (frame@.width * 4) + k]
            == memory@[row * stride + k],
{
    lemma_packed_len(memory@, stride as int, frame@.width as int, frame@.height as nat);
    if 0 <= row < frame@.height && 0 <= k < frame@.width * 4 {
        law_readback_keeps_every_pixel(
            memory@,
            stride as int,
            frame@.width as int,
            frame@.height as nat,
            row,
            k,
        );
    }
}

/// A frame that cannot be mapped copies as zeros.
pub proof fn law_an_unmapped_frame_is_zero<B>(frame: ExportedFrame<B>, r: Vec<u8>, i: int)
    requires
        call_ensures(ExportedFrame::<B>::copy_pixels, (&frame, None::<(&[u8], usize)>), r),
    ensures
        r@.len() == frame@.width * frame@.height * 4,
        0 <= i < frame@.width * frame@.height * 4 ==> r@[i] == 0,
{
    let w = frame@.width;
    let h = frame@.height;
    assert(w * h * 4 >= 0) by (nonlinear_arith)
        requires
            w >= 0,
            h >= 0,
    ;
}

/// What holds rows is room for every one of them at its distance.
pub proof fn law_rows_fit_their_memory(bytes: Seq<u8>, stride: int, w: int, h: int)
    ensures
        holds_rows(bytes, stride, w, h) <==> w * 4 <= stride && stride * h <= bytes.len(),
{
}

/// All the rows are mapped, and nothing where there are none.
pub proof fn law_every_row_is_mapped(stride: u32, h: u32, r: Option<usize>)
    requires
        stride * h <= usize::MAX,
        call_ensures(mapped_len, (stride, h), r),
    ensures
        r is Some <==> stride > 0 && h > 0,
        r matches Some(len) ==> len == stride * h,
{
    assert(stride * h > 0 <==> stride > 0 && h > 0) by (nonlinear_arith)
        requires
            stride >= 0,
            h >= 0,
    ;
}

/// A frame is drawn over the whole of its buffer, into the buffer's own
/// framebuffer, unflipped, and paced by mpv.
pub proof fn law_a_frame_fills_its_buffer<B>(buffer: SurfaceBuffer<B>, fbo: u32, r: GlDraw)
    requires
        call_ensures(export_draw::<B>, (&buffer, fbo), r),
    ensures
        fbo <= i32::MAX ==> r.fbo == fbo,
        buffer.width <= i32::MAX ==> r.width == buffer.width,
        buffer.height <= i32::MAX ==> r.height == buffer.height,
        r.fbo == fbo as i32,
        r.width == buffer.width as i32,
        r.height == buffer.height as i32,
        r.internal_format == 0x8058,
        !r.flip_y,
        r.block_for_target_time,
{
}

/// Four steps of a render are to hand the buffer to GL, to draw, to take it back
/// and to hand it to the pool, whatever came of the draw; what came of the draw
/// alone decides whether the frame is published. The buffer is over with only
/// then.
pub proof fn law_a_render_hands_over_and_takes_back<B>(
    buffer: SurfaceBuffer<B>,
    fbo: u32,
    pass: RenderPass<B>,
    a: &mut RenderPass<B>,
    b: &mut RenderPass<B>,
    c: &mut RenderPass<B>,
    d: &mut RenderPass<B>,
    ok: Seq<bool>,
    first: PassStep,
    second: PassStep,
    third: PassStep,
    fourth: PassStep,
    early: bool,
    over: bool,
    pool: &mut Pool<B>,
    published: bool,
)
    requires
        call_ensures(RenderPass::<B>::new, (buffer, fbo), pass),
        *old(a) == pass,
        call_ensures(RenderPass::<B>::next, (a, ok[0]), first),
        *old(b) == *final(a),
        call_ensures(RenderPass::<B>::next, (b, ok[1]), second),
        *old(c) == *final(b),
        call_ensures(RenderPass::<B>::next, (c, ok[2]), third),
        *old(d) == *final(c),
        call_ensures(RenderPass::<B>::is_over, (final(c),), early),
        call_ensures(RenderPass::<B>::next, (d, ok[3]), fourth),
        call_ensures(RenderPass::<B>::is_over, (final(d),), over),
        call_ensures(RenderPass::<B>::finish, (*final(d), pool), published),
    ensures
        first == PassStep::Do(PassAction::BeginRender),
        second matches PassStep::Do(PassAction::Draw(draw)) && {
            &&& buffer.width <= i32::MAX ==> draw.width == buffer.width
            &&& buffer.height <= i32::MAX ==> draw.height == buffer.height
            &&& fbo <= i32::MAX ==> draw.fbo == fbo
            &&& draw.width == buffer.width as i32 && draw.height == buffer.height as i32
            &&& draw.fbo == fbo as i32
            &&& draw.internal_format == 0x8058
            &&& !draw.flip_y
            &&& draw.block_for_target_time
        },
        third == PassStep::Do(PassAction::PublishBarrier),
        fourth == PassStep::Finish,
        !early,
        over,
        published == ok[2],
        published ==> final(pool)@.published == Some(buffer) && final(pool)@.free == (match old(
            pool,
        )@.published {
            Some(previous) => old(pool)@.free.push(previous),
            None => old(pool)@.free,
        }),
        final(pool)@.retired == old(pool)@.retired,
        final(pool)@.in_use == old(pool)@.in_use,
        final(pool)@.live == old(pool)@.live,
        final(pool)@.pool_size == old(pool)@.pool_size,
        final(pool)@.closed == old(pool)@.closed,
        final(pool)@.render_dropped == old(pool)@.render_dropped,
        same_requests(old(pool)@, final(pool)@),
        !published ==> final(pool)@.published == old(pool)@.published && final(pool)@.free == old(
            pool,
        )@.free.push(buffer),
        !final(pool)@.rendering,
{
}

/// A render that is over gives no further step but the last, and what is done to
/// its storage is done to the buffer that it hands to the pool.
pub proof fn law_a_render_works_on_its_own_storage<B>(
    pass: &mut RenderPass<B>,
    storage: &mut B,
    late: &mut RenderPass<B>,
    ok: bool,
    step: PassStep,
)
    requires
        call_ensures(RenderPass::<B>::storage, (pass,), storage),
        old(late)@.given >= 4,
        call_ensures(RenderPass::<B>::next, (late, ok), step),
    ensures
        *old(storage) == old(pass)@.buffer.storage,
        final(pass)@.buffer.storage == *final(storage),
        final(pass)@.buffer.width == old(pass)@.buffer.width,
        final(pass)@.buffer.height == old(pass)@.buffer.height,
        final(pass)@.fbo == old(pass)@.fbo,
        final(pass)@.given == old(pass)@.given,
        final(pass)@.drawn == old(pass)@.drawn,
        step == PassStep::Finish,
        final(late)@ == old(late)@,
{
}

} // verus!
