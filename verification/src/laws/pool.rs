//! Laws of the pool of exportable buffers.

use vstd::prelude::*;

use crate::export::pool::{
    AllocNext, Pool, PoolView, RenderNext, RenderStart, Service, SurfaceBuffer,
};
use crate::export::{pack_size, unpack_size, ExportOptions};

verus! {

/// Options hold the size that was asked for and three buffers, unless told
/// otherwise; no rotation has fewer than two.
pub proof fn law_options_hold_what_was_asked(
    width: u32,
    height: u32,
    options: ExportOptions,
    given: ExportOptions,
    n: usize,
    sized: ExportOptions,
)
    requires
        call_ensures(ExportOptions::new, (width, height), options),
        call_ensures(ExportOptions::pool_size, (given, n), sized),
    ensures
        options.width == width && options.height == height && options.pool_size == 3,
        sized.width == given.width && sized.height == given.height,
        n >= 2 ==> sized.pool_size == n,
        n < 2 ==> sized.pool_size == 2,
{
}

/// A size packed into one word comes out again as it was, and different sizes
/// have different words.
pub proof fn law_sizes_come_out_as_packed(
    width: u32,
    height: u32,
    word: u64,
    r: (u32, u32),
    other: (u32, u32),
    its: u64,
)
    requires
        call_ensures(pack_size, (width, height), word),
        call_ensures(unpack_size, (word,), r),
        call_ensures(pack_size, (other.0, other.1), its),
    ensures
        r == (width, height),
        word == width * 0x1_0000_0000 + height,
        word == its ==> other == (width, height),
{
}

/// A new pool is empty, has the size that was asked for, at least two buffers
/// in rotation, and nothing to do.
pub proof fn law_a_new_pool_is_empty<B>(options: ExportOptions, r: Pool<B>)
    requires
        call_ensures(Pool::<B>::new, (options,), r),
    ensures
        r@.free.len() == 0 && r@.published is None && r@.retired.len() == 0,
        !r@.rendering && r@.in_use == 0 && r@.live == 0,
        r@.width == options.width && r@.height == options.height,
        options.pool_size >= 2 ==> r@.pool_size == options.pool_size,
        options.pool_size < 2 ==> r@.pool_size == 2,
        !r@.shutdown && !r@.update_pending && !r@.force_render && !r@.swap_pending,
        !r@.render_dropped && !r@.closed,
{
}

/// The two pools hold the same buffers and count them alike.
pub open spec fn same_buffers<B>(a: PoolView<B>, b: PoolView<B>) -> bool {
    &&& a.free == b.free
    &&& a.published == b.published
    &&& a.rendering == b.rendering
    &&& a.in_use == b.in_use
    &&& a.live == b.live
    &&& a.pool_size == b.pool_size
    &&& a.closed == b.closed
}

/// The two pools have the same size set and the same requests waiting.
pub open spec fn same_requests<B>(a: PoolView<B>, b: PoolView<B>) -> bool {
    &&& a.width == b.width
    &&& a.height == b.height
    &&& a.shutdown == b.shutdown
    &&& a.update_pending == b.update_pending
    &&& a.force_render == b.force_render
    &&& a.swap_pending == b.swap_pending
}

/// Setting a size sets both its width and its height, and has a frame rendered
/// without waiting for one. No buffer moves.
pub proof fn law_a_size_is_set_and_rendered<B>(pool: &mut Pool<B>, width: u32, height: u32)
    requires
        call_ensures(Pool::<B>::set_target_size, (pool, width, height), ()),
    ensures
        final(pool)@.width == width,
        final(pool)@.height == height,
        final(pool)@.force_render,
        same_buffers(old(pool)@, final(pool)@),
        final(pool)@.retired == old(pool)@.retired,
        final(pool)@.render_dropped == old(pool)@.render_dropped,
        final(pool)@.shutdown == old(pool)@.shutdown,
        final(pool)@.update_pending == old(pool)@.update_pending,
        final(pool)@.swap_pending == old(pool)@.swap_pending,
{
}

/// Each request is noted by itself: an update, the end of the thread, a frame
/// that was displayed, a render to try again, for which the thread waits a tenth
/// of a second.
pub proof fn law_requests_are_noted_one_by_one<B>(
    a: &mut Pool<B>,
    b: &mut Pool<B>,
    c: &mut Pool<B>,
    d: &mut Pool<B>,
    wait: u64,
)
    requires
        call_ensures(Pool::<B>::signal_update, (a,), ()),
        call_ensures(Pool::<B>::request_shutdown, (b,), ()),
        call_ensures(Pool::<B>::presented, (c,), ()),
        call_ensures(Pool::<B>::retry_render, (d,), wait),
    ensures
        final(a)@ == (PoolView { update_pending: true, ..old(a)@ }),
        final(b)@ == (PoolView { shutdown: true, ..old(b)@ }),
        final(c)@ == (PoolView { swap_pending: true, ..old(c)@ }),
        final(d)@ == (PoolView { force_render: true, ..old(d)@ }),
        wait == 100,
{
}

/// The render thread has something to do if and only if a request waits or a
/// retired buffer is to be deleted. The other queries tell what the pool holds.
pub proof fn law_a_pool_tells_what_it_holds<B>(
    pool: Pool<B>,
    work: bool,
    published: bool,
    in_use: usize,
    can: bool,
    rendering: bool,
)
    requires
        call_ensures(Pool::<B>::has_work, (&pool,), work),
        call_ensures(Pool::<B>::has_published, (&pool,), published),
        call_ensures(Pool::<B>::in_use, (&pool,), in_use),
        call_ensures(Pool::<B>::can_render, (&pool,), can),
        call_ensures(Pool::<B>::is_rendering, (&pool,), rendering),
    ensures
        !work <==> !pool@.shutdown && !pool@.update_pending && !pool@.force_render
            && !pool@.swap_pending && pool@.retired.len() == 0,
        published <==> pool@.published is Some,
        in_use == pool@.in_use,
        rendering == pool@.rendering,
        can <==> !rendering && !pool@.closed,
{
}

/// A round takes up every request once, with the retired buffers. A round that
/// ends the thread takes up nothing else.
pub proof fn law_a_round_takes_up_each_request_once<B>(
    pool: &mut Pool<B>,
    r: Service<B>,
    has_frame: bool,
    renders: bool,
)
    requires
        call_ensures(Pool::<B>::begin_service, (pool,), r),
        call_ensures(Service::<B>::wants_render, (&r, has_frame), renders),
    ensures
        r.retired@ == old(pool)@.retired,
        final(pool)@.retired.len() == 0,
        r.stop == old(pool)@.shutdown,
        final(pool)@.shutdown == old(pool)@.shutdown,
        !r.stop ==> {
            &&& r.report_swap == old(pool)@.swap_pending && !final(pool)@.swap_pending
            &&& r.force == old(pool)@.force_render && !final(pool)@.force_render
            &&& r.updated == old(pool)@.update_pending && !final(pool)@.update_pending
        },
        r.stop ==> {
            &&& !r.report_swap && final(pool)@.swap_pending == old(pool)@.swap_pending
            &&& !r.force && final(pool)@.force_render == old(pool)@.force_render
            &&& !r.updated && final(pool)@.update_pending == old(pool)@.update_pending
        },
        renders <==> r.force || (r.updated && has_frame),
        same_buffers(old(pool)@, final(pool)@),
        final(pool)@.width == old(pool)@.width,
        final(pool)@.height == old(pool)@.height,
        final(pool)@.render_dropped == old(pool)@.render_dropped,
{
}

/// The free buffers of the pool's width and height, in order.
pub open spec fn right_sized<B>(v: PoolView<B>) -> Seq<SurfaceBuffer<B>> {
    v.free.filter(|b: SurfaceBuffer<B>| b.width == v.width && b.height == v.height)
}

/// The free buffers of another width or height, in order.
pub open spec fn wrong_sized<B>(v: PoolView<B>) -> Seq<SurfaceBuffer<B>> {
    v.free.filter(|b: SurfaceBuffer<B>| b.width != v.width || b.height != v.height)
}

/// A published frame of another width or height waits.
pub open spec fn published_is_stale<B>(v: PoolView<B>) -> bool {
    v.published matches Some(b) && (b.width != v.width || b.height != v.height)
}

/// What a filter keeps satisfies its condition and was there before.
proof fn lemma_filtered<B>(
    s: Seq<SurfaceBuffer<B>>,
    pred: spec_fn(SurfaceBuffer<B>) -> bool,
    i: int,
)
    requires
        0 <= i < s.filter(pred).len(),
    ensures
        pred(s.filter(pred)[i]),
        s.contains(s.filter(pred)[i]),
    decreases s.len(),
{
    reveal(Seq::filter);
    let rest = s.drop_last();
    if i < rest.filter(pred).len() {
        lemma_filtered(rest, pred, i);
        let at = rest.index_of(rest.filter(pred)[i]);
        assert(s[at] == s.filter(pred)[i]);
    } else {
        assert(s[s.len() - 1] == s.filter(pred)[i]);
    }
}

/// The sizes written out are the sizes that the pool goes by.
proof fn lemma_sizes<B>(v: PoolView<B>)
    ensures
        right_sized(v) == v.fresh(),
        wrong_sized(v) == v.stale(),
        forall|i: int|
            0 <= i < right_sized(v).len() ==> (#[trigger] right_sized(v)[i]).width == v.width
                && right_sized(v)[i].height == v.height && v.free.contains(right_sized(v)[i]),
        forall|i: int|
            0 <= i < wrong_sized(v).len() ==> ((#[trigger] wrong_sized(v)[i]).width != v.width
                || wrong_sized(v)[i].height != v.height) && v.free.contains(wrong_sized(v)[i]),
{
    let right = |b: SurfaceBuffer<B>| b.width == v.width && b.height == v.height;
    let wrong = |b: SurfaceBuffer<B>| b.width != v.width || b.height != v.height;
    assert(right =~= (|b: SurfaceBuffer<B>| b.sized(v.width, v.height)));
    assert(wrong =~= (|b: SurfaceBuffer<B>| !b.sized(v.width, v.height)));
    assert forall|i: int| 0 <= i < right_sized(v).len() implies (#[trigger] right_sized(v)[i]).width
        == v.width && right_sized(v)[i].height == v.height && v.free.contains(
        right_sized(v)[i],
    ) by {
        lemma_filtered(v.free, right, i);
    }
    assert forall|i: int| 0 <= i < wrong_sized(v).len() implies ((
    #[trigger] wrong_sized(v)[i]).width != v.width || wrong_sized(v)[i].height != v.height)
        && v.free.contains(wrong_sized(v)[i]) by {
        lemma_filtered(v.free, wrong, i);
    }
}

/// A frame is rendered at the pool's width and at its height, both: into a
/// buffer of exactly that size, or into a new one of exactly that size. Every
/// buffer that is deleted differs in its width or in its height, and was free or
/// published.
pub proof fn law_frames_are_rendered_at_the_set_size<B>(pool: &mut Pool<B>, r: RenderStart<B>)
    requires
        call_ensures(Pool::<B>::begin_render, (pool,), r),
    ensures
        r.next matches RenderNext::Into(b) ==> b.width == old(pool)@.width && b.height == old(
            pool,
        )@.height,
        r.next matches RenderNext::Allocate { width, height } ==> width == old(pool)@.width
            && height == old(pool)@.height,
        forall|i: int|
            0 <= i < r.deleted@.len() ==> {
                &&& (#[trigger] r.deleted@[i]).width != old(pool)@.width || r.deleted@[i].height
                    != old(pool)@.height
                &&& old(pool)@.free.contains(r.deleted@[i]) || old(pool)@.published == Some(
                    r.deleted@[i],
                )
            },
        r.next is Paused <==> old(pool)@.width == 0 || old(pool)@.height == 0,
{
    let v = old(pool)@;
    lemma_sizes(v);
    let stale = v.stale();
    assert forall|i: int| 0 <= i < r.deleted@.len() implies {
        &&& (#[trigger] r.deleted@[i]).width != v.width || r.deleted@[i].height != v.height
        &&& v.free.contains(r.deleted@[i]) || v.published == Some(r.deleted@[i])
    } by {
        if i < stale.len() {
            assert(r.deleted@[i] == wrong_sized(v)[i]);
        }
    }
    if v.fresh().len() > 0 {
        assert(v.fresh().last() == right_sized(v)[right_sized(v).len() - 1]);
    }
}

/// After a size is set, the next frame is of that width and that height.
pub proof fn law_a_set_size_takes_effect<B>(
    pool: &mut Pool<B>,
    next: &mut Pool<B>,
    width: u32,
    height: u32,
    r: RenderStart<B>,
)
    requires
        width > 0,
        height > 0,
        call_ensures(Pool::<B>::set_target_size, (pool, width, height), ()),
        *old(next) == *final(pool),
        call_ensures(Pool::<B>::begin_render, (next,), r),
    ensures
        !(r.next is Paused),
        r.next matches RenderNext::Into(b) ==> b.width == width && b.height == height,
        r.next matches RenderNext::Allocate { width: w, height: h } ==> w == width && h == height,
        forall|i: int|
            0 <= i < r.deleted@.len() ==> (#[trigger] r.deleted@[i]).width != width
                || r.deleted@[i].height != height,
{
    law_frames_are_rendered_at_the_set_size(next, r);
}

/// With no size there is nothing to render, and nothing changes. Otherwise every
/// free buffer of another size is deleted, and a free one of the size is used,
/// the one that came last. With none, a published frame of another size is
/// deleted too; a new buffer is wanted while there may be one, then a published
/// frame is rendered over, and with every buffer out the frame is dropped.
pub proof fn law_a_render_finds_its_buffer<B>(pool: &mut Pool<B>, r: RenderStart<B>)
    requires
        old(pool)@.wf(),
        call_ensures(Pool::<B>::begin_render, (pool,), r),
        old(pool)@.width > 0,
        old(pool)@.height > 0,
        !old(pool)@.closed,
        !old(pool)@.rendering,
    ensures
        ({
            let v = old(pool)@;
            let w = final(pool)@;
            let right = right_sized(v);
            let wrong = wrong_sized(v);
            &&& w.live == v.live - r.deleted@.len()
            &&& right.len() > 0 ==> {
                &&& r.next == RenderNext::Into(right.last())
                &&& r.deleted@ == wrong
                &&& w.free == right.take(right.len() - 1)
                &&& w.published == v.published
                &&& w.rendering && w.render_dropped == v.render_dropped
            }
            &&& right.len() == 0 ==> {
                &&& r.deleted@ == (if published_is_stale(v) {
                    wrong.push(v.published->0)
                } else {
                    wrong
                })
                &&& w.free.len() == 0
                &&& r.next is Allocate <==> w.live < v.pool_size
                &&& r.next is Allocate ==> !w.rendering && w.render_dropped == v.render_dropped && (
                if published_is_stale(v) {
                    w.published is None
                } else {
                    w.published == v.published
                })
                &&& r.next is Into ==> w.published is None && r.next->Into_0 == v.published->0
                    && v.published is Some && w.rendering && w.render_dropped == v.render_dropped
                &&& r.next is Dropped ==> w.published is None && !w.rendering && w.render_dropped
                &&& w.live == v.pool_size ==> (r.next is Into <==> v.published is Some
                    && !published_is_stale(v))
            }
        }),
        final(pool)@.retired == old(pool)@.retired,
        final(pool)@.in_use == old(pool)@.in_use,
        final(pool)@.pool_size == old(pool)@.pool_size,
        final(pool)@.closed == old(pool)@.closed,
        same_requests(old(pool)@, final(pool)@),
{
    let v = old(pool)@;
    lemma_sizes(v);
    crate::export::pool::lemma_filter_split(v.free, v.width, v.height);
    if v.fresh().len() > 0 {
        assert(v.fresh().drop_last() =~= right_sized(v).take(right_sized(v).len() - 1));
    } else {
        assert(v.stale() + Seq::<SurfaceBuffer<B>>::empty() =~= v.stale());
        if v.published is Some {
            assert(v.stale() + seq![v.published->0] =~= v.stale().push(v.published->0));
        }
    }
}

/// With no size a render changes nothing.
pub proof fn law_a_paused_pool_stays_as_it_is<B>(pool: &mut Pool<B>, r: RenderStart<B>)
    requires
        call_ensures(Pool::<B>::begin_render, (pool,), r),
        old(pool)@.width == 0 || old(pool)@.height == 0,
    ensures
        r.next is Paused,
        r.deleted@.len() == 0,
        final(pool)@ == old(pool)@,
{
}

/// A new buffer is rendered into and counted. Without one, a published frame is
/// rendered over; without that too, the render is tried again where no frame is
/// out, and owed to the next one that comes back where one is.
pub proof fn law_an_allocation_is_used_or_made_up_for<B>(
    pool: &mut Pool<B>,
    width: u32,
    height: u32,
    storage: Option<B>,
    r: AllocNext<B>,
)
    requires
        call_ensures(Pool::<B>::allocated, (pool, width, height, storage), r),
    ensures
        storage matches Some(got) ==> {
            &&& r matches AllocNext::Into(b) && b.width == width && b.height == height && b.storage
                == got
            &&& final(pool)@.live == old(pool)@.live + 1
            &&& final(pool)@.published == old(pool)@.published
            &&& final(pool)@.rendering
            &&& final(pool)@.render_dropped == old(pool)@.render_dropped
        },
        storage is None ==> {
            &&& final(pool)@.live == old(pool)@.live
            &&& final(pool)@.published is None
            &&& old(pool)@.published matches Some(b) ==> r == AllocNext::Into(b)
                && final(pool)@.rendering && final(pool)@.render_dropped
                == old(pool)@.render_dropped
            &&& old(pool)@.published is None ==> {
                &&& final(pool)@.rendering == old(pool)@.rendering
                &&& old(pool)@.in_use == 0 ==> r is Retry && final(pool)@.render_dropped
                    == old(pool)@.render_dropped
                &&& old(pool)@.in_use > 0 ==> r is Dropped && final(pool)@.render_dropped
            }
        },
        final(pool)@.free == old(pool)@.free,
        final(pool)@.retired == old(pool)@.retired,
        final(pool)@.in_use == old(pool)@.in_use,
        final(pool)@.pool_size == old(pool)@.pool_size,
        final(pool)@.closed == old(pool)@.closed,
        same_requests(old(pool)@, final(pool)@),
{
}

/// A rendered buffer is the published frame, and one that was not acquired goes
/// back to the free ones. A render that failed publishes nothing: its buffer goes
/// back, and the frame that waited still waits.
pub proof fn law_a_rendered_frame_is_published<B>(
    pool: &mut Pool<B>,
    buffer: SurfaceBuffer<B>,
    rendered: bool,
    r: bool,
)
    requires
        call_ensures(Pool::<B>::finish_render, (pool, buffer, rendered), r),
    ensures
        r == rendered,
        rendered ==> {
            &&& final(pool)@.published == Some(buffer)
            &&& old(pool)@.published matches Some(previous) ==> final(pool)@.free == old(
                pool,
            )@.free.push(previous)
            &&& old(pool)@.published is None ==> final(pool)@.free == old(pool)@.free
        },
        !rendered ==> {
            &&& final(pool)@.published == old(pool)@.published
            &&& final(pool)@.free == old(pool)@.free.push(buffer)
        },
        !final(pool)@.rendering,
        final(pool)@.retired == old(pool)@.retired,
        final(pool)@.in_use == old(pool)@.in_use,
        final(pool)@.live == old(pool)@.live,
        final(pool)@.pool_size == old(pool)@.pool_size,
        final(pool)@.render_dropped == old(pool)@.render_dropped,
        final(pool)@.closed == old(pool)@.closed,
        same_requests(old(pool)@, final(pool)@),
{
}

/// The frame that is acquired is the published one, which then no longer waits
/// and counts as out. Without one nothing changes.
pub proof fn law_the_published_frame_is_acquired<B>(
    pool: &mut Pool<B>,
    r: Option<SurfaceBuffer<B>>,
)
    requires
        call_ensures(Pool::<B>::take_published, (pool,), r),
    ensures
        r == old(pool)@.published,
        final(pool)@.published is None,
        final(pool)@.in_use == old(pool)@.in_use + (if r is Some {
            1int
        } else {
            0int
        }),
        final(pool)@.free == old(pool)@.free,
        final(pool)@.retired == old(pool)@.retired,
        final(pool)@.live == old(pool)@.live,
        final(pool)@.pool_size == old(pool)@.pool_size,
        final(pool)@.rendering == old(pool)@.rendering,
        final(pool)@.render_dropped == old(pool)@.render_dropped,
        final(pool)@.closed == old(pool)@.closed,
        same_requests(old(pool)@, final(pool)@),
{
}

/// A frame that comes back is free again and out no longer, and a dropped render
/// is asked for again.
pub proof fn law_a_returned_frame_is_free_again<B>(
    pool: &mut Pool<B>,
    buffer: SurfaceBuffer<B>,
    r: bool,
)
    requires
        old(pool)@.in_use > 0,
        call_ensures(Pool::<B>::return_buffer, (pool, buffer), r),
    ensures
        r == old(pool)@.render_dropped,
        final(pool)@.free == old(pool)@.free.push(buffer),
        final(pool)@.in_use == old(pool)@.in_use - 1,
        final(pool)@.live == old(pool)@.live,
        final(pool)@.force_render == (old(pool)@.force_render || old(pool)@.render_dropped),
        !final(pool)@.render_dropped,
        final(pool)@.published == old(pool)@.published,
        final(pool)@.retired == old(pool)@.retired,
        final(pool)@.pool_size == old(pool)@.pool_size,
        final(pool)@.rendering == old(pool)@.rendering,
        final(pool)@.closed == old(pool)@.closed,
        final(pool)@.width == old(pool)@.width && final(pool)@.height == old(pool)@.height,
        final(pool)@.shutdown == old(pool)@.shutdown,
        final(pool)@.update_pending == old(pool)@.update_pending,
        final(pool)@.swap_pending == old(pool)@.swap_pending,
{
}

/// A buffer that is retired leaves the count, is deleted by the render thread
/// and never rendered into; a dropped render is asked for again.
pub proof fn law_a_retired_buffer_leaves_for_good<B>(
    pool: &mut Pool<B>,
    buffer: SurfaceBuffer<B>,
    r: bool,
)
    requires
        old(pool)@.in_use > 0,
        old(pool)@.live > 0,
        call_ensures(Pool::<B>::retire_buffer, (pool, buffer), r),
    ensures
        r == old(pool)@.render_dropped,
        final(pool)@.retired == old(pool)@.retired.push(buffer),
        final(pool)@.in_use == old(pool)@.in_use - 1,
        final(pool)@.live == old(pool)@.live - 1,
        final(pool)@.force_render == (old(pool)@.force_render || old(pool)@.render_dropped),
        !final(pool)@.render_dropped,
        final(pool)@.free == old(pool)@.free,
        final(pool)@.published == old(pool)@.published,
        final(pool)@.pool_size == old(pool)@.pool_size,
        final(pool)@.rendering == old(pool)@.rendering,
        final(pool)@.closed == old(pool)@.closed,
        final(pool)@.width == old(pool)@.width && final(pool)@.height == old(pool)@.height,
        final(pool)@.shutdown == old(pool)@.shutdown,
        final(pool)@.update_pending == old(pool)@.update_pending,
        final(pool)@.swap_pending == old(pool)@.swap_pending,
{
}

/// Closing a pool gives out every buffer that it still holds, once: the free
/// ones, those to be deleted, and the published frame. Frames that are out stay
/// out.
pub proof fn law_a_closed_pool_holds_nothing<B>(pool: &mut Pool<B>, r: Vec<SurfaceBuffer<B>>)
    requires
        call_ensures(Pool::<B>::close, (pool,), r),
    ensures
        old(pool)@.published matches Some(b) ==> r@ == (old(pool)@.free + old(
            pool,
        )@.retired).push(b),
        old(pool)@.published is None ==> r@ == old(pool)@.free + old(pool)@.retired,
        final(pool)@.free.len() == 0,
        final(pool)@.retired.len() == 0,
        final(pool)@.published is None,
        final(pool)@.closed,
        final(pool)@.in_use == old(pool)@.in_use,
        final(pool)@.live == old(pool)@.live,
        final(pool)@.pool_size == old(pool)@.pool_size,
        final(pool)@.rendering == old(pool)@.rendering,
        final(pool)@.render_dropped == old(pool)@.render_dropped,
        same_requests(old(pool)@, final(pool)@),
{
    let both = old(pool)@.free + old(pool)@.retired;
    assert(both + Seq::<SurfaceBuffer<B>>::empty() =~= both);
    if old(pool)@.published is Some {
        assert(both + seq![old(pool)@.published->0] =~= both.push(old(pool)@.published->0));
    }
}

/// A sound pool never has more buffers than its size, wherever they are: free,
/// published, rendered into or out. Its size is at least two, and a dropped
/// render is owed to a frame that is out.
pub proof fn law_a_sound_pool_keeps_its_size<B>(v: PoolView<B>)
    requires
        v.wf(),
    ensures
        v.pool_size >= 2,
        v.free.len() + v.in_use <= v.live <= v.pool_size,
        v.published is Some ==> v.free.len() + v.in_use + 1 <= v.live,
        v.published is Some && v.rendering ==> v.free.len() + v.in_use + 2 <= v.live,
        !v.closed && v.published is None && !v.rendering ==> v.free.len() + v.in_use == v.live,
        !v.closed && v.published is Some && !v.rendering ==> v.free.len() + v.in_use + 1 == v.live,
        v.render_dropped ==> v.in_use > 0,
{
}

/// An empty pool is sound.
pub proof fn law_an_empty_pool_is_sound<B>(v: PoolView<B>)
    requires
        v.free.len() == 0,
        v.published is None,
        !v.rendering,
        v.in_use == 0,
        v.live == 0,
        v.pool_size >= 2,
        !v.render_dropped,
    ensures
        v.wf(),
{
}

/// A buffer's size is its width and its height.
pub proof fn law_a_buffer_tells_its_size<B>(buffer: SurfaceBuffer<B>, r: (u32, u32))
    requires
        call_ensures(SurfaceBuffer::<B>::size, (&buffer,), r),
    ensures
        r.0 == buffer.width,
        r.1 == buffer.height,
{
}

} // verus!
