//! The buffer pool: a ring of buffers rotating through
//! free → rendering → published → in use → free.
//!
//! The newest published frame replaces an unconsumed older one, so the shell
//! always acquires the latest frame. While the shell holds every buffer,
//! frames are dropped, not queued, and the release of a buffer renders again.

use vstd::prelude::*;

use super::{pack_size, unpack_size, ExportOptions};
#[allow(unused_imports)]
use super::{at_least_two, packed};

verus! {

/// Milliseconds between two tries to allocate a buffer with no frame
/// outstanding: rendering again at once would spin on a lasting failure.
pub const RETRY_BACKOFF_MS: u64 = 100;

/// One exportable buffer: its size in pixels and the storage behind it.
pub struct SurfaceBuffer<B> {
    /// Width in pixels.
    pub width: u32,
    /// Height in pixels.
    pub height: u32,
    /// What the platform renders into and hands out.
    pub storage: B,
}

impl<B> SurfaceBuffer<B> {
    /// The buffer is `width`×`height`.
    pub open spec fn sized(self, width: u32, height: u32) -> bool {
        self.width == width && self.height == height
    }

    /// Width and height in pixels.
    pub fn size(&self) -> (r: (u32, u32))
        ensures
            r == (self.width, self.height),
    {
        (self.width, self.height)
    }
}

/// The buffers of `s` that are `width`×`height`, in order.
pub open spec fn of_size<B>(s: Seq<SurfaceBuffer<B>>, width: u32, height: u32) -> Seq<
    SurfaceBuffer<B>,
> {
    s.filter(|b: SurfaceBuffer<B>| b.sized(width, height))
}

/// The buffers of `s` of any other size, in order.
pub open spec fn not_of_size<B>(s: Seq<SurfaceBuffer<B>>, width: u32, height: u32) -> Seq<
    SurfaceBuffer<B>,
> {
    s.filter(|b: SurfaceBuffer<B>| !b.sized(width, height))
}

/// What a pool holds.
#[verifier::ext_equal]
pub struct PoolView<B> {
    /// Buffers ready to render into, possibly of a stale size.
    pub free: Seq<SurfaceBuffer<B>>,
    /// The newest rendered frame that was not acquired yet.
    pub published: Option<SurfaceBuffer<B>>,
    /// Buffers out of the pool for good, waiting for their names to be deleted.
    pub retired: Seq<SurfaceBuffer<B>>,
    /// A buffer is being rendered into.
    pub rendering: bool,
    /// Frames in the shell's hands.
    pub in_use: nat,
    /// Buffers counted against the pool size.
    pub live: nat,
    /// The most buffers that may be live.
    pub pool_size: nat,
    /// Width of the next rendered frame.
    pub width: u32,
    /// Height of the next rendered frame.
    pub height: u32,
    /// The render thread is to end.
    pub shutdown: bool,
    /// mpv signalled an update that was not serviced yet.
    pub update_pending: bool,
    /// Render even without a new frame.
    pub force_render: bool,
    /// A frame was displayed and mpv was not told yet.
    pub swap_pending: bool,
    /// A wanted render was dropped for want of a buffer.
    pub render_dropped: bool,
    /// The render thread's buffers are gone.
    pub closed: bool,
}

impl<B> PoolView<B> {
    /// Buffers that are somewhere in the rotation.
    pub open spec fn held(self) -> nat {
        self.free.len() + (if self.published is Some {
            1nat
        } else {
            0nat
        }) + (if self.rendering {
            1nat
        } else {
            0nat
        }) + self.in_use
    }

    /// The pool's bookkeeping is sound: every live buffer is in the rotation,
    /// no more of them are live than the pool size allows, and a dropped
    /// render is owed to a frame that the shell still holds.
    pub open spec fn wf(self) -> bool {
        &&& self.pool_size >= 2
        &&& self.live <= self.pool_size
        &&& self.held() <= self.live
        &&& !self.closed ==> self.held() == self.live
        &&& self.render_dropped ==> self.in_use > 0
    }

    /// The free buffers of the current size, in order.
    pub open spec fn fresh(self) -> Seq<SurfaceBuffer<B>> {
        of_size(self.free, self.width, self.height)
    }

    /// The free buffers of any other size, in order.
    pub open spec fn stale(self) -> Seq<SurfaceBuffer<B>> {
        not_of_size(self.free, self.width, self.height)
    }

    /// The published frame, unless it is of another size.
    pub open spec fn fresh_published(self) -> Option<SurfaceBuffer<B>> {
        match self.published {
            Some(b) => if b.sized(self.width, self.height) {
                Some(b)
            } else {
                None
            },
            None => None,
        }
    }

    /// The published frame where it is of another size.
    pub open spec fn stale_published(self) -> Seq<SurfaceBuffer<B>> {
        match self.published {
            Some(b) => if b.sized(self.width, self.height) {
                Seq::empty()
            } else {
                seq![b]
            },
            None => Seq::empty(),
        }
    }

    /// The pool without its stale free buffers.
    pub open spec fn without_stale_free(self) -> Self {
        PoolView {
            free: self.fresh(),
            live: (self.live - self.stale().len()) as nat,
            ..self
        }
    }

    /// The pool without its stale published frame.
    pub open spec fn without_stale_published(self) -> Self {
        PoolView {
            published: self.fresh_published(),
            live: (self.live - self.stale_published().len()) as nat,
            ..self
        }
    }

    /// What [`Pool::begin_render`] leaves, deletes and answers.
    pub open spec fn render_start(self) -> (Self, Seq<SurfaceBuffer<B>>, RenderNext<B>) {
        let kept = self.without_stale_free();
        let rest = kept.without_stale_published();
        if self.width == 0 || self.height == 0 {
            (self, Seq::empty(), RenderNext::Paused)
        } else if kept.free.len() > 0 {
            (
                PoolView { free: kept.free.drop_last(), rendering: true, ..kept },
                self.stale(),
                RenderNext::Into(kept.free.last()),
            )
        } else if rest.live < rest.pool_size {
            (
                rest,
                self.stale() + self.stale_published(),
                RenderNext::Allocate { width: self.width, height: self.height },
            )
        } else {
            match rest.published {
                Some(b) => (
                    PoolView { published: None, rendering: true, ..rest },
                    self.stale() + self.stale_published(),
                    RenderNext::Into(b),
                ),
                None => (
                    PoolView { render_dropped: true, ..rest },
                    self.stale() + self.stale_published(),
                    RenderNext::Dropped,
                ),
            }
        }
    }

    /// What [`Pool::allocated`] leaves and answers.
    pub open spec fn alloc_done(self, width: u32, height: u32, storage: Option<B>) -> (
        Self,
        AllocNext<B>,
    ) {
        match storage {
            Some(storage) => (
                PoolView { live: self.live + 1, rendering: true, ..self },
                AllocNext::Into(SurfaceBuffer { width, height, storage }),
            ),
            None => match self.published {
                Some(b) => (
                    PoolView { published: None, rendering: true, ..self },
                    AllocNext::Into(b),
                ),
                None => if self.in_use == 0 {
                    (self, AllocNext::Retry)
                } else {
                    (PoolView { render_dropped: true, ..self }, AllocNext::Dropped)
                },
            },
        }
    }

    /// The pool once the render into `buffer` ended.
    pub open spec fn render_end(self, buffer: SurfaceBuffer<B>, rendered: bool) -> Self {
        if !rendered {
            PoolView { free: self.free.push(buffer), rendering: false, ..self }
        } else {
            PoolView {
                free: match self.published {
                    Some(previous) => self.free.push(previous),
                    None => self.free,
                },
                published: Some(buffer),
                rendering: false,
                ..self
            }
        }
    }

    /// The pool once the published frame is in the shell's hands.
    pub open spec fn taken(self) -> Self {
        match self.published {
            Some(_) => PoolView { published: None, in_use: self.in_use + 1, ..self },
            None => self,
        }
    }

    /// A buffer became available: a dropped render is wanted again.
    pub open spec fn rearmed(self) -> Self {
        if self.render_dropped {
            PoolView { render_dropped: false, force_render: true, ..self }
        } else {
            self
        }
    }

    /// The pool once a frame came back.
    pub open spec fn returned(self, buffer: SurfaceBuffer<B>) -> Self {
        PoolView {
            in_use: (self.in_use - 1) as nat,
            free: self.free.push(buffer),
            ..self
        }.rearmed()
    }

    /// The pool once a frame's buffer left it for good.
    pub open spec fn retired_buffer(self, buffer: SurfaceBuffer<B>) -> Self {
        PoolView {
            in_use: (self.in_use - 1) as nat,
            live: (self.live - 1) as nat,
            retired: self.retired.push(buffer),
            ..self
        }.rearmed()
    }

    /// The pool once its requests are taken up.
    pub open spec fn served(self) -> Self {
        PoolView {
            retired: Seq::empty(),
            swap_pending: false,
            force_render: false,
            update_pending: false,
            ..self
        }
    }

    /// The pool once the render thread's buffers are gone.
    pub open spec fn torn_down(self) -> Self {
        PoolView {
            free: Seq::empty(),
            retired: Seq::empty(),
            published: None,
            closed: true,
            ..self
        }
    }

    /// The pool once the next frame's size is set.
    pub open spec fn resized(self, width: u32, height: u32) -> Self {
        PoolView { width, height, force_render: true, ..self }
    }
}

/// What to render into.
pub enum RenderNext<B> {
    /// No size yet: rendering waits for one.
    Paused,
    /// This buffer.
    Into(SurfaceBuffer<B>),
    /// A new buffer of this size, if one can be had ([`Pool::allocated`]).
    Allocate {
        /// Width in pixels.
        width: u32,
        /// Height in pixels.
        height: u32,
    },
    /// Nothing: the shell holds every buffer and the frame is dropped.
    Dropped,
}

/// How a render starts.
pub struct RenderStart<B> {
    /// Buffers of a stale size, out of the pool: delete their names.
    pub deleted: Vec<SurfaceBuffer<B>>,
    /// What to render into.
    pub next: RenderNext<B>,
}

/// What to render into after an attempt to allocate.
pub enum AllocNext<B> {
    /// This buffer.
    Into(SurfaceBuffer<B>),
    /// Nothing, and no frame is outstanding whose release would render
    /// again: try again on a timer.
    Retry,
    /// Nothing: the frame is dropped until a buffer comes back.
    Dropped,
}

/// One round of the render thread.
pub struct Service<B> {
    /// Retired buffers whose names are to be deleted.
    pub retired: Vec<SurfaceBuffer<B>>,
    /// End the thread; nothing else is to be done.
    pub stop: bool,
    /// Tell mpv that a frame was displayed.
    pub report_swap: bool,
    /// Render whether or not mpv has a new frame.
    pub force: bool,
    /// mpv signalled an update.
    pub updated: bool,
}

impl<B> Service<B> {
    /// Whether this round renders: mpv has a new frame (`has_frame`, asked
    /// only after an update), or a render was asked for.
    pub fn wants_render(&self, has_frame: bool) -> (r: bool)
        ensures
            r == ((self.updated && has_frame) || self.force),
    {
        (self.updated && has_frame) || self.force
    }
}

/// The pool's state, shared by the render thread and the shell.
pub struct Pool<B> {
    free: Vec<SurfaceBuffer<B>>,
    published: Option<SurfaceBuffer<B>>,
    retired: Vec<SurfaceBuffer<B>>,
    rendering: bool,
    in_use: usize,
    live: usize,
    pool_size: usize,
    target_size: u64,
    shutdown: bool,
    update_pending: bool,
    force_render: bool,
    swap_pending: bool,
    render_dropped: bool,
    closed: bool,
}

impl<B> View for Pool<B> {
    type V = PoolView<B>;

    closed spec fn view(&self) -> PoolView<B> {
        PoolView {
            free: self.free@,
            published: self.published,
            retired: self.retired@,
            rendering: self.rendering,
            in_use: self.in_use as nat,
            live: self.live as nat,
            pool_size: self.pool_size as nat,
            width: (self.target_size / 0x1_0000_0000) as u32,
            height: (self.target_size % 0x1_0000_0000) as u32,
            shutdown: self.shutdown,
            update_pending: self.update_pending,
            force_render: self.force_render,
            swap_pending: self.swap_pending,
            render_dropped: self.render_dropped,
            closed: self.closed,
        }
    }
}

/// The free buffers of one size and those of any other make up all of them.
pub(crate) proof fn lemma_filter_split<B>(s: Seq<SurfaceBuffer<B>>, w: u32, h: u32)
    ensures
        of_size(s, w, h).len() + not_of_size(s, w, h).len() == s.len(),
    decreases s.len(),
{
    reveal(Seq::filter);
    if s.len() > 0 {
        lemma_filter_split(s.drop_last(), w, h);
    }
}

impl<B> Pool<B> {
    /// An empty pool for frames of the size that `options` gives.
    pub fn new(options: ExportOptions) -> (r: Self)
        ensures
            r@ == (PoolView::<B> {
                free: Seq::empty(),
                published: None,
                retired: Seq::empty(),
                rendering: false,
                in_use: 0,
                live: 0,
                pool_size: at_least_two(options.pool_size) as nat,
                width: options.width,
                height: options.height,
                shutdown: false,
                update_pending: false,
                force_render: false,
                swap_pending: false,
                render_dropped: false,
                closed: false,
            }),
            r@.wf(),
    {
        let pool_size: usize = if options.pool_size < 2 {
            2
        } else {
            options.pool_size
        };
        proof {
            super::law_unpack_of_pack(options.width, options.height);
        }
        Pool {
            free: Vec::new(),
            published: None,
            retired: Vec::new(),
            rendering: false,
            in_use: 0,
            live: 0,
            pool_size,
            target_size: pack_size(options.width, options.height),
            shutdown: false,
            update_pending: false,
            force_render: false,
            swap_pending: false,
            render_dropped: false,
            closed: false,
        }
    }

    /// Set the size of the next rendered frame, and have one rendered even
    /// if playback produces none.
    pub fn set_target_size(&mut self, width: u32, height: u32)
        ensures
            final(self)@ == old(self)@.resized(width, height),
            old(self)@.wf() ==> final(self)@.wf(),
    {
        proof {
            super::law_unpack_of_pack(width, height);
        }
        self.target_size = pack_size(width, height);
        self.force_render = true;
    }

    /// Note that mpv signalled an update.
    pub fn signal_update(&mut self)
        ensures
            final(self)@ == (PoolView { update_pending: true, ..old(self)@ }),
            old(self)@.wf() ==> final(self)@.wf(),
    {
        self.update_pending = true;
    }

    /// Have the render thread end.
    pub fn request_shutdown(&mut self)
        ensures
            final(self)@ == (PoolView { shutdown: true, ..old(self)@ }),
            old(self)@.wf() ==> final(self)@.wf(),
    {
        self.shutdown = true;
    }

    /// Have the next round render again after an allocation failed with no
    /// frame outstanding. Returns the milliseconds to wait before it, unless
    /// something else wakes the thread up.
    pub fn retry_render(&mut self) -> (r: u64)
        ensures
            r == RETRY_BACKOFF_MS,
            final(self)@ == (PoolView { force_render: true, ..old(self)@ }),
            old(self)@.wf() ==> final(self)@.wf(),
    {
        self.force_render = true;
        RETRY_BACKOFF_MS
    }

    /// Whether a published frame waits to be acquired.
    pub fn has_published(&self) -> (r: bool)
        ensures
            r == (self@.published is Some),
    {
        self.published.is_some()
    }

    /// The frames in the shell's hands.
    pub fn in_use(&self) -> (r: usize)
        ensures
            r == self@.in_use,
    {
        self.in_use
    }

    /// Whether a render may begin: the render thread's buffers are there, and
    /// none is being rendered into.
    pub fn can_render(&self) -> (r: bool)
        ensures
            r == (!self@.closed && !self@.rendering),
    {
        !self.closed && !self.rendering
    }

    /// Whether a buffer is being rendered into.
    pub fn is_rendering(&self) -> (r: bool)
        ensures
            r == self@.rendering,
    {
        self.rendering
    }

    /// Whether the render thread has anything to do.
    pub fn has_work(&self) -> (r: bool)
        ensures
            r == (self@.shutdown || self@.update_pending || self@.force_render
                || self@.swap_pending || self@.retired.len() > 0),
    {
        self.shutdown || self.update_pending || self.force_render || self.swap_pending
            || self.retired.len() > 0
    }

    /// Take the work of one round: the retired buffers, and, unless the
    /// thread is to end, every request made since the last round.
    pub fn begin_service(&mut self) -> (r: Service<B>)
        ensures
            r.retired@ == old(self)@.retired,
            r.stop == old(self)@.shutdown,
            old(self)@.shutdown ==> {
                &&& !r.report_swap && !r.force && !r.updated
                &&& final(self)@ == (PoolView { retired: Seq::empty(), ..old(self)@ })
            },
            !old(self)@.shutdown ==> {
                &&& r.report_swap == old(self)@.swap_pending
                &&& r.force == old(self)@.force_render
                &&& r.updated == old(self)@.update_pending
                &&& final(self)@ == old(self)@.served()
            },
            old(self)@.wf() ==> final(self)@.wf(),
    {
        let mut retired: Vec<SurfaceBuffer<B>> = Vec::new();
        std::mem::swap(&mut retired, &mut self.retired);
        if self.shutdown {
            return Service {
                retired,
                stop: true,
                report_swap: false,
                force: false,
                updated: false,
            };
        }
        let report_swap = self.swap_pending;
        let force = self.force_render;
        let updated = self.update_pending;
        self.swap_pending = false;
        self.force_render = false;
        self.update_pending = false;
        Service { retired, stop: false, report_swap, force, updated }
    }

    /// Take the stale free buffers out of the pool.
    fn drop_stale_free(&mut self) -> (deleted: Vec<SurfaceBuffer<B>>)
        requires
            old(self)@.wf(),
            !old(self)@.closed,
        ensures
            deleted@ == old(self)@.stale(),
            final(self)@ == old(self)@.without_stale_free(),
            final(self)@.wf(),
    {
        let (width, height) = unpack_size(self.target_size);
        let ghost all = self.free@;
        let ghost is_fresh = |b: SurfaceBuffer<B>| b.sized(width, height);
        let ghost is_stale = |b: SurfaceBuffer<B>| !b.sized(width, height);
        let mut rest: Vec<SurfaceBuffer<B>> = Vec::new();
        std::mem::swap(&mut rest, &mut self.free);
        let mut kept: Vec<SurfaceBuffer<B>> = Vec::new();
        let mut deleted: Vec<SurfaceBuffer<B>> = Vec::new();
        let ghost mut done: int = 0;
        proof {
            reveal(Seq::filter);
            assert(all.take(0) == Seq::<SurfaceBuffer<B>>::empty());
            assert(all.skip(0) == all);
        }
        while rest.len() > 0
            invariant
                0 <= done <= all.len(),
                rest@ == all.skip(done),
                kept@ == all.take(done).filter(is_fresh),
                deleted@ == all.take(done).filter(is_stale),
                is_fresh == (|b: SurfaceBuffer<B>| b.sized(width, height)),
                is_stale == (|b: SurfaceBuffer<B>| !b.sized(width, height)),
            decreases rest@.len(),
        {
            let buffer = rest.remove(0);
            proof {
                reveal(Seq::filter);
                assert(buffer == all[done]);
                assert(all.take(done + 1).drop_last() == all.take(done));
                assert(all.take(done + 1).last() == buffer);
                assert(rest@ == all.skip(done + 1));
                done = done + 1;
            }
            if buffer.width == width && buffer.height == height {
                kept.push(buffer);
            } else {
                deleted.push(buffer);
            }
        }
        proof {
            assert(all.take(done) == all);
            lemma_filter_split(all, width, height);
        }
        self.free = kept;
        self.live = self.live - deleted.len();
        deleted
    }

    /// Take the published frame out of the pool where it is of a stale size.
    fn drop_stale_published(&mut self, deleted: &mut Vec<SurfaceBuffer<B>>)
        requires
            old(self)@.wf(),
            !old(self)@.closed,
        ensures
            final(deleted)@ == old(deleted)@ + old(self)@.stale_published(),
            final(self)@ == old(self)@.without_stale_published(),
            final(self)@.wf(),
    {
        let (width, height) = unpack_size(self.target_size);
        let is_stale = match &self.published {
            Some(b) => b.width != width || b.height != height,
            None => false,
        };
        let ghost before = deleted@;
        if is_stale {
            if let Some(b) = self.published.take() {
                deleted.push(b);
                self.live = self.live - 1;
                assert(deleted@ == before + seq![b]);
            }
        } else {
            assert(deleted@ == before + Seq::<SurfaceBuffer<B>>::empty());
        }
    }

    /// Choose what the current frame is rendered into.
    ///
    /// Buffers of a stale size leave the pool. A free buffer is used before
    /// a new one is allocated, and a new one is allocated before an
    /// unconsumed published frame is taken back, so that a source that
    /// updates all the time still leaves the shell a frame to acquire. With
    /// every buffer in the shell's hands the frame is dropped, and the
    /// release of a buffer renders again.
    pub fn begin_render(&mut self) -> (r: RenderStart<B>)
        requires
            old(self)@.wf(),
            !old(self)@.closed,
            !old(self)@.rendering,
        ensures
            (final(self)@, r.deleted@, r.next) == old(self)@.render_start(),
            final(self)@.wf(),
    {
        let (width, height) = unpack_size(self.target_size);
        if width == 0 || height == 0 {
            return RenderStart { deleted: Vec::new(), next: RenderNext::Paused };
        }
        let mut deleted = self.drop_stale_free();
        if let Some(buffer) = self.free.pop() {
            self.rendering = true;
            return RenderStart { deleted, next: RenderNext::Into(buffer) };
        }
        self.drop_stale_published(&mut deleted);
        if self.live < self.pool_size {
            return RenderStart { deleted, next: RenderNext::Allocate { width, height } };
        }
        match self.published.take() {
            Some(buffer) => {
                self.rendering = true;
                RenderStart { deleted, next: RenderNext::Into(buffer) }
            },
            None => {
                self.render_dropped = true;
                RenderStart { deleted, next: RenderNext::Dropped }
            },
        }
    }

    /// Continue a render that wanted a new `width`×`height` buffer, with the
    /// storage that was allocated for it, if any. Without one the published
    /// frame is rendered over, if there is one.
    pub fn allocated(&mut self, width: u32, height: u32, storage: Option<B>) -> (r: AllocNext<B>)
        requires
            old(self)@.wf(),
            !old(self)@.closed,
            !old(self)@.rendering,
            old(self)@.live < old(self)@.pool_size,
        ensures
            (final(self)@, r) == old(self)@.alloc_done(width, height, storage),
            final(self)@.wf(),
    {
        match storage {
            Some(storage) => {
                self.live = self.live + 1;
                self.rendering = true;
                AllocNext::Into(SurfaceBuffer { width, height, storage })
            },
            None => {
                if let Some(buffer) = self.published.take() {
                    self.rendering = true;
                    AllocNext::Into(buffer)
                } else if self.in_use == 0 {
                    AllocNext::Retry
                } else {
                    self.render_dropped = true;
                    AllocNext::Dropped
                }
            },
        }
    }

    /// End a render into `buffer`: publish it, replacing an unconsumed older
    /// frame, or give it back where mpv failed to render. Returns whether a
    /// frame was published.
    pub fn finish_render(&mut self, buffer: SurfaceBuffer<B>, rendered: bool) -> (r: bool)
        requires
            old(self)@.wf(),
            old(self)@.rendering,
        ensures
            final(self)@ == old(self)@.render_end(buffer, rendered),
            r == rendered,
            final(self)@.wf(),
    {
        self.rendering = false;
        if !rendered {
            self.free.push(buffer);
            return false;
        }
        if let Some(previous) = self.published.take() {
            self.free.push(previous);
        }
        self.published = Some(buffer);
        true
    }

    /// Hand the newest published frame to the shell, if one waits.
    pub fn take_published(&mut self) -> (r: Option<SurfaceBuffer<B>>)
        requires
            old(self)@.wf(),
        ensures
            r == old(self)@.published,
            final(self)@ == old(self)@.taken(),
            final(self)@.wf(),
    {
        match self.published.take() {
            Some(buffer) => {
                self.in_use = self.in_use + 1;
                Some(buffer)
            },
            None => None,
        }
    }

    /// A buffer became available: have a dropped render run again. Returns
    /// whether one was dropped.
    fn rearm_dropped_render(&mut self) -> (r: bool)
        ensures
            final(self)@ == old(self)@.rearmed(),
            r == old(self)@.render_dropped,
    {
        if self.render_dropped {
            self.render_dropped = false;
            self.force_render = true;
            true
        } else {
            false
        }
    }

    /// Take a frame back into the pool. Returns whether that renders a
    /// dropped frame again.
    pub fn return_buffer(&mut self, buffer: SurfaceBuffer<B>) -> (r: bool)
        requires
            old(self)@.wf(),
            old(self)@.in_use > 0,
        ensures
            final(self)@ == old(self)@.returned(buffer),
            r == old(self)@.render_dropped,
            final(self)@.wf(),
    {
        self.in_use = self.in_use - 1;
        self.free.push(buffer);
        self.rearm_dropped_render()
    }

    /// Take a frame's buffer out of the pool for good: its memory now backs
    /// something that is released on a schedule of its own, so nothing may
    /// render into it again. Returns whether that renders a dropped frame
    /// again.
    pub fn retire_buffer(&mut self, buffer: SurfaceBuffer<B>) -> (r: bool)
        requires
            old(self)@.wf(),
            old(self)@.in_use > 0,
        ensures
            final(self)@ == old(self)@.retired_buffer(buffer),
            r == old(self)@.render_dropped,
            final(self)@.wf(),
    {
        self.in_use = self.in_use - 1;
        self.live = self.live - 1;
        self.retired.push(buffer);
        self.rearm_dropped_render()
    }

    /// Note that a frame was displayed.
    pub fn presented(&mut self)
        ensures
            final(self)@ == (PoolView { swap_pending: true, ..old(self)@ }),
            old(self)@.wf() ==> final(self)@.wf(),
    {
        self.swap_pending = true;
    }

    /// Take every buffer that the render thread is to delete when it ends.
    /// Frames in the shell's hands stay theirs.
    pub fn close(&mut self) -> (r: Vec<SurfaceBuffer<B>>)
        requires
            old(self)@.wf(),
        ensures
            r@ == old(self)@.free + old(self)@.retired + (match old(self)@.published {
                Some(b) => seq![b],
                None => Seq::empty(),
            }),
            final(self)@ == old(self)@.torn_down(),
            final(self)@.wf(),
    {
        let mut r: Vec<SurfaceBuffer<B>> = Vec::new();
        let mut retired: Vec<SurfaceBuffer<B>> = Vec::new();
        std::mem::swap(&mut r, &mut self.free);
        std::mem::swap(&mut retired, &mut self.retired);
        r.append(&mut retired);
        if let Some(b) = self.published.take() {
            r.push(b);
        }
        self.closed = true;
        assert(r@ =~= old(self)@.free + old(self)@.retired + (match old(self)@.published {
            Some(b) => seq![b],
            None => Seq::empty(),
        }));
        r
    }
}

/// A new pool is sound and renders its first frame into a new buffer of the
/// attached size.
pub proof fn law_first_render_allocates<B>(v: PoolView<B>)
    requires
        v.wf(),
        !v.closed,
        v.live == 0,
        v.width > 0,
        v.height > 0,
    ensures
        v.render_start().2 == (RenderNext::<B>::Allocate { width: v.width, height: v.height }),
{
    reveal(Seq::filter);
}

/// Without a size nothing is rendered and nothing changes.
pub proof fn law_zero_size_pauses<B>(v: PoolView<B>)
    requires
        v.width == 0 || v.height == 0,
    ensures
        v.render_start() == (v, Seq::<SurfaceBuffer<B>>::empty(), RenderNext::<B>::Paused),
{
}

/// Every element that a filter keeps satisfies it.
proof fn lemma_filter_holds<B>(s: Seq<SurfaceBuffer<B>>, w: u32, h: u32)
    ensures
        forall|i: int|
            0 <= i < of_size(s, w, h).len() ==> (#[trigger] of_size(s, w, h)[i]).sized(w, h),
    decreases s.len(),
{
    reveal(Seq::filter);
    if s.len() > 0 {
        lemma_filter_holds(s.drop_last(), w, h);
    }
}

/// A render goes into a buffer of the current size, a new buffer is asked for
/// at that size, and no free buffer of another size stays behind.
pub proof fn law_renders_at_the_current_size<B>(v: PoolView<B>)
    requires
        v.wf(),
        v.width > 0,
        v.height > 0,
    ensures
        match v.render_start().2 {
            RenderNext::Into(b) => b.sized(v.width, v.height),
            RenderNext::Allocate { width, height } => width == v.width && height == v.height,
            RenderNext::Dropped => true,
            RenderNext::Paused => false,
        },
        forall|i: int|
            0 <= i < v.render_start().0.free.len() ==> (
            #[trigger] v.render_start().0.free[i]).sized(v.width, v.height),
{
    lemma_filter_holds(v.free, v.width, v.height);
    let fresh = v.fresh();
    if fresh.len() > 0 {
        assert(fresh[fresh.len() - 1].sized(v.width, v.height));
    }
}

/// Starting a render loses no buffer: each one that leaves the count is
/// handed out for deletion.
pub proof fn law_deleted_buffers_leave_the_count<B>(v: PoolView<B>)
    requires
        v.wf(),
        !v.closed,
        !v.rendering,
    ensures
        v.render_start().0.live + v.render_start().1.len() == v.live,
        v.render_start().0.held() + v.render_start().1.len() == v.held(),
        v.render_start().0.in_use == v.in_use,
        v.render_start().0.wf(),
{
    lemma_filter_split(v.free, v.width, v.height);
}

/// Growing the pool leaves an unconsumed frame of the current size
/// acquirable.
pub proof fn law_growth_keeps_the_published_frame<B>(v: PoolView<B>)
    requires
        v.render_start().2 is Allocate,
        v.published is Some,
        v.published->0.sized(v.width, v.height),
    ensures
        v.render_start().0.published == v.published,
{
}

/// The shell acquires the newest rendered frame: of two frames published one
/// after the other, the second, and the first goes back to the free buffers.
pub proof fn law_newest_frame_wins<B>(
    v: PoolView<B>,
    first: SurfaceBuffer<B>,
    second: SurfaceBuffer<B>,
)
    ensures
        ({
            let one = v.render_end(first, true);
            let two = PoolView { rendering: true, ..one }.render_end(second, true);
            &&& one.published == Some(first)
            &&& two.published == Some(second)
            &&& two.free == one.free.push(first)
            &&& two.taken().published is None
            &&& two.taken().in_use == v.in_use + 1
        }),
{
}

/// A failed render publishes nothing and keeps its buffer in the rotation.
pub proof fn law_failed_render_keeps_the_frame<B>(v: PoolView<B>, buffer: SurfaceBuffer<B>)
    ensures
        v.render_end(buffer, false).published == v.published,
        v.render_end(buffer, false).free == v.free.push(buffer),
{
}

/// A frame is dropped only while the shell holds every buffer of the pool.
pub proof fn law_frames_drop_only_when_all_are_held<B>(v: PoolView<B>)
    requires
        v.wf(),
        !v.closed,
        !v.rendering,
        v.render_start().2 is Dropped,
    ensures
        v.in_use == v.pool_size,
        v.render_start().0.render_dropped,
{
    lemma_filter_split(v.free, v.width, v.height);
}

/// After a failed allocation a render is retried on a timer only where no
/// frame is outstanding; else it is owed to a frame that is.
pub proof fn law_failed_allocation_is_retried<B>(v: PoolView<B>, width: u32, height: u32)
    requires
        v.wf(),
    ensures
        match v.alloc_done(width, height, None).1 {
            AllocNext::Into(b) => v.published == Some(b),
            AllocNext::Retry => v.published is None && v.in_use == 0,
            AllocNext::Dropped => v.published is None && v.in_use > 0 && v.alloc_done(
                width,
                height,
                None,
            ).0.render_dropped,
        },
{
}

/// The pool can render again once a frame comes back: into it, or into a new
/// buffer.
pub proof fn law_a_returned_frame_makes_room<B>(v: PoolView<B>, buffer: SurfaceBuffer<B>)
    requires
        v.wf(),
        !v.closed,
        !v.rendering,
        v.in_use > 0,
        v.width > 0,
        v.height > 0,
    ensures
        v.returned(buffer).wf(),
        v.returned(buffer).render_start().2 is Into
            || v.returned(buffer).render_start().2 is Allocate,
        v.render_dropped ==> v.returned(buffer).force_render,
{
    let r = v.returned(buffer);
    lemma_filter_split(r.free, r.width, r.height);
    assert(r.live == v.live);
    assert(r.free.len() > 0);
}

/// The pool can render again once a frame's buffer left it for good.
pub proof fn law_a_retired_buffer_makes_room<B>(v: PoolView<B>, buffer: SurfaceBuffer<B>)
    requires
        v.wf(),
        !v.closed,
        !v.rendering,
        v.in_use > 0,
        v.width > 0,
        v.height > 0,
    ensures
        v.retired_buffer(buffer).wf(),
        v.retired_buffer(buffer).render_start().2 is Into
            || v.retired_buffer(buffer).render_start().2 is Allocate,
        v.render_dropped ==> v.retired_buffer(buffer).force_render,
        v.retired_buffer(buffer).retired.last() == buffer,
{
    let r = v.retired_buffer(buffer);
    lemma_filter_split(r.free, r.width, r.height);
}

/// A size set while the shell holds every buffer is not lost: the first frame
/// that comes back has the frame rendered again, at that size.
pub proof fn law_a_size_set_while_exhausted_is_rendered<B>(
    v: PoolView<B>,
    width: u32,
    height: u32,
    buffer: SurfaceBuffer<B>,
)
    requires
        v.wf(),
        !v.closed,
        !v.rendering,
        width > 0,
        height > 0,
        v.resized(width, height).served().render_start().2 is Dropped,
    ensures
        v.resized(width, height).force_render,
        ({
            let dropped = v.resized(width, height).served().render_start().0;
            let back = dropped.returned(buffer);
            &&& back.force_render
            &&& !back.render_dropped
            &&& match back.render_start().2 {
                RenderNext::Into(b) => b.sized(width, height),
                RenderNext::Allocate { width: w, height: h } => w == width && h == height,
                RenderNext::Dropped => false,
                RenderNext::Paused => false,
            }
        }),
{
    let asked = v.resized(width, height).served();
    let dropped = asked.render_start().0;
    law_deleted_buffers_leave_the_count(asked);
    law_frames_drop_only_when_all_are_held(asked);
    law_a_returned_frame_makes_room(dropped, buffer);
    law_renders_at_the_current_size(dropped.returned(buffer));
}

/// Frames in the shell's hands stay theirs through a resize and through the
/// end of the render thread.
pub proof fn law_frames_outlive_resize_and_teardown<B>(v: PoolView<B>, width: u32, height: u32)
    requires
        v.wf(),
    ensures
        v.resized(width, height).in_use == v.in_use,
        v.torn_down().in_use == v.in_use,
        v.torn_down().wf(),
{
}

/// A render that got a buffer ends with that buffer published, or free again
/// where mpv failed, and the pool sound either way.
pub proof fn law_a_render_keeps_the_pool_sound<B>(v: PoolView<B>, rendered: bool)
    requires
        v.wf(),
        !v.closed,
        !v.rendering,
        v.render_start().2 is Into,
    ensures
        ({
            let buffer = v.render_start().2->Into_0;
            let end = v.render_start().0.render_end(buffer, rendered);
            &&& end.wf()
            &&& !end.rendering
            &&& rendered ==> end.published == Some(buffer)
            &&& !rendered ==> end.free.last() == buffer
        }),
{
    law_deleted_buffers_leave_the_count(v);
}

/// A pool, and the buffer that is being rendered into.
#[verifier::ext_equal]
pub struct PoolRun<B> {
    /// The pool.
    pub pool: PoolView<B>,
    /// The buffer that is being rendered into.
    pub target: Option<SurfaceBuffer<B>>,
}

/// One thing that happens to a pool.
pub enum PoolStep<B> {
    /// A render begins.
    Begin,
    /// A buffer was allocated, or not.
    Allocated(u32, u32, Option<B>),
    /// A render ended, well or not.
    Finish(bool),
    /// The shell acquires the published frame.
    Take,
    /// A frame comes back.
    Return(SurfaceBuffer<B>),
    /// A frame's buffer leaves for good.
    Retire(SurfaceBuffer<B>),
    /// The size of the next frame is set.
    Resize(u32, u32),
    /// mpv signals an update.
    Update,
    /// A frame was displayed.
    Present,
    /// A render is to be tried again.
    Retry,
    /// The requests are taken up.
    Serve,
    /// The render thread is to end.
    Shutdown,
    /// The render thread's buffers go.
    Close,
}

impl<B> PoolRun<B> {
    /// What is left after `step`.
    pub open spec fn after(self, step: PoolStep<B>) -> Self {
        let pool = self.pool;
        match step {
            PoolStep::Begin => PoolRun {
                pool: pool.render_start().0,
                target: match pool.render_start().2 {
                    RenderNext::Into(b) => Some(b),
                    _ => None,
                },
            },
            PoolStep::Allocated(width, height, storage) => PoolRun {
                pool: pool.alloc_done(width, height, storage).0,
                target: match pool.alloc_done(width, height, storage).1 {
                    AllocNext::Into(b) => Some(b),
                    _ => None,
                },
            },
            PoolStep::Finish(rendered) => match self.target {
                Some(b) => PoolRun { pool: pool.render_end(b, rendered), target: None },
                None => self,
            },
            PoolStep::Take => PoolRun { pool: pool.taken(), ..self },
            PoolStep::Return(b) => PoolRun { pool: pool.returned(b), ..self },
            PoolStep::Retire(b) => PoolRun { pool: pool.retired_buffer(b), ..self },
            PoolStep::Resize(width, height) => PoolRun {
                pool: pool.resized(width, height),
                ..self
            },
            PoolStep::Update => PoolRun {
                pool: PoolView { update_pending: true, ..pool },
                ..self
            },
            PoolStep::Present => PoolRun {
                pool: PoolView { swap_pending: true, ..pool },
                ..self
            },
            PoolStep::Retry => PoolRun { pool: PoolView { force_render: true, ..pool }, ..self },
            PoolStep::Serve => PoolRun { pool: pool.served(), ..self },
            PoolStep::Shutdown => PoolRun { pool: PoolView { shutdown: true, ..pool }, ..self },
            PoolStep::Close => PoolRun { pool: pool.torn_down(), ..self },
        }
    }

    /// What is left after the first `n` of `steps`.
    pub open spec fn after_first(self, steps: Seq<PoolStep<B>>, n: nat) -> Self
        decreases n,
    {
        if n == 0 {
            self
        } else {
            self.after_first(steps, (n - 1) as nat).after(steps[n - 1])
        }
    }

    /// `buffer` is out of the pool: not free, not published, not rendered
    /// into.
    pub open spec fn is_out(self, buffer: SurfaceBuffer<B>) -> bool {
        &&& !self.pool.free.contains(buffer)
        &&& self.pool.published != Some(buffer)
        &&& self.target != Some(buffer)
    }

    /// No buffer is in two places at once.
    pub open spec fn apart(self) -> bool {
        &&& self.pool.free.no_duplicates()
        &&& self.pool.published matches Some(b) ==> !self.pool.free.contains(b)
        &&& self.target matches Some(b) ==> !self.pool.free.contains(b) && self.pool.published
            != Some(b)
    }
}

/// `step` brings `buffer` into the pool: it comes back, or it is the buffer
/// that was just allocated.
pub open spec fn brings_in<B>(step: PoolStep<B>, buffer: SurfaceBuffer<B>) -> bool {
    match step {
        PoolStep::Return(b) => b == buffer,
        PoolStep::Allocated(width, height, Some(storage)) => (SurfaceBuffer {
            width,
            height,
            storage,
        }) == buffer,
        _ => false,
    }
}

/// Where every buffer is of one size, none of them is of another.
pub(crate) proof fn lemma_nothing_stale<B>(s: Seq<SurfaceBuffer<B>>, w: u32, h: u32)
    requires
        forall|i: int| 0 <= i < s.len() ==> (#[trigger] s[i]).sized(w, h),
    ensures
        of_size(s, w, h) == s,
        not_of_size(s, w, h) == Seq::<SurfaceBuffer<B>>::empty(),
    decreases s.len(),
{
    reveal(Seq::filter);
    if s.len() > 0 {
        assert(s[s.len() - 1].sized(w, h));
        lemma_nothing_stale(s.drop_last(), w, h);
        assert(s.drop_last().push(s.last()) =~= s);
    }
}

/// What a filter keeps was there before.
proof fn lemma_filter_keeps<B>(s: Seq<SurfaceBuffer<B>>, w: u32, h: u32, b: SurfaceBuffer<B>)
    requires
        of_size(s, w, h).contains(b),
    ensures
        s.contains(b),
    decreases s.len(),
{
    reveal(Seq::filter);
    let kept = of_size(s, w, h);
    let at = kept.index_of(b);
    assert(kept[at] == b);
    let rest = s.drop_last();
    if s.last().sized(w, h) && at == kept.len() - 1 {
        assert(s[s.len() - 1] == b);
    } else {
        assert(of_size(rest, w, h)[at] == b);
        lemma_filter_keeps(rest, w, h, b);
        let i = rest.index_of(b);
        assert(s[i] == b);
    }
}

/// What a filter keeps occurs once where it occurred once before.
proof fn lemma_filter_keeps_apart<B>(s: Seq<SurfaceBuffer<B>>, w: u32, h: u32)
    requires
        s.no_duplicates(),
    ensures
        of_size(s, w, h).no_duplicates(),
    decreases s.len(),
{
    reveal(Seq::filter);
    if s.len() > 0 {
        let rest = s.drop_last();
        lemma_filter_keeps_apart(rest, w, h);
        if of_size(rest, w, h).contains(s.last()) {
            lemma_filter_keeps(rest, w, h, s.last());
            let i = rest.index_of(s.last());
            assert(s[i] == s[s.len() - 1]);
        }
        assert forall|i: int, j: int|
            0 <= i < of_size(s, w, h).len() && 0 <= j < of_size(s, w, h).len() && i != j implies of_size(
            s,
            w,
            h,
        )[i] != of_size(s, w, h)[j] by {
            let kept = of_size(rest, w, h);
            if i < kept.len() {
                assert(kept.contains(kept[i]));
            }
            if j < kept.len() {
                assert(kept.contains(kept[j]));
            }
        }
    }
}

/// Buffers stay in one place each, as long as what comes in was out: a frame
/// comes back once, and an allocated buffer is a new one.
pub proof fn law_buffers_stay_apart<B>(run: PoolRun<B>, step: PoolStep<B>)
    requires
        run.apart(),
        forall|b: SurfaceBuffer<B>| #[trigger] brings_in(step, b) ==> run.is_out(b),
    ensures
        run.after(step).apart(),
{
    let v = run.pool;
    let next = run.after(step).pool;
    match step {
        PoolStep::Begin => {
            let fresh = v.fresh();
            lemma_filter_keeps_apart(v.free, v.width, v.height);
            if v.published is Some && fresh.contains(v.published->0) {
                lemma_filter_keeps(v.free, v.width, v.height, v.published->0);
            }
            if fresh.len() > 0 {
                let last = fresh.last();
                assert(fresh[fresh.len() - 1] == last);
                assert(fresh.contains(last));
                lemma_filter_keeps(v.free, v.width, v.height, last);
                if fresh.drop_last().contains(last) {
                    let i = fresh.drop_last().index_of(last);
                    assert(fresh[i] == fresh[fresh.len() - 1]);
                }
                if v.published is Some && fresh.drop_last().contains(v.published->0) {
                    let i = fresh.drop_last().index_of(v.published->0);
                    assert(fresh[i] == v.published->0);
                }
            }
        },
        PoolStep::Allocated(width, height, Some(storage)) => {
            assert(brings_in(step, SurfaceBuffer { width, height, storage }));
        },
        PoolStep::Finish(_) => {
            assert forall|b: SurfaceBuffer<B>| #[trigger] next.free.contains(b) implies {
                ||| v.free.contains(b)
                ||| run.target == Some(b) && next.published != Some(b)
                ||| v.published == Some(b)
            } by {
                let i = next.free.index_of(b);
                if i < v.free.len() {
                    assert(v.free[i] == b);
                }
            }
            lemma_push_stays_apart(v.free, next.free);
        },
        PoolStep::Return(returned) => {
            assert(brings_in(step, returned));
            assert forall|b: SurfaceBuffer<B>| #[trigger] next.free.contains(b) implies {
                ||| v.free.contains(b)
                ||| b == returned
            } by {
                let i = next.free.index_of(b);
                if i < v.free.len() {
                    assert(v.free[i] == b);
                }
            }
            lemma_push_stays_apart(v.free, next.free);
        },
        _ => {},
    }
}

/// From an empty pool on, no buffer is ever in two places at once.
pub proof fn law_buffers_are_always_apart<B>(
    run: PoolRun<B>,
    steps: Seq<PoolStep<B>>,
    n: nat,
)
    requires
        run.pool.free.len() == 0,
        run.pool.published is None,
        run.target is None,
        n <= steps.len(),
        forall|i: int, b: SurfaceBuffer<B>|
            0 <= i < n && #[trigger] brings_in(steps[i], b) ==> run.after_first(
                steps,
                i as nat,
            ).is_out(b),
    ensures
        run.after_first(steps, n).apart(),
    decreases n,
{
    if n > 0 {
        law_buffers_are_always_apart(run, steps, (n - 1) as nat);
        law_buffers_stay_apart(run.after_first(steps, (n - 1) as nat), steps[n - 1]);
    }
}

/// One more buffer, which was not among the others, leaves them apart.
proof fn lemma_push_stays_apart<B>(s: Seq<SurfaceBuffer<B>>, longer: Seq<SurfaceBuffer<B>>)
    requires
        s.no_duplicates(),
        longer == s || longer.len() == s.len() + 1 && longer == s.push(longer.last())
            && !s.contains(longer.last()),
    ensures
        longer.no_duplicates(),
{
    assert forall|i: int, j: int|
        0 <= i < longer.len() && 0 <= j < longer.len() && i != j implies longer[i]
        != longer[j] by {
        if i < s.len() {
            assert(s.contains(s[i]));
        }
        if j < s.len() {
            assert(s.contains(s[j]));
        }
    }
}

/// A buffer that is out of the pool is not what a render begins on, and it
/// stays out through every step but the one that brings it in.
pub proof fn law_a_buffer_stays_out<B>(
    run: PoolRun<B>,
    step: PoolStep<B>,
    buffer: SurfaceBuffer<B>,
)
    requires
        run.is_out(buffer),
        !brings_in(step, buffer),
    ensures
        run.pool.render_start().2 != RenderNext::Into(buffer),
        run.after(step).is_out(buffer),
{
    if run.pool.fresh().contains(buffer) {
        lemma_filter_keeps(run.pool.free, run.pool.width, run.pool.height, buffer);
    }
    if run.pool.fresh().len() > 0 {
        assert(run.pool.fresh()[run.pool.fresh().len() - 1] == run.pool.fresh().last());
    }
    let v = run.pool;
    let next = run.after(step).pool;
    match step {
        PoolStep::Begin => {
            let fresh = v.fresh();
            if fresh.len() > 0 && fresh.drop_last().contains(buffer) {
                let i = fresh.drop_last().index_of(buffer);
                assert(fresh[i] == buffer);
            }
        },
        PoolStep::Finish(rendered) => {
            if next.free.contains(buffer) {
                let i = next.free.index_of(buffer);
                if i < v.free.len() {
                    assert(v.free[i] == buffer);
                }
            }
        },
        PoolStep::Return(b) => {
            if next.free.contains(buffer) {
                let i = next.free.index_of(buffer);
                if i < v.free.len() {
                    assert(v.free[i] == buffer);
                }
            }
        },
        _ => {},
    }
}

/// Whatever happens to the pool, a buffer that is out of it is never rendered
/// into, until it is brought in again.
pub proof fn law_a_buffer_out_is_never_rendered_into<B>(
    run: PoolRun<B>,
    steps: Seq<PoolStep<B>>,
    n: nat,
    buffer: SurfaceBuffer<B>,
)
    requires
        run.is_out(buffer),
        n <= steps.len(),
        forall|i: int| 0 <= i < n ==> !brings_in(#[trigger] steps[i], buffer),
    ensures
        run.after_first(steps, n).is_out(buffer),
        run.after_first(steps, n).pool.render_start().2 != RenderNext::Into(buffer),
    decreases n,
{
    if n > 0 {
        law_a_buffer_out_is_never_rendered_into(run, steps, (n - 1) as nat, buffer);
        law_a_buffer_stays_out(run.after_first(steps, (n - 1) as nat), steps[n - 1], buffer);
    }
    law_a_buffer_stays_out(run.after_first(steps, n), PoolStep::Begin, buffer);
}

/// What every buffer's memory holds before the first step and after each one.
#[verifier::reject_recursive_types(B)]
pub struct Pixels<B> {
    /// What a buffer holds after so many steps.
    pub after: spec_fn(nat, SurfaceBuffer<B>) -> Seq<u8>,
}

impl<B> Pixels<B> {
    /// Step `i` leaves what `buffer` holds as it is.
    pub open spec fn kept(self, buffer: SurfaceBuffer<B>, i: nat) -> bool {
        (self.after)(i + 1, buffer) == (self.after)(i, buffer)
    }

    /// Nothing but a render into a buffer changes what it holds.
    pub open spec fn only_renders_write(
        self,
        run: PoolRun<B>,
        steps: Seq<PoolStep<B>>,
    ) -> bool {
        forall|i: nat, b: SurfaceBuffer<B>|
            i < steps.len() && run.after_first(steps, i).target != Some(b) && run.after_first(
                steps,
                i + 1,
            ).target != Some(b) ==> #[trigger] self.kept(b, i)
    }
}

/// Whatever happens to the pool, a buffer that is out of it holds the same
/// pixels until it is brought in again.
pub proof fn law_a_buffer_out_keeps_its_pixels<B>(
    run: PoolRun<B>,
    steps: Seq<PoolStep<B>>,
    n: nat,
    buffer: SurfaceBuffer<B>,
    pixels: Pixels<B>,
)
    requires
        run.is_out(buffer),
        n <= steps.len(),
        forall|i: int| 0 <= i < n ==> !brings_in(#[trigger] steps[i], buffer),
        pixels.only_renders_write(run, steps),
    ensures
        (pixels.after)(n, buffer) == (pixels.after)(0, buffer),
    decreases n,
{
    if n > 0 {
        let i = (n - 1) as nat;
        law_a_buffer_out_keeps_its_pixels(run, steps, i, buffer, pixels);
        law_a_buffer_out_is_never_rendered_into(run, steps, i, buffer);
        law_a_buffer_out_is_never_rendered_into(run, steps, n, buffer);
        assert(pixels.kept(buffer, i));
    }
}

} // verus!
