//! One render into a pool buffer, from its handover to GL to its way back.

use vstd::prelude::*;

use super::frame::export_draw;
#[allow(unused_imports)]
use super::frame::frame_draw;
use super::pool::{Pool, SurfaceBuffer};
#[allow(unused_imports)]
use super::pool::{PoolView, RenderNext};
use crate::render::GlDraw;

verus! {

/// One thing to do while a buffer is rendered into.
#[derive(Debug, Clone, Copy, PartialEq, Eq, Structural)]
pub enum PassAction {
    /// Hand the buffer's storage to GL.
    BeginRender,
    /// Have mpv draw the current frame.
    Draw(GlDraw),
    /// Take the storage back from GL, and have what was drawn complete.
    PublishBarrier,
}

/// What comes next while a buffer is rendered into.
#[derive(Debug, Clone, Copy, PartialEq, Eq, Structural)]
pub enum PassStep {
    /// Do this.
    Do(PassAction),
    /// The buffer is back: hand it to the pool.
    Finish,
}

/// How far a render into a buffer has come.
pub struct PassView<B> {
    /// The buffer.
    pub buffer: SurfaceBuffer<B>,
    /// The framebuffer over it.
    pub fbo: u32,
    /// The steps given out.
    pub given: nat,
    /// mpv drew the frame.
    pub drawn: bool,
}

impl<B> PassView<B> {
    /// A render that is still to begin.
    pub open spec fn fresh(buffer: SurfaceBuffer<B>, fbo: u32) -> Self {
        PassView { buffer, fbo, given: 0, drawn: false }
    }

    /// What [`RenderPass::next`] gives.
    pub open spec fn step(self) -> PassStep {
        if self.given == 0 {
            PassStep::Do(PassAction::BeginRender)
        } else if self.given == 1 {
            PassStep::Do(PassAction::Draw(frame_draw(self.buffer, self.fbo)))
        } else if self.given == 2 {
            PassStep::Do(PassAction::PublishBarrier)
        } else {
            PassStep::Finish
        }
    }

    /// What [`RenderPass::next`] leaves. Only what came of the draw is kept.
    pub open spec fn stepped(self, ok: bool) -> Self {
        PassView {
            given: if self.given < 4 {
                self.given + 1
            } else {
                self.given
            },
            drawn: if self.given == 2 {
                ok
            } else {
                self.drawn
            },
            ..self
        }
    }

    /// The render after its first `n` replies.
    pub open spec fn after(self, replies: Seq<bool>, n: nat) -> Self
        decreases n,
    {
        if n == 0 {
            self
        } else {
            self.after(replies, (n - 1) as nat).stepped(replies[n - 1])
        }
    }

    /// The buffer is back from GL.
    pub open spec fn is_over(self) -> bool {
        self.given >= 4
    }
}

/// A render into a pool buffer. Storage that GL holds comes back whatever mpv
/// answers: a failed render leaves no buffer half handed over.
pub struct RenderPass<B> {
    buffer: SurfaceBuffer<B>,
    fbo: u32,
    given: u32,
    drawn: bool,
}

impl<B> View for RenderPass<B> {
    type V = PassView<B>;

    closed spec fn view(&self) -> PassView<B> {
        PassView {
            buffer: self.buffer,
            fbo: self.fbo,
            given: self.given as nat,
            drawn: self.drawn,
        }
    }
}

impl<B> RenderPass<B> {
    /// A render into `buffer`, which `fbo` draws into.
    pub fn new(buffer: SurfaceBuffer<B>, fbo: u32) -> (r: Self)
        ensures
            r@ == PassView::fresh(buffer, fbo),
    {
        RenderPass { buffer, fbo, given: 0, drawn: false }
    }

    /// The storage that is rendered into.
    pub fn storage(&mut self) -> (r: &mut B)
        ensures
            *r == old(self)@.buffer.storage,
            final(self)@ == (PassView {
                buffer: SurfaceBuffer { storage: *final(r), ..old(self)@.buffer },
                ..old(self)@
            }),
    {
        &mut self.buffer.storage
    }

    /// The next step, where `ok` says whether the last one went well: a draw
    /// may not.
    pub fn next(&mut self, ok: bool) -> (r: PassStep)
        ensures
            r == old(self)@.step(),
            final(self)@ == old(self)@.stepped(ok),
    {
        if self.given == 0 {
            self.given = 1;
            PassStep::Do(PassAction::BeginRender)
        } else if self.given == 1 {
            self.given = 2;
            PassStep::Do(PassAction::Draw(export_draw(&self.buffer, self.fbo)))
        } else if self.given == 2 {
            self.given = 3;
            self.drawn = ok;
            PassStep::Do(PassAction::PublishBarrier)
        } else {
            if self.given < 4 {
                self.given = self.given + 1;
            }
            PassStep::Finish
        }
    }

    /// Whether the buffer is back from GL.
    pub fn is_over(&self) -> (r: bool)
        ensures
            r == self@.is_over(),
    {
        self.given >= 4
    }

    /// Hand the buffer to `pool`: published where mpv drew it, free where it
    /// did not. Returns whether a frame was published.
    pub fn finish(self, pool: &mut Pool<B>) -> (r: bool)
        requires
            self@.is_over(),
            old(pool)@.wf(),
            old(pool)@.rendering,
        ensures
            final(pool)@ == old(pool)@.render_end(self@.buffer, self@.drawn),
            r == self@.drawn,
            final(pool)@.wf(),
    {
        pool.finish_render(self.buffer, self.drawn)
    }
}

/// Whatever mpv answers, a render hands the buffer to GL, draws, takes it back
/// and hands it to the pool, each once and in this order; whether it is
/// published is what came of the draw alone.
pub proof fn law_a_render_takes_its_buffer_back<B>(
    buffer: SurfaceBuffer<B>,
    fbo: u32,
    replies: Seq<bool>,
)
    requires
        replies.len() >= 4,
    ensures
        ({
            let pass = PassView::fresh(buffer, fbo);
            &&& pass.after(replies, 0).step() == PassStep::Do(PassAction::BeginRender)
            &&& pass.after(replies, 1).step() == PassStep::Do(
                PassAction::Draw(frame_draw(buffer, fbo)),
            )
            &&& pass.after(replies, 2).step() == PassStep::Do(PassAction::PublishBarrier)
            &&& pass.after(replies, 3).step() == PassStep::Finish
            &&& pass.after(replies, 4).is_over()
            &&& pass.after(replies, 4).buffer == buffer
            &&& pass.after(replies, 4).drawn == replies[2]
        }),
{
    reveal_with_fuel(PassView::after, 5);
}

/// Once the buffer is back, nothing more is done to it.
pub proof fn law_a_render_that_is_over_stays_over<B>(
    pass: PassView<B>,
    replies: Seq<bool>,
    n: nat,
)
    requires
        pass.is_over(),
        n <= replies.len(),
    ensures
        pass.after(replies, n) == pass,
        pass.after(replies, n).step() == PassStep::Finish,
    decreases n,
{
    if n > 0 {
        law_a_render_that_is_over_stays_over(pass, replies, (n - 1) as nat);
    }
}

/// A failed render into a free buffer leaves the pool as it was, where no free
/// buffer is of a stale size: nothing is published, dropped or lost.
pub proof fn law_a_failed_render_changes_nothing<B>(v: PoolView<B>)
    requires
        v.wf(),
        !v.rendering,
        v.width > 0,
        v.height > 0,
        v.free.len() > 0,
        forall|i: int| 0 <= i < v.free.len() ==> (#[trigger] v.free[i]).sized(v.width, v.height),
    ensures
        v.render_start().2 == RenderNext::Into(v.free.last()),
        v.render_start().1 == Seq::<SurfaceBuffer<B>>::empty(),
        v.render_start().0.render_end(v.free.last(), false) == v,
{
    super::pool::lemma_nothing_stale(v.free, v.width, v.height);
    assert(v.free.drop_last().push(v.free.last()) =~= v.free);
}

} // verus!
