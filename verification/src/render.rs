//! Render backends: which one is attached, and what a draw call asks of it.

use vstd::prelude::*;

use crate::error::{Error, MpvError};

verus! {

/// Attach-time knobs of the OpenGL backend. The default is mpv's stock
/// behavior, right for a toolkit paint handler; shells whose render loop must
/// not stall override per field. Attach-time on purpose: frame pacing is a
/// property of the shell's render loop, not of any single frame.
///
/// Construct through the chainable setters:
/// `GlRenderOptions::default().block_for_target_time(false)`.
#[derive(Debug, Clone, Copy)]
#[non_exhaustive]
pub struct GlRenderOptions {
    /// Block inside a draw until the frame's target display time.
    pub block_for_target_time: bool,
    /// mpv's `MPV_RENDER_PARAM_ADVANCED_CONTROL`: obligates the shell to
    /// process updates promptly after every update callback.
    pub advanced_control: bool,
}

impl Default for GlRenderOptions {
    fn default() -> (r: Self)
        ensures
            r == (GlRenderOptions { block_for_target_time: true, advanced_control: false }),
    {
        GlRenderOptions { block_for_target_time: true, advanced_control: false }
    }
}

impl GlRenderOptions {
    /// Set whether a draw blocks until the frame's target display time,
    /// chainable from `default()`.
    #[must_use]
    pub fn block_for_target_time(self, block: bool) -> (r: Self)
        ensures
            r == (GlRenderOptions { block_for_target_time: block, ..self }),
    {
        GlRenderOptions { block_for_target_time: block, ..self }
    }

    /// Set mpv's advanced control, chainable from `default()`.
    #[must_use]
    pub fn advanced_control(self, advanced: bool) -> (r: Self)
        ensures
            r == (GlRenderOptions { advanced_control: advanced, ..self }),
    {
        GlRenderOptions { advanced_control: advanced, ..self }
    }
}

/// Which render backend is attached.
#[derive(Debug, Clone, Copy, PartialEq, Eq, Structural)]
#[non_exhaustive]
pub enum RenderKind {
    /// The OpenGL backend.
    OpenGl,
    /// The software backend.
    Software,
    /// The exported-frame backend.
    Exported,
}

/// The one attached render backend, with what the engine has to know of it.
/// Backends share a single slot, so that a second attach and a detach behave
/// the same for all: mpv allows one render context per handle.
#[derive(Debug, Clone, Copy, PartialEq, Eq, Structural)]
pub enum RenderBackend {
    /// The OpenGL backend.
    Gl {
        /// Whether a draw blocks until the frame's target display time.
        block_for_target_time: bool,
    },
    /// The software backend.
    Sw,
    /// The exported-frame backend.
    Exported {
        /// The thread that renders.
        thread: u64,
    },
}

/// The kind of a backend.
pub open spec fn kind_of(backend: RenderBackend) -> RenderKind {
    match backend {
        RenderBackend::Gl { .. } => RenderKind::OpenGl,
        RenderBackend::Sw => RenderKind::Software,
        RenderBackend::Exported { .. } => RenderKind::Exported,
    }
}

impl RenderBackend {
    /// The backend's kind.
    pub fn kind(&self) -> (r: RenderKind)
        ensures
            r == kind_of(*self),
    {
        match self {
            RenderBackend::Gl { .. } => RenderKind::OpenGl,
            RenderBackend::Sw => RenderKind::Software,
            RenderBackend::Exported { .. } => RenderKind::Exported,
        }
    }

    /// Whether updates are processed by the caller's thread. The exported
    /// backend's render thread services its own.
    pub fn updates_here(&self) -> (r: bool)
        ensures
            r == !(self is Exported),
    {
        match self {
            RenderBackend::Gl { .. } => true,
            RenderBackend::Sw => true,
            RenderBackend::Exported { .. } => false,
        }
    }

    /// Whether `thread` is the backend's own render thread: only for the
    /// exported backend, inside its callback.
    pub fn on_own_render_thread(&self, thread: u64) -> (r: bool)
        ensures
            r == (*self == RenderBackend::Exported { thread }),
    {
        match self {
            RenderBackend::Exported { thread: own } => *own == thread,
            _ => false,
        }
    }
}

/// One draw into an OpenGL framebuffer.
#[derive(Debug, Clone, Copy, PartialEq, Eq, Structural)]
pub struct GlDraw {
    /// The framebuffer (`0` = default framebuffer).
    pub fbo: i32,
    /// Width in pixels.
    pub width: i32,
    /// Height in pixels.
    pub height: i32,
    /// The framebuffer's internal format (`0` = unknown).
    pub internal_format: i32,
    /// Flip the output, for flipped-origin targets.
    pub flip_y: bool,
    /// Block until the frame's target display time.
    pub block_for_target_time: bool,
}

/// The pixel format that a software draw asks mpv for.
#[derive(Debug, Clone, Copy, PartialEq, Eq, Structural)]
pub enum SwFormat {
    /// mpv's `rgb0`: red, green, blue, and a byte that is left undefined.
    Rgb0,
}

/// One draw into a buffer of four bytes a pixel.
#[derive(Debug, Clone, Copy, PartialEq, Eq, Structural)]
pub struct SwDraw {
    /// Width in pixels.
    pub width: i32,
    /// Height in pixels.
    pub height: i32,
    /// The pixel format.
    pub format: SwFormat,
    /// Bytes per row.
    pub stride: usize,
}

/// There is something to draw at `w`×`h`, and its bytes can be addressed.
pub open spec fn drawable(w: i32, h: i32) -> bool {
    w > 0 && h > 0 && w * h * 4 <= usize::MAX
}

/// `bytes` cut or filled up with zeros to `len`.
pub open spec fn fitted(bytes: Seq<u8>, len: int) -> Seq<u8> {
    Seq::new(
        len as nat,
        |i: int|
            if i < bytes.len() {
                bytes[i]
            } else {
                0
            },
    )
}

/// `bytes` with the fourth byte of every whole pixel opaque.
pub open spec fn opaque(bytes: Seq<u8>) -> Seq<u8> {
    Seq::new(
        bytes.len(),
        |i: int|
            if i % 4 == 3 {
                0xFF
            } else {
                bytes[i]
            },
    )
}

/// Fit `buf` to a `w`×`h` frame of four bytes a pixel. Empty, negative or
/// unaddressable dimensions have nothing to draw and leave `buf` untouched.
pub fn prepare_sw(w: i32, h: i32, buf: &mut Vec<u8>) -> (r: Option<SwDraw>)
    ensures
        !drawable(w, h) ==> r is None && final(buf)@ == old(buf)@,
        drawable(w, h) ==> {
            &&& r matches Some(draw)
            &&& draw.width == w && draw.height == h && draw.format == SwFormat::Rgb0
            &&& draw.stride == w * 4
            &&& final(buf)@ == fitted(old(buf)@, w * h * 4)
        },
{
    if w < 0 || h < 0 {
        return None;
    }
    let uw: usize = w as usize;
    let uh: usize = h as usize;
    let pixels: usize = match uw.checked_mul(uh) {
        Some(p) => p,
        None => {
            return None;
        },
    };
    let len: usize = match pixels.checked_mul(4) {
        Some(n) => n,
        None => {
            return None;
        },
    };
    if len == 0 {
        assert(!(w > 0 && h > 0)) by (nonlinear_arith)
            requires
                w * h * 4 == 0,
        ;
        return None;
    }
    assert(w > 0 && h > 0) by (nonlinear_arith)
        requires
            w >= 0,
            h >= 0,
            w * h != 0,
    ;
    assert(w * 4 <= w * h * 4) by (nonlinear_arith)
        requires
            w > 0,
            h > 0,
    ;
    buf.resize(len, 0);
    Some(SwDraw { width: w, height: h, format: SwFormat::Rgb0, stride: uw * 4 })
}

/// Force the alpha of every whole pixel of `buf` opaque: what mpv leaves in
/// that byte is undefined.
pub fn make_opaque(buf: &mut Vec<u8>)
    ensures
        final(buf)@ == opaque(old(buf)@),
{
    let len: usize = buf.len();
    let ghost before = buf@;
    let mut i: usize = 0;
    while i < len
        invariant
            0 <= i <= len,
            buf.len() == len,
            before.len() == len,
            forall|j: int| 0 <= j < i ==> #[trigger] buf@[j] == opaque(before)[j],
            forall|j: int| i <= j < len ==> #[trigger] buf@[j] == before[j],
        decreases len - i,
    {
        if i % 4 == 3 {
            buf.set(i, 0xFF);
        }
        i = i + 1;
    }
}

/// End a software draw: the frame's alpha is opaque where mpv drew one, and
/// `buf` is left as it is where mpv failed.
pub fn finish_sw(drawn: Result<(), MpvError>, buf: &mut Vec<u8>) -> (r: Result<(), Error>)
    ensures
        match drawn {
            Ok(_) => r == Ok::<(), Error>(()) && final(buf)@ == opaque(old(buf)@),
            Err(e) => r == Err::<(), Error>(Error::Mpv(e)) && final(buf)@ == old(buf)@,
        },
{
    match drawn {
        Ok(_) => {
            make_opaque(buf);
            Ok(())
        },
        Err(e) => Err(Error::Mpv(e)),
    }
}

/// A drawn frame has exactly four bytes a pixel, every pixel opaque, and the
/// other three bytes of a pixel as they were drawn.
pub proof fn law_frames_are_opaque(w: i32, h: i32, before: Seq<u8>, drawn: Seq<u8>)
    requires
        drawable(w, h),
        drawn.len() == fitted(before, w * h * 4).len(),
    ensures
        opaque(drawn).len() == w * h * 4,
        forall|p: int|
            0 <= p < w * h ==> {
                &&& #[trigger] opaque(drawn)[4 * p + 3] == 0xFF
                &&& opaque(drawn)[4 * p] == drawn[4 * p]
                &&& opaque(drawn)[4 * p + 1] == drawn[4 * p + 1]
                &&& opaque(drawn)[4 * p + 2] == drawn[4 * p + 2]
            },
{
    assert(w * h * 4 >= 0) by (nonlinear_arith)
        requires
            w > 0,
            h > 0,
    ;
}

/// Making a frame opaque twice changes nothing more.
pub proof fn law_opaque_is_idempotent(bytes: Seq<u8>)
    ensures
        opaque(opaque(bytes)) == opaque(bytes),
{
}

} // verus!
