//! Laws of the draws that the render backends make.

use vstd::prelude::*;

use crate::engine::Engine;
use crate::error::{Error, MpvError};
use crate::render::{
    finish_sw, make_opaque, prepare_sw, GlDraw, GlRenderOptions, RenderBackend, RenderKind, SwDraw,
    SwFormat,
};

verus! {

/// A frame is drawn at every size that has pixels and whose bytes can be
/// addressed, and at no other: then the draw is of that size, its rows follow
/// one another, and the buffer has four bytes a pixel. Otherwise the buffer is
/// left alone.
pub proof fn law_every_addressable_size_is_drawn(
    w: i32,
    h: i32,
    buf: &mut Vec<u8>,
    r: Option<SwDraw>,
)
    requires
        call_ensures(prepare_sw, (w, h, buf), r),
    ensures
        r is Some <==> w > 0 && h > 0 && w * h * 4 <= usize::MAX,
        r matches Some(draw) ==> {
            &&& draw.width == w && draw.height == h
            &&& draw.stride == 4 * w && draw.stride * h == final(buf)@.len()
            &&& draw.format == SwFormat::Rgb0
            &&& final(buf)@.len() == w * h * 4
        },
        r is None ==> final(buf)@ == old(buf)@,
{
    lemma_bytes(w, h);
}

/// A frame of `w`×`h` pixels has `h` rows of four bytes a pixel.
proof fn lemma_bytes(w: i32, h: i32)
    ensures
        w > 0 && h > 0 ==> w * h * 4 > 0,
        w * 4 * h == w * h * 4,
{
    assert(w > 0 && h > 0 ==> w * h * 4 > 0) by (nonlinear_arith);
    assert(w * 4 * h == w * h * 4) by (nonlinear_arith);
}

/// The buffer is not cleared for a draw: what it held stays where it still
/// fits, and only what was missing is filled up, with zeros.
pub proof fn law_a_fitted_buffer_keeps_its_bytes(
    w: i32,
    h: i32,
    buf: &mut Vec<u8>,
    r: Option<SwDraw>,
    i: int,
)
    requires
        call_ensures(prepare_sw, (w, h, buf), r),
        0 <= i < final(buf)@.len(),
    ensures
        i < old(buf)@.len() ==> final(buf)@[i] == old(buf)@[i],
        i >= old(buf)@.len() ==> final(buf)@[i] == 0,
{
}

/// Of what was drawn, the fourth byte of every pixel becomes opaque and every
/// other byte stays.
pub proof fn law_pixels_become_opaque(buf: &mut Vec<u8>, i: int)
    requires
        call_ensures(make_opaque, (buf,), ()),
        0 <= i < old(buf)@.len(),
    ensures
        final(buf)@.len() == old(buf)@.len(),
        i % 4 == 3 ==> final(buf)@[i] == 255,
        i % 4 != 3 ==> final(buf)@[i] == old(buf)@[i],
{
}

/// A draw that mpv made leaves opaque pixels and reports success. One that mpv
/// refused reports mpv's error and leaves the buffer alone.
pub proof fn law_a_software_draw_ends_opaque_or_untouched(
    drawn: Result<(), MpvError>,
    buf: &mut Vec<u8>,
    r: Result<(), Error>,
)
    requires
        call_ensures(finish_sw, (drawn, buf), r),
    ensures
        final(buf)@.len() == old(buf)@.len(),
        drawn is Ok ==> r is Ok && forall|i: int|
            0 <= i < old(buf)@.len() ==> #[trigger] final(buf)@[i] == (if i % 4 == 3 {
                255u8
            } else {
                old(buf)@[i]
            }),
        drawn matches Err(e) ==> final(buf)@ == old(buf)@ && r == Err::<(), Error>(Error::Mpv(e)),
{
}

/// With the software backend attached, every size that has pixels and whose
/// bytes can be addressed is drawn into a buffer of four bytes a pixel, and no
/// other size is. With nothing attached nothing is drawn; with another backend
/// attached the call is an error. Neither touches the buffer.
pub proof fn law_software_frames_are_drawn<C, H>(
    e: Engine<C, H>,
    w: i32,
    h: i32,
    buf: &mut Vec<u8>,
    r: Result<Option<SwDraw>, Error>,
)
    requires
        call_ensures(Engine::<C, H>::render_sw, (&e, w, h, buf), r),
    ensures
        e@.render == Some(RenderBackend::Sw) && w > 0 && h > 0 && w * h * 4 <= usize::MAX ==> {
            &&& r matches Ok(Some(draw)) && draw.width == w && draw.height == h && draw.stride == w
                * 4 && draw.format == SwFormat::Rgb0
            &&& final(buf)@.len() == w * h * 4
            &&& forall|i: int|
                0 <= i < final(buf)@.len() ==> #[trigger] final(buf)@[i] == (if i
                    < old(buf)@.len() {
                    old(buf)@[i]
                } else {
                    0u8
                })
        },
        e@.render == Some(RenderBackend::Sw) && !(w > 0 && h > 0 && w * h * 4 <= usize::MAX)
            ==> r == Ok::<Option<SwDraw>, Error>(None) && final(buf)@ == old(buf)@,
        e@.render is None ==> r == Ok::<Option<SwDraw>, Error>(None) && final(buf)@ == old(buf)@,
        e@.render is Some && e@.render != Some(RenderBackend::Sw) ==> r == Err::<
            Option<SwDraw>,
            Error,
        >(Error::RenderBackendMismatch) && final(buf)@ == old(buf)@,
{
    lemma_bytes(w, h);
}

/// With the OpenGL backend attached, a frame is drawn into the framebuffer, at
/// the size and with the orientation of the call, and paced as the attach
/// asked for. With nothing attached nothing is drawn; with another backend
/// attached the call is an error.
pub proof fn law_gl_frames_are_drawn_as_asked<C, H>(
    e: Engine<C, H>,
    fbo: i32,
    w: i32,
    h: i32,
    flip_y: bool,
    r: Result<Option<GlDraw>, Error>,
)
    requires
        call_ensures(Engine::<C, H>::render_gl, (&e, fbo, w, h, flip_y), r),
    ensures
        e@.render matches Some(RenderBackend::Gl { block_for_target_time }) ==> (r matches Ok(
            Some(draw),
        ) && draw.fbo == fbo && draw.width == w && draw.height == h && draw.flip_y == flip_y
            && draw.block_for_target_time == block_for_target_time && draw.internal_format == 0),
        e@.render is None ==> r == Ok::<Option<GlDraw>, Error>(None),
        e@.render is Some && !(e@.render->0 is Gl) ==> r == Err::<Option<GlDraw>, Error>(
            Error::RenderBackendMismatch,
        ),
{
}

/// Frames are acquired from, and a size is set on, the exported backend alone:
/// the size is the one asked for. With nothing attached there is nothing to
/// acquire or set; with another backend attached either call is an error.
pub proof fn law_exported_frames_come_from_the_exported_backend<C, H>(
    e: Engine<C, H>,
    width: u32,
    height: u32,
    acquired: Result<bool, Error>,
    sized: Result<Option<(u32, u32)>, Error>,
)
    requires
        call_ensures(Engine::<C, H>::acquire_frame, (&e,), acquired),
        call_ensures(Engine::<C, H>::set_export_size, (&e, width, height), sized),
    ensures
        e@.render is Some && e@.render->0 is Exported ==> acquired == Ok::<bool, Error>(true)
            && sized == Ok::<Option<(u32, u32)>, Error>(Some((width, height))),
        e@.render is None ==> acquired == Ok::<bool, Error>(false) && sized == Ok::<
            Option<(u32, u32)>,
            Error,
        >(None),
        e@.render is Some && !(e@.render->0 is Exported) ==> acquired == Err::<bool, Error>(
            Error::RenderBackendMismatch,
        ) && sized == Err::<Option<(u32, u32)>, Error>(Error::RenderBackendMismatch),
{
}

/// Of the three backends' calls, exactly the attached one's goes through: the
/// others are errors, and none is one where nothing is attached.
pub proof fn law_only_the_attached_backend_draws<C, H>(
    e: Engine<C, H>,
    w: i32,
    h: i32,
    flip_y: bool,
    buf: &mut Vec<u8>,
    gl: Result<Option<GlDraw>, Error>,
    sw: Result<Option<SwDraw>, Error>,
    exported: Result<bool, Error>,
    kind: Option<RenderKind>,
)
    requires
        call_ensures(Engine::<C, H>::render_gl, (&e, 0i32, w, h, flip_y), gl),
        call_ensures(Engine::<C, H>::render_sw, (&e, w, h, buf), sw),
        call_ensures(Engine::<C, H>::acquire_frame, (&e,), exported),
        call_ensures(Engine::<C, H>::attached_render, (&e,), kind),
    ensures
        kind is None ==> gl is Ok && sw is Ok && exported is Ok,
        kind == Some(RenderKind::OpenGl) ==> gl is Ok && sw is Err && exported is Err,
        kind == Some(RenderKind::Software) ==> gl is Err && sw is Ok && exported is Err,
        kind == Some(RenderKind::Exported) ==> gl is Err && sw is Err && exported is Ok,
{
}

/// The shell processes the updates of a backend that it draws with itself. The
/// exported backend's thread does that on its own, and only that thread counts
/// as it.
pub proof fn law_backends_tell_their_kind_and_thread(
    backend: RenderBackend,
    current: u64,
    kind: RenderKind,
    updates: bool,
    own: bool,
)
    requires
        call_ensures(RenderBackend::kind, (&backend,), kind),
        call_ensures(RenderBackend::updates_here, (&backend,), updates),
        call_ensures(RenderBackend::on_own_render_thread, (&backend, current), own),
    ensures
        backend is Gl <==> kind == RenderKind::OpenGl,
        backend is Sw <==> kind == RenderKind::Software,
        backend is Exported <==> kind == RenderKind::Exported,
        updates <==> kind != RenderKind::Exported,
        backend matches RenderBackend::Exported { thread } ==> own == (thread == current),
        !(backend is Exported) ==> !own,
{
}

/// An engine tells the kind of what is attached, and processes updates for
/// every kind but the exported one.
pub proof fn law_an_engine_tells_what_is_attached<C, H>(
    e: Engine<C, H>,
    kind: Option<RenderKind>,
    has: bool,
    updates: bool,
)
    requires
        call_ensures(Engine::<C, H>::attached_render, (&e,), kind),
        call_ensures(Engine::<C, H>::has_render, (&e,), has),
        call_ensures(Engine::<C, H>::render_update, (&e,), updates),
    ensures
        has == (e@.render is Some),
        has == (kind is Some),
        e@.render matches Some(backend) ==> {
            &&& backend is Gl <==> kind == Some(RenderKind::OpenGl)
            &&& backend is Sw <==> kind == Some(RenderKind::Software)
            &&& backend is Exported <==> kind == Some(RenderKind::Exported)
        },
        updates == (kind == Some(RenderKind::OpenGl) || kind == Some(RenderKind::Software)),
{
}

/// Stock options block until the target time and leave advanced control off.
/// Each setter sets its own option to what it is given and keeps the other.
pub proof fn law_render_options_are_set_one_by_one(
    stock: GlRenderOptions,
    options: GlRenderOptions,
    on: bool,
    blocking: GlRenderOptions,
    advanced: GlRenderOptions,
)
    requires
        call_ensures(<GlRenderOptions as Default>::default, (), stock),
        call_ensures(GlRenderOptions::block_for_target_time, (options, on), blocking),
        call_ensures(GlRenderOptions::advanced_control, (options, on), advanced),
    ensures
        stock.block_for_target_time,
        !stock.advanced_control,
        blocking.block_for_target_time == on,
        blocking.advanced_control == options.advanced_control,
        advanced.advanced_control == on,
        advanced.block_for_target_time == options.block_for_target_time,
{
}

} // verus!
