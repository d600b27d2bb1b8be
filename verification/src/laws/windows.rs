//! Laws of the Windows backend's setup, and of handing a buffer between GL and
//! D3D11.

use vstd::prelude::*;

use crate::error::Error;
use crate::export::setup::SetupFailure;
#[allow(unused_imports)]
use crate::export::setup::looked_up;
use crate::export::windows::{
    com_given, driver_type, entry_points, enumerate_adapters, first_usable_adapter, hresult_error,
    is_entry_point, make_current, shared_texture_desc, staging_texture_desc, teardown,
    window_created, AdapterReply, BufferWanted, ContextCurrent, ContextHeld, DcHeld, DeviceHeld,
    FormatSet, HandleHeld, HandleReply, InteropHeld, InteropTextureHeld, ObjectHeld, PublishStep,
    TextureDesc, TexturesHeld, WinNames, WinResource, WindowHeld,
};
#[allow(unused_imports)]
use crate::export::windows::{
    adapter_at, adapters_failed, candidates, context_held, dc_held, device_asked, entry_point,
    interop_held, D3D11_MISC_SHARED, D3D11_MISC_SHARED_NTHANDLE, DXGI_ERROR_NOT_FOUND, PROBE_SIZE,
};
#[allow(unused_imports)]
use crate::laws::setup::{asked, unwound};
#[allow(unused_imports)]
use crate::text::{decimal, hex};

verus! {

/// The text of a failed COM call: what was called, and its result in
/// hexadecimal.
pub open spec fn com_says(what: Seq<char>, hr: i32) -> Seq<char> {
    what + ": HRESULT "@ + hex((hr as u32) as nat, 8)
}

/// A COM call gave an object only where its result is no failure and there is
/// one. A failed one is said with its result.
pub proof fn law_com_failures_carry_their_result(
    hr: i32,
    given: bool,
    ok: bool,
    what: &str,
    error: Error,
)
    requires
        call_ensures(com_given, (hr, given), ok),
        call_ensures(hresult_error, (what, hr), error),
    ensures
        ok <==> hr >= 0 && given,
        error matches Error::ExportSetup(said) && said@ == com_says(what@, hr),
{
}

/// An explicit adapter is opened as unknown, the default one as hardware. What
/// drivers answer in place of null is no entry point.
pub proof fn law_drivers_are_asked_and_read(
    explicit: bool,
    kind: u32,
    address: isize,
    found: bool,
)
    requires
        call_ensures(driver_type, (explicit,), kind),
        call_ensures(is_entry_point, (address,), found),
    ensures
        explicit ==> kind == 0,
        !explicit ==> kind == 1,
        !found <==> address == -1 || address == 0 || address == 1 || address == 2 || address == 3,
{
}

/// Both textures of a buffer are BGRA, of the frame's size, single, to be
/// rendered into and sampled, and differ in how they are shared alone.
pub proof fn law_shared_textures_are_of_the_frames_size(
    width: u32,
    height: u32,
    misc: u32,
    r: TextureDesc,
)
    requires
        call_ensures(shared_texture_desc, (width, height, misc), r),
    ensures
        r.width == width && r.height == height,
        r.mip_levels == 1 && r.array_size == 1 && r.sample_count == 1 && r.sample_quality == 0,
        r.format == 87,
        r.usage == 0,
        r.bind_flags == 0x28,
        r.cpu_access_flags == 0,
        r.misc_flags == misc,
        D3D11_MISC_SHARED == 2,
        D3D11_MISC_SHARED_NTHANDLE == 0x802,
        PROBE_SIZE == 64,
{
}

/// Pixels are read back through a texture of the frame's size that the CPU may
/// read and nothing binds, unless there are no pixels.
pub proof fn law_pixels_are_read_back_through_a_staging_texture(
    width: u32,
    height: u32,
    r: Option<TextureDesc>,
)
    requires
        call_ensures(staging_texture_desc, (width, height), r),
    ensures
        r is Some <==> width > 0 && height > 0,
        r matches Some(desc) ==> {
            &&& desc.width == width && desc.height == height
            &&& desc.mip_levels == 1 && desc.array_size == 1
            &&& desc.sample_count == 1 && desc.sample_quality == 0
            &&& desc.format == 87
            &&& desc.usage == 3
            &&& desc.bind_flags == 0
            &&& desc.cpu_access_flags == 0x2_0000
            &&& desc.misc_flags == 0
        },
{
}

/// Adapters are taken from the first index on, each as it was given, up to the
/// first index that gave none.
pub proof fn law_adapters_are_enumerated_in_order<A, F: Fn(u32) -> AdapterReply<A>>(
    ask: F,
    r: Vec<A>,
    i: int,
)
    requires
        call_ensures(enumerate_adapters::<A, F>, (ask,), r),
    ensures
        0 <= i < r@.len() ==> exists|reply: AdapterReply<A>| #[trigger]
            call_ensures(ask, (i as u32,), reply) && reply.hr >= 0 && reply.adapter == Some(r@[i]),
        r@.len() <= u32::MAX,
        DXGI_ERROR_NOT_FOUND == -0x7785_FFFE,
        r@.len() < u32::MAX ==> exists|reply: AdapterReply<A>| #[trigger]
            call_ensures(ask, (r@.len() as u32,), reply) && (reply.hr < 0 || reply.adapter is None),
{
    if 0 <= i < r@.len() {
        assert(adapter_at(ask, i as u32, r@[i]));
        let reply = choose|reply: AdapterReply<A>| #[trigger]
            call_ensures(ask, (i as u32,), reply) && reply.found() == Some(r@[i]);
        assert(call_ensures(ask, (i as u32,), reply));
    }
    if r@.len() < u32::MAX {
        let reply = choose|reply: AdapterReply<A>| #[trigger]
            call_ensures(ask, (r@.len() as u32,), reply) && reply.found() is None;
        assert(call_ensures(ask, (r@.len() as u32,), reply));
    }
}

/// Trying the adapter came to nothing.
pub open spec fn failed_on<A, T, F: Fn(Option<A>) -> Result<T, Error>>(
    attempt: F,
    adapter: A,
) -> bool {
    exists|error: Error| #[trigger]
        call_ensures(attempt, (Some(adapter),), Err::<T, Error>(error))
}

/// The adapters are tried in order, or the default one where there is none. The
/// first that works is taken, and none after it is tried; where none works, what
/// the last one said is told.
pub proof fn law_the_first_working_adapter_is_taken<
    A: Copy,
    T,
    F: Fn(Option<A>) -> Result<T, Error>,
>(adapters: Vec<A>, attempt: F, r: Result<T, Error>)
    requires
        call_ensures(first_usable_adapter::<A, T, F>, (&adapters, attempt), r),
    ensures
        adapters@.len() == 0 ==> call_ensures(attempt, (None::<A>,), r),
        adapters@.len() > 0 ==> exists|n: int|
            {
                &&& 0 <= n < adapters@.len()
                &&& #[trigger] call_ensures(attempt, (Some(adapters@[n]),), r)
                &&& r is Err ==> n == adapters@.len() - 1
                &&& forall|i: int|
                    0 <= i < n ==> failed_on::<A, T, F>(attempt, #[trigger] adapters@[i])
            },
{
    let all = candidates(adapters@);
    let errors = choose|errors: Seq<Error>|
        {
            &&& #[trigger] adapters_failed(attempt, all, errors)
            &&& match r {
                Ok(_) => errors.len() < all.len() && call_ensures(
                    attempt,
                    (all[errors.len() as int],),
                    r,
                ),
                Err(e) => errors.len() == all.len() && e == errors.last(),
            }
        };
    if adapters@.len() == 0 {
        assert(all =~= seq![None]);
        if r is Err {
            assert(call_ensures(attempt, (all[0],), Err::<T, Error>(errors[0])));
        }
    } else {
        let n = if r is Ok {
            errors.len() as int
        } else {
            errors.len() - 1
        };
        assert(all[n] == Some(adapters@[n]));
        if r is Err {
            assert(call_ensures(attempt, (all[n],), Err::<T, Error>(errors[n])));
        }
        assert forall|i: int| 0 <= i < n implies failed_on::<A, T, F>(
            attempt,
            #[trigger] adapters@[i],
        ) by {
            assert(all[i] == Some(adapters@[i]));
            assert(call_ensures(attempt, (all[i],), Err::<T, Error>(errors[i])));
        }
        assert(call_ensures(attempt, (Some(adapters@[n]),), r));
    }
}

proof fn lemma_releases()
    ensures
        dc_held().reverse() == seq![WinResource::Dc, WinResource::Window],
        context_held().reverse() == seq![
            WinResource::GlContext,
            WinResource::Dc,
            WinResource::Window,
        ],
        device_asked(true, true).reverse() == seq![
            WinResource::D3dContext,
            WinResource::D3dDevice,
            WinResource::GlContext,
            WinResource::Dc,
            WinResource::Window,
        ],
        device_asked(true, false).reverse() == seq![
            WinResource::D3dDevice,
            WinResource::GlContext,
            WinResource::Dc,
            WinResource::Window,
        ],
        device_asked(false, true).reverse() == seq![
            WinResource::D3dContext,
            WinResource::GlContext,
            WinResource::Dc,
            WinResource::Window,
        ],
        device_asked(false, false).reverse() == seq![
            WinResource::GlContext,
            WinResource::Dc,
            WinResource::Window,
        ],
        interop_held().reverse() == seq![
            WinResource::InteropDevice,
            WinResource::GlContext,
            WinResource::D3dContext,
            WinResource::D3dDevice,
            WinResource::Dc,
            WinResource::Window,
        ],
{
    assert(dc_held().reverse() =~= seq![WinResource::Dc, WinResource::Window]);
    assert(context_held().reverse() =~= seq![
        WinResource::GlContext,
        WinResource::Dc,
        WinResource::Window,
    ]);
    assert(device_asked(true, true).reverse() =~= seq![
        WinResource::D3dContext,
        WinResource::D3dDevice,
        WinResource::GlContext,
        WinResource::Dc,
        WinResource::Window,
    ]);
    assert(device_asked(true, false).reverse() =~= seq![
        WinResource::D3dDevice,
        WinResource::GlContext,
        WinResource::Dc,
        WinResource::Window,
    ]);
    assert(device_asked(false, true).reverse() =~= seq![
        WinResource::D3dContext,
        WinResource::GlContext,
        WinResource::Dc,
        WinResource::Window,
    ]);
    assert(device_asked(false, false).reverse() =~= seq![
        WinResource::GlContext,
        WinResource::Dc,
        WinResource::Window,
    ]);
    assert(interop_held().reverse() =~= seq![
        WinResource::InteropDevice,
        WinResource::GlContext,
        WinResource::D3dContext,
        WinResource::D3dDevice,
        WinResource::Dc,
        WinResource::Window,
    ]);
}

/// Each step from the hidden window to a current context goes on where its call
/// went well. Where it did not, it says so, and releases what is there, newest
/// first.
pub proof fn law_a_context_is_brought_up_step_by_step(
    window: WindowHeld,
    dc: DcHeld,
    set: FormatSet,
    context: ContextHeld,
    ok: bool,
    format: i32,
    a: Result<WindowHeld, Error>,
    b: Result<DcHeld, SetupFailure<WinResource>>,
    c: Result<FormatSet, SetupFailure<WinResource>>,
    d: Result<ContextHeld, SetupFailure<WinResource>>,
    e: Result<ContextCurrent, SetupFailure<WinResource>>,
    again: Result<(), Error>,
)
    requires
        call_ensures(window_created, (ok,), a),
        call_ensures(WindowHeld::dc, (window, ok), b),
        call_ensures(DcHeld::pixel_format, (dc, format, ok), c),
        call_ensures(FormatSet::context, (set, ok), d),
        call_ensures(ContextHeld::made_current, (context, ok), e),
        call_ensures(make_current, (ok,), again),
    ensures
        a is Ok <==> ok,
        b is Ok <==> ok,
        c is Ok <==> ok && format != 0,
        d is Ok <==> ok,
        e is Ok <==> ok,
        again is Ok <==> ok,
        a matches Err(error) ==> (error matches Error::ExportSetup(said) && said@
            == "CreateWindowExW failed for the hidden GL window (a session with no window station — a service, or SSH without an interactive desktop?)"@),
        b matches Err(f) ==> unwound(
            f,
            seq![WinResource::Window],
            "GetDC failed for the hidden window"@,
        ),
        format == 0 ==> unwound(
            c->Err_0,
            seq![WinResource::Dc, WinResource::Window],
            "ChoosePixelFormat found no OpenGL-capable format"@,
        ),
        format != 0 && !ok ==> unwound(
            c->Err_0,
            seq![WinResource::Dc, WinResource::Window],
            "SetPixelFormat failed"@,
        ),
        d matches Err(f) ==> unwound(
            f,
            seq![WinResource::Dc, WinResource::Window],
            "wglCreateContext failed (no OpenGL ICD? the Microsoft software rasterizer is GL 1.1 and cannot drive mpv)"@,
        ),
        e matches Err(f) ==> unwound(
            f,
            seq![WinResource::GlContext, WinResource::Dc, WinResource::Window],
            "wglMakeCurrent failed"@,
        ),
        again matches Err(error) ==> (error matches Error::ExportSetup(said) && said@
            == "wglMakeCurrent failed"@),
{
    lemma_releases();
    assert(window.held().reverse() =~= seq![WinResource::Window]);
}

/// The names of the entry points are these eleven, in this order.
pub proof fn law_the_entry_points_are_these(r: Vec<&'static str>)
    requires
        call_ensures(entry_points, (), r),
    ensures
        r@.len() == 11,
        r@[0]@ == "glGenFramebuffers"@,
        r@[1]@ == "glDeleteFramebuffers"@,
        r@[2]@ == "glBindFramebuffer"@,
        r@[3]@ == "glFramebufferTexture2D"@,
        r@[4]@ == "glCheckFramebufferStatus"@,
        r@[5]@ == "wglDXOpenDeviceNV"@,
        r@[6]@ == "wglDXCloseDeviceNV"@,
        r@[7]@ == "wglDXRegisterObjectNV"@,
        r@[8]@ == "wglDXUnregisterObjectNV"@,
        r@[9]@ == "wglDXLockObjectsNV"@,
        r@[10]@ == "wglDXUnlockObjectsNV"@,
        forall|i: int| 0 <= i < 11 ==> (#[trigger] r@[i])@ == entry_point(i),
{
}

/// Loading succeeds only where every entry point was found. Otherwise the first
/// that was not is named, and everything is released.
pub proof fn law_every_entry_point_is_loaded<L: Fn(&str) -> bool>(
    current: ContextCurrent,
    load: L,
    r: Result<(), SetupFailure<WinResource>>,
    j: int,
)
    requires
        call_ensures(ContextCurrent::load::<L>, (&current, load), r),
        0 <= j < 11,
    ensures
        r is Ok ==> asked(load, entry_point(j), true),
        r matches Err(f) ==> exists|i: int|
            {
                &&& 0 <= i < 11
                &&& asked(load, #[trigger] entry_point(i), false)
                &&& j < i ==> asked(load, entry_point(j), true)
                &&& unwound(
                    f,
                    seq![WinResource::GlContext, WinResource::Dc, WinResource::Window],
                    "required GL/WGL entry point missing: "@ + entry_point(i),
                )
            },
{
    lemma_releases();
    if r is Ok {
        assert(looked_up(load, entry_point(j), true));
    }
}

/// A device is held only where the call succeeded and gave both it and its
/// context; otherwise whichever of the two came is released with the rest. An
/// interop device that is refused releases all of it, and a context that cannot
/// be proved goes down whole, with the probe's own error.
pub proof fn law_a_device_is_brought_up_or_released(
    current: ContextCurrent,
    hr: i32,
    device: bool,
    context: bool,
    a: Result<DeviceHeld, SetupFailure<WinResource>>,
    held: DeviceHeld,
    opened: bool,
    b: Result<InteropHeld, SetupFailure<WinResource>>,
    up: InteropHeld,
    probe: Result<(), Error>,
    c: Result<(), SetupFailure<WinResource>>,
    down: Vec<WinResource>,
)
    requires
        call_ensures(ContextCurrent::device, (current, hr, device, context), a),
        call_ensures(DeviceHeld::interop, (held, opened), b),
        call_ensures(InteropHeld::probed, (up, probe), c),
        call_ensures(teardown, (), down),
    ensures
        a is Ok <==> hr >= 0 && device && context,
        a matches Err(f) ==> unwound(
            f,
            if context && device {
                seq![
                    WinResource::D3dContext,
                    WinResource::D3dDevice,
                    WinResource::GlContext,
                    WinResource::Dc,
                    WinResource::Window,
                ]
            } else if device {
                seq![
                    WinResource::D3dDevice,
                    WinResource::GlContext,
                    WinResource::Dc,
                    WinResource::Window,
                ]
            } else if context {
                seq![
                    WinResource::D3dContext,
                    WinResource::GlContext,
                    WinResource::Dc,
                    WinResource::Window,
                ]
            } else {
                seq![WinResource::GlContext, WinResource::Dc, WinResource::Window]
            },
            com_says("D3D11CreateDevice"@, hr),
        ),
        b is Ok <==> opened,
        b matches Err(f) ==> unwound(
            f,
            seq![
                WinResource::D3dContext,
                WinResource::D3dDevice,
                WinResource::GlContext,
                WinResource::Dc,
                WinResource::Window,
            ],
            "wglDXOpenDeviceNV refused the D3D11 device (GL and D3D on different GPUs, or no WGL_NV_DX_interop2 support)"@,
        ),
        down@ == seq![
            WinResource::InteropDevice,
            WinResource::GlContext,
            WinResource::D3dContext,
            WinResource::D3dDevice,
            WinResource::Dc,
            WinResource::Window,
        ],
        c is Ok <==> probe is Ok,
        c matches Err(f) ==> f.release@ == down@ && f.error == probe->Err_0,
{
    lemma_releases();
}

/// The text for a shared texture that cannot be created.
pub open spec fn texture_says(width: u32, height: u32, hr: i32) -> Seq<char> {
    com_says(
        "CreateTexture2D for a shared "@ + decimal(width as nat) + "x"@ + decimal(height as nat)
            + " BGRA8 render target"@,
        hr,
    )
}

/// Each step from a wanted buffer to a finished framebuffer goes on at the same
/// size where its call went well. Where it did not, it says so, and releases what
/// is held, newest first.
pub proof fn law_a_buffer_is_brought_up_step_by_step(
    wanted: BufferWanted,
    interop: InteropTextureHeld,
    textures: TexturesHeld,
    handle: HandleHeld,
    object: ObjectHeld,
    hr: i32,
    given: bool,
    reply: HandleReply,
    done: bool,
    status: u32,
    a: Result<InteropTextureHeld, Error>,
    b: Result<TexturesHeld, SetupFailure<WinResource>>,
    c: Result<HandleHeld, SetupFailure<WinResource>>,
    d: Result<ObjectHeld, SetupFailure<WinResource>>,
    e: Result<(), SetupFailure<WinResource>>,
)
    requires
        call_ensures(BufferWanted::interop_texture, (wanted, hr, given), a),
        call_ensures(InteropTextureHeld::export_texture, (interop, hr, given), b),
        call_ensures(TexturesHeld::shared_handle, (textures, reply), c),
        call_ensures(HandleHeld::registered, (handle, done), d),
        call_ensures(ObjectHeld::attached, (object, status), e),
    ensures
        a is Ok <==> hr >= 0 && given,
        a matches Ok(next) ==> next.width == wanted.width && next.height == wanted.height,
        a matches Err(error) ==> (error matches Error::ExportSetup(said) && said@ == texture_says(
            wanted.width,
            wanted.height,
            hr,
        )),
        b is Ok <==> hr >= 0 && given,
        b matches Ok(next) ==> next.width == interop.width && next.height == interop.height,
        b matches Err(f) ==> unwound(
            f,
            seq![WinResource::InteropTexture],
            texture_says(interop.width, interop.height, hr),
        ),
        c is Ok <==> (reply matches HandleReply::Asked(result, got) && result >= 0 && got),
        c matches Ok(next) ==> next.width == textures.width && next.height == textures.height,
        c matches Err(f) ==> unwound(
            f,
            seq![WinResource::ExportTexture, WinResource::InteropTexture],
            match reply {
                HandleReply::NoResource(result) => com_says(
                    "QueryInterface(IDXGIResource1)"@,
                    result,
                ),
                HandleReply::Asked(result, _) => com_says(
                    "IDXGIResource1::CreateSharedHandle"@,
                    result,
                ),
            },
        ),
        d is Ok <==> done,
        d matches Err(f) ==> unwound(
            f,
            seq![
                WinResource::Texture,
                WinResource::SharedHandle,
                WinResource::ExportTexture,
                WinResource::InteropTexture,
            ],
            "wglDXRegisterObjectNV failed for a "@ + decimal(handle.width as nat) + "x"@ + decimal(
                handle.height as nat,
            ) + " BGRA8 render target"@,
        ),
        e is Ok <==> status == 0x8CD5,
        e matches Err(f) ==> unwound(
            f,
            seq![
                WinResource::Framebuffer,
                WinResource::InteropObject,
                WinResource::Texture,
                WinResource::SharedHandle,
                WinResource::ExportTexture,
                WinResource::InteropTexture,
            ],
            "shared-texture framebuffer incomplete (status "@ + hex(status as nat, 1) + ")"@,
        ),
{
    assert(interop.held().reverse() =~= seq![WinResource::InteropTexture]);
    assert(textures.held().reverse() =~= seq![
        WinResource::ExportTexture,
        WinResource::InteropTexture,
    ]);
    assert(handle.held().reverse() =~= seq![
        WinResource::Texture,
        WinResource::SharedHandle,
        WinResource::ExportTexture,
        WinResource::InteropTexture,
    ]);
    assert(object.held().reverse() =~= seq![
        WinResource::Framebuffer,
        WinResource::InteropObject,
        WinResource::Texture,
        WinResource::SharedHandle,
        WinResource::ExportTexture,
        WinResource::InteropTexture,
    ]);
}

/// A registered texture is locked for GL only where it is not locked, and
/// unlocked only where it is: no lock is taken or given back twice. Nothing else
/// of the names changes.
pub proof fn law_the_lock_alternates(
    a: &mut WinNames,
    b: &mut WinNames,
    lock: bool,
    unlock: bool,
)
    requires
        call_ensures(WinNames::lock_for_gl, (a,), lock),
        call_ensures(WinNames::unlock_from_gl, (b,), unlock),
    ensures
        lock <==> old(a).object && !old(a).locked,
        final(a).locked == (old(a).locked || lock),
        unlock <==> old(b).object && old(b).locked,
        final(b).locked == (old(b).locked && !unlock),
        final(a).framebuffer == old(a).framebuffer && final(a).texture == old(a).texture
            && final(a).object == old(a).object,
        final(b).framebuffer == old(b).framebuffer && final(b).texture == old(b).texture
            && final(b).object == old(b).object,
{
}

/// A render ends by waiting for GL, giving the texture back where GL has it,
/// copying it to the one that consumers open, and pushing the copy out, in this
/// order.
pub proof fn law_a_frame_is_copied_once_gl_is_done(names: &mut WinNames, r: Vec<PublishStep>)
    requires
        call_ensures(WinNames::publish_barrier, (names,), r),
    ensures
        old(names).object && old(names).locked ==> r@ == seq![
            PublishStep::Finish,
            PublishStep::Unlock,
            PublishStep::Copy,
            PublishStep::Flush,
        ],
        !(old(names).object && old(names).locked) ==> r@ == seq![
            PublishStep::Finish,
            PublishStep::Copy,
            PublishStep::Flush,
        ],
        old(names).object ==> !final(names).locked,
        !old(names).object ==> final(names).locked == old(names).locked,
        final(names).framebuffer == old(names).framebuffer,
        final(names).texture == old(names).texture,
        final(names).object == old(names).object,
{
}

/// Deleting a buffer's names gives the texture back first where GL has it, then
/// deletes those that are there, the framebuffer before the registration before
/// the texture, and leaves none.
pub proof fn law_names_that_are_there_are_deleted(
    names: &mut WinNames,
    r: (bool, Vec<WinResource>),
)
    requires
        call_ensures(WinNames::delete_gl, (names,), r),
    ensures
        r.0 <==> old(names).object && old(names).locked,
        r.1@.contains(WinResource::Framebuffer) <==> old(names).framebuffer != 0,
        r.1@.contains(WinResource::InteropObject) <==> old(names).object,
        r.1@.contains(WinResource::Texture) <==> old(names).texture != 0,
        r.1@.len() == (if old(names).framebuffer != 0 {
            1int
        } else {
            0int
        }) + (if old(names).object {
            1int
        } else {
            0int
        }) + (if old(names).texture != 0 {
            1int
        } else {
            0int
        }),
        old(names).framebuffer != 0 ==> r.1@[0] == WinResource::Framebuffer,
        old(names).texture != 0 ==> r.1@.last() == WinResource::Texture,
        final(names).framebuffer == 0,
        final(names).texture == 0,
        !final(names).object,
        old(names).object ==> !final(names).locked,
{
    let n = *old(names);
    if n.framebuffer != 0 {
        assert(r.1@[0] == WinResource::Framebuffer);
    }
    if n.object {
        let at = if n.framebuffer != 0 {
            1int
        } else {
            0int
        };
        assert(r.1@[at] == WinResource::InteropObject);
    }
    if n.texture != 0 {
        assert(r.1@[r.1@.len() - 1] == WinResource::Texture);
    }
}

} // verus!
