//! Decisions of the Windows backend: a hidden WGL context tied to a D3D11
//! device, and framebuffers whose color storage is a shared D3D11 texture.
//!
//! Each buffer has two textures. GL renders into the interop texture, which
//! only registers with the legacy shared flag; the export texture carries the
//! shared NT handle that consumers open, and the publish barrier copies the
//! one to the other.

use vstd::prelude::*;

use super::setup::{first_missing, setup_error, SetupFailure};
#[allow(unused_imports)]
use super::setup::{is_setup_error, looked_up};
use crate::error::Error;
use crate::text::{push_decimal, push_hex};
#[allow(unused_imports)]
use crate::text::{decimal, hex};

verus! {

/// `DXGI_FORMAT_B8G8R8A8_UNORM`: little-endian B,G,R,A bytes.
pub const DXGI_FORMAT_BGRA8_UNORM: u32 = 87;

/// `DXGI_ERROR_NOT_FOUND`: no adapter of that index.
pub const DXGI_ERROR_NOT_FOUND: i32 = -0x7785_FFFE;

pub const D3D_DRIVER_TYPE_UNKNOWN: u32 = 0;
pub const D3D_DRIVER_TYPE_HARDWARE: u32 = 1;
pub const D3D11_USAGE_DEFAULT: u32 = 0;
pub const D3D11_USAGE_STAGING: u32 = 3;
pub const D3D11_CPU_ACCESS_READ: u32 = 0x0002_0000;

/// `D3D11_BIND_RENDER_TARGET | D3D11_BIND_SHADER_RESOURCE`.
pub const D3D11_BIND_TARGET_AND_RESOURCE: u32 = 0x28;

/// `D3D11_RESOURCE_MISC_SHARED`: the legacy flag, the only one that GL
/// registers.
pub const D3D11_MISC_SHARED: u32 = 0x0002;

/// `D3D11_RESOURCE_MISC_SHARED | D3D11_RESOURCE_MISC_SHARED_NTHANDLE`. No
/// keyed mutex: a plain importer does not know to acquire one.
pub const D3D11_MISC_SHARED_NTHANDLE: u32 = 0x0802;

pub const GL_FRAMEBUFFER_COMPLETE: u32 = 0x8CD5;

/// Width and height of the throwaway buffer that an adapter is proved with.
pub const PROBE_SIZE: u32 = 64;

/// What a setup on Windows holds.
#[derive(Debug, Clone, Copy, PartialEq, Eq, Structural)]
pub enum WinResource {
    /// The hidden window.
    Window,
    /// The window's device context.
    Dc,
    /// The WGL context.
    GlContext,
    /// The D3D11 device.
    D3dDevice,
    /// The D3D11 device's immediate context.
    D3dContext,
    /// The interop device that ties GL to D3D11.
    InteropDevice,
    /// The texture that GL renders into.
    InteropTexture,
    /// The texture that consumers open.
    ExportTexture,
    /// The export texture's shared handle.
    SharedHandle,
    /// The interop texture's registration with GL.
    InteropObject,
    /// A GL texture name.
    Texture,
    /// A GL framebuffer name.
    Framebuffer,
}

/// A COM call succeeded and gave an object.
pub open spec fn com_ok(hr: i32, given: bool) -> bool {
    hr >= 0 && given
}

/// Whether a COM call succeeded and gave an object.
pub fn com_given(hr: i32, given: bool) -> (r: bool)
    ensures
        r == com_ok(hr, given),
{
    !(hr < 0 || !given)
}

/// The text of a failed COM call.
pub open spec fn hresult_text(what: Seq<char>, hr: i32) -> Seq<char> {
    what + ": HRESULT "@ + hex((hr as u32) as nat, 8)
}

/// The failure of a COM call.
pub fn hresult_error(what: &str, hr: i32) -> (r: Error)
    ensures
        is_setup_error(r, hresult_text(what@, hr)),
{
    let mut out = what.to_owned();
    out.append(": HRESULT ");
    push_hex(&mut out, hr as u32, 8);
    Error::ExportSetup(out)
}

/// The driver type to create a D3D11 device with: an explicit adapter
/// obligates the unknown one.
pub fn driver_type(explicit_adapter: bool) -> (r: u32)
    ensures
        r == (if explicit_adapter {
            D3D_DRIVER_TYPE_UNKNOWN
        } else {
            D3D_DRIVER_TYPE_HARDWARE
        }),
{
    if explicit_adapter {
        D3D_DRIVER_TYPE_UNKNOWN
    } else {
        D3D_DRIVER_TYPE_HARDWARE
    }
}

/// Whether what `wglGetProcAddress` gave is an entry point: some drivers
/// answer 1, 2, 3 or -1 rather than null for what opengl32 exports itself.
pub fn is_entry_point(address: isize) -> (r: bool)
    ensures
        r == !(-1 <= address <= 3),
{
    address < -1 || address > 3
}

/// A two-dimensional D3D11 texture of four bytes a pixel.
#[derive(Debug, Clone, Copy, PartialEq, Eq, Structural)]
pub struct TextureDesc {
    /// Width in pixels.
    pub width: u32,
    /// Height in pixels.
    pub height: u32,
    /// Mip levels.
    pub mip_levels: u32,
    /// Array layers.
    pub array_size: u32,
    /// The DXGI format.
    pub format: u32,
    /// Samples per pixel.
    pub sample_count: u32,
    /// The sample quality.
    pub sample_quality: u32,
    /// The usage.
    pub usage: u32,
    /// What it binds as.
    pub bind_flags: u32,
    /// What the CPU may do with it.
    pub cpu_access_flags: u32,
    /// How it is shared.
    pub misc_flags: u32,
}

/// One of a buffer's two textures, shared by `misc_flags`.
pub fn shared_texture_desc(width: u32, height: u32, misc_flags: u32) -> (r: TextureDesc)
    ensures
        r == (TextureDesc {
            width,
            height,
            mip_levels: 1,
            array_size: 1,
            format: DXGI_FORMAT_BGRA8_UNORM,
            sample_count: 1,
            sample_quality: 0,
            usage: D3D11_USAGE_DEFAULT,
            bind_flags: D3D11_BIND_TARGET_AND_RESOURCE,
            cpu_access_flags: 0,
            misc_flags,
        }),
{
    TextureDesc {
        width,
        height,
        mip_levels: 1,
        array_size: 1,
        format: DXGI_FORMAT_BGRA8_UNORM,
        sample_count: 1,
        sample_quality: 0,
        usage: D3D11_USAGE_DEFAULT,
        bind_flags: D3D11_BIND_TARGET_AND_RESOURCE,
        cpu_access_flags: 0,
        misc_flags,
    }
}

/// The texture that a frame's pixels are read back through, unless there are
/// no pixels.
pub fn staging_texture_desc(width: u32, height: u32) -> (r: Option<TextureDesc>)
    ensures
        r == (if width == 0 || height == 0 {
            None
        } else {
            Some(
                TextureDesc {
                    width,
                    height,
                    mip_levels: 1,
                    array_size: 1,
                    format: DXGI_FORMAT_BGRA8_UNORM,
                    sample_count: 1,
                    sample_quality: 0,
                    usage: D3D11_USAGE_STAGING,
                    bind_flags: 0,
                    cpu_access_flags: D3D11_CPU_ACCESS_READ,
                    misc_flags: 0,
                },
            )
        }),
{
    if width == 0 || height == 0 {
        return None;
    }
    Some(
        TextureDesc {
            width,
            height,
            mip_levels: 1,
            array_size: 1,
            format: DXGI_FORMAT_BGRA8_UNORM,
            sample_count: 1,
            sample_quality: 0,
            usage: D3D11_USAGE_STAGING,
            bind_flags: 0,
            cpu_access_flags: D3D11_CPU_ACCESS_READ,
            misc_flags: 0,
        },
    )
}

/// What asking for an adapter gave.
pub struct AdapterReply<A> {
    /// The call's result.
    pub hr: i32,
    /// The adapter, unless it is null.
    pub adapter: Option<A>,
}

impl<A> AdapterReply<A> {
    /// The adapter, where there is one.
    pub open spec fn found(self) -> Option<A> {
        if self.hr == DXGI_ERROR_NOT_FOUND || self.hr < 0 {
            None
        } else {
            self.adapter
        }
    }
}

/// `ask` gave adapter `a` for index `i`.
pub open spec fn adapter_at<A, F: Fn(u32) -> AdapterReply<A>>(ask: F, i: u32, a: A) -> bool {
    exists|reply: AdapterReply<A>|
        #[trigger] call_ensures(ask, (i,), reply) && reply.found() == Some(a)
}

/// `ask` gave no adapter for index `i`.
pub open spec fn no_adapter_at<A, F: Fn(u32) -> AdapterReply<A>>(ask: F, i: u32) -> bool {
    exists|reply: AdapterReply<A>|
        #[trigger] call_ensures(ask, (i,), reply) && reply.found() is None
}

/// Every adapter that `ask` gives, in order, up to the first index that has
/// none.
pub fn enumerate_adapters<A, F: Fn(u32) -> AdapterReply<A>>(ask: F) -> (r: Vec<A>)
    requires
        forall|i: u32| call_requires(ask, (i,)),
    ensures
        r@.len() <= u32::MAX,
        forall|i: int| 0 <= i < r@.len() ==> adapter_at(ask, i as u32, #[trigger] r@[i]),
        r@.len() < u32::MAX ==> no_adapter_at(ask, r@.len() as u32),
{
    let mut adapters: Vec<A> = Vec::new();
    let mut index: u32 = 0;
    while index < u32::MAX
        invariant
            adapters@.len() == index,
            forall|i: u32| call_requires(ask, (i,)),
            forall|i: int|
                0 <= i < adapters@.len() ==> adapter_at(ask, i as u32, #[trigger] adapters@[i]),
        decreases u32::MAX - index,
    {
        let reply = ask(index);
        let ghost answer = reply;
        assert(call_ensures(ask, (index,), answer));
        if reply.hr == DXGI_ERROR_NOT_FOUND || reply.hr < 0 {
            assert(no_adapter_at(ask, index));
            return adapters;
        }
        match reply.adapter {
            None => {
                assert(no_adapter_at(ask, index));
                return adapters;
            },
            Some(adapter) => {
                assert(adapter_at(ask, index, adapter));
                adapters.push(adapter);
            },
        }
        index = index + 1;
    }
    adapters
}

/// The adapters to try: every one that there is, or, with none, whichever
/// D3D11 picks.
pub open spec fn candidates<A>(adapters: Seq<A>) -> Seq<Option<A>> {
    if adapters.len() == 0 {
        seq![None]
    } else {
        adapters.map_values(|a: A| Some(a))
    }
}

/// `attempt` failed with `errors` on the candidates from the first on.
pub open spec fn adapters_failed<A: Copy, T, F: Fn(Option<A>) -> Result<T, Error>>(
    attempt: F,
    candidates: Seq<Option<A>>,
    errors: Seq<Error>,
) -> bool {
    &&& errors.len() <= candidates.len()
    &&& forall|i: int|
        0 <= i < errors.len() ==> call_ensures(
            attempt,
            (candidates[i],),
            Err::<T, Error>(#[trigger] errors[i]),
        )
}

/// Bring the backend up on the first adapter that works. GL and D3D11 may
/// each come up and still refuse to interoperate when they landed on
/// different GPUs, so every failure falls through to the next adapter, and
/// the last one is what is said where none works.
pub fn first_usable_adapter<A: Copy, T, F: Fn(Option<A>) -> Result<T, Error>>(
    adapters: &Vec<A>,
    attempt: F,
) -> (r: Result<T, Error>)
    requires
        forall|a: Option<A>| call_requires(attempt, (a,)),
    ensures
        exists|errors: Seq<Error>|
            {
                &&& #[trigger] adapters_failed(attempt, candidates(adapters@), errors)
                &&& match r {
                    Ok(_) => errors.len() < candidates(adapters@).len() && call_ensures(
                        attempt,
                        (candidates(adapters@)[errors.len() as int],),
                        r,
                    ),
                    Err(e) => errors.len() == candidates(adapters@).len() && e == errors.last(),
                }
            },
{
    let ghost all = candidates(adapters@);
    let ghost mut errors: Seq<Error> = Seq::empty();
    if adapters.len() == 0 {
        let reply = attempt(None);
        let ghost answer = reply;
        proof {
            if let Err(e) = answer {
                errors = errors.push(e);
            }
            assert(adapters_failed(attempt, all, errors));
        }
        return reply;
    }
    let mut last: Option<Error> = None;
    let mut i: usize = 0;
    while i < adapters.len()
        invariant
            0 <= i <= adapters@.len(),
            0 < adapters@.len(),
            all == candidates(adapters@),
            errors.len() == i,
            forall|a: Option<A>| call_requires(attempt, (a,)),
            adapters_failed(attempt, all, errors),
            i == 0 ==> last is None,
            i > 0 ==> last == Some(errors.last()),
        decreases adapters@.len() - i,
    {
        let reply = attempt(Some(adapters[i]));
        let ghost answer = reply;
        assert(call_ensures(attempt, (all[i as int],), answer));
        match reply {
            Ok(up) => {
                return Ok(up);
            },
            Err(e) => {
                proof {
                    let before = errors;
                    errors = errors.push(e);
                    assert forall|j: int| 0 <= j < errors.len() implies call_ensures(
                        attempt,
                        (all[j],),
                        Err::<T, Error>(#[trigger] errors[j]),
                    ) by {
                        if j < before.len() {
                            assert(errors[j] == before[j]);
                        }
                    }
                    assert(adapters_failed(attempt, all, errors));
                }
                last = Some(e);
            },
        }
        i = i + 1;
    }
    match last {
        Some(e) => Err(e),
        None => Err(setup_error("no D3D11 adapter could be opened for GL interop")),
    }
}

/// A failure that releases `release` and says `text`.
fn failure(release: Vec<WinResource>, text: &str) -> (r: SetupFailure<WinResource>)
    ensures
        r.release@ == release@,
        is_setup_error(r.error, text@),
{
    SetupFailure { release, error: setup_error(text) }
}

/// Whether the hidden window came up.
pub fn window_created(made: bool) -> (r: Result<WindowHeld, Error>)
    ensures
        match r {
            Ok(_) => made,
            Err(e) => !made && is_setup_error(
                e,
                "CreateWindowExW failed for the hidden GL window (a session with no window station — a service, or SSH without an interactive desktop?)"@,
            ),
        },
{
    if made {
        Ok(WindowHeld)
    } else {
        Err(
            setup_error(
                "CreateWindowExW failed for the hidden GL window (a session with no window station — a service, or SSH without an interactive desktop?)",
            ),
        )
    }
}

/// The hidden window is held.
#[non_exhaustive]
pub struct WindowHeld;

impl WindowHeld {
    /// What is held.
    pub open spec fn held(self) -> Seq<WinResource> {
        seq![WinResource::Window]
    }

    /// The window's device context was got, or not.
    pub fn dc(self, got: bool) -> (r: Result<DcHeld, SetupFailure<WinResource>>)
        ensures
            match r {
                Ok(_) => got,
                Err(f) => !got && f.unwinds(self.held(), "GetDC failed for the hidden window"@),
            },
    {
        if got {
            Ok(DcHeld)
        } else {
            let f = failure(vec![WinResource::Window], "GetDC failed for the hidden window");
            assert(f.release@ =~= self.held().reverse());
            Err(f)
        }
    }
}

/// The hidden window and its device context are held.
#[non_exhaustive]
pub struct DcHeld;

/// What is held with the window's device context.
pub open spec fn dc_held() -> Seq<WinResource> {
    seq![WinResource::Window, WinResource::Dc]
}

/// A failure that releases the window and its device context.
fn dc_failure(text: &str) -> (r: SetupFailure<WinResource>)
    ensures
        r.unwinds(dc_held(), text@),
{
    let f = failure(vec![WinResource::Dc, WinResource::Window], text);
    assert(f.release@ =~= dc_held().reverse());
    f
}

impl DcHeld {
    /// Pixel format `format` was picked for the device context, `0` for none,
    /// and set, or not. `set` is not asked for without a format.
    pub fn pixel_format(self, format: i32, set: bool) -> (r: Result<
        FormatSet,
        SetupFailure<WinResource>,
    >)
        ensures
            match r {
                Ok(_) => format != 0 && set,
                Err(f) => if format == 0 {
                    f.unwinds(dc_held(), "ChoosePixelFormat found no OpenGL-capable format"@)
                } else {
                    !set && f.unwinds(dc_held(), "SetPixelFormat failed"@)
                },
            },
    {
        if format == 0 {
            return Err(dc_failure("ChoosePixelFormat found no OpenGL-capable format"));
        }
        if !set {
            return Err(dc_failure("SetPixelFormat failed"));
        }
        Ok(FormatSet)
    }
}

/// The device context has a pixel format.
#[non_exhaustive]
pub struct FormatSet;

impl FormatSet {
    /// A WGL context was created on the device context, or not.
    pub fn context(self, made: bool) -> (r: Result<ContextHeld, SetupFailure<WinResource>>)
        ensures
            match r {
                Ok(_) => made,
                Err(f) => !made && f.unwinds(
                    dc_held(),
                    "wglCreateContext failed (no OpenGL ICD? the Microsoft software rasterizer is GL 1.1 and cannot drive mpv)"@,
                ),
            },
    {
        if made {
            Ok(ContextHeld)
        } else {
            Err(
                dc_failure(
                    "wglCreateContext failed (no OpenGL ICD? the Microsoft software rasterizer is GL 1.1 and cannot drive mpv)",
                ),
            )
        }
    }
}

/// What is held with a WGL context.
pub open spec fn context_held() -> Seq<WinResource> {
    seq![WinResource::Window, WinResource::Dc, WinResource::GlContext]
}

/// A failure that releases everything that is held with a WGL context.
fn context_failure(text: &str) -> (r: SetupFailure<WinResource>)
    ensures
        r.unwinds(context_held(), text@),
{
    let f = failure(vec![WinResource::GlContext, WinResource::Dc, WinResource::Window], text);
    assert(f.release@ =~= context_held().reverse());
    f
}

/// A WGL context is held.
#[non_exhaustive]
pub struct ContextHeld;

impl ContextHeld {
    /// The context was made current, or not.
    pub fn made_current(self, current: bool) -> (r: Result<
        ContextCurrent,
        SetupFailure<WinResource>,
    >)
        ensures
            match r {
                Ok(_) => current,
                Err(f) => !current && f.unwinds(context_held(), "wglMakeCurrent failed"@),
            },
    {
        if current {
            Ok(ContextCurrent)
        } else {
            Err(context_failure("wglMakeCurrent failed"))
        }
    }
}

/// The context was made current again, or not.
pub fn make_current(current: bool) -> (r: Result<(), Error>)
    ensures
        match r {
            Ok(_) => current,
            Err(e) => !current && is_setup_error(e, "wglMakeCurrent failed"@),
        },
{
    if current {
        Ok(())
    } else {
        Err(setup_error("wglMakeCurrent failed"))
    }
}

/// The names of the entry points, in the order of their load.
pub open spec fn entry_point(i: int) -> Seq<char> {
    if i == 0 {
        "glGenFramebuffers"@
    } else if i == 1 {
        "glDeleteFramebuffers"@
    } else if i == 2 {
        "glBindFramebuffer"@
    } else if i == 3 {
        "glFramebufferTexture2D"@
    } else if i == 4 {
        "glCheckFramebufferStatus"@
    } else if i == 5 {
        "wglDXOpenDeviceNV"@
    } else if i == 6 {
        "wglDXCloseDeviceNV"@
    } else if i == 7 {
        "wglDXRegisterObjectNV"@
    } else if i == 8 {
        "wglDXUnregisterObjectNV"@
    } else if i == 9 {
        "wglDXLockObjectsNV"@
    } else {
        "wglDXUnlockObjectsNV"@
    }
}

/// How many entry points there are.
pub const ENTRY_POINTS: usize = 11;

/// The entry points that are loaded from the current context, in order.
pub fn entry_points() -> (r: Vec<&'static str>)
    ensures
        r@.len() == ENTRY_POINTS,
        forall|i: int| 0 <= i < ENTRY_POINTS ==> (#[trigger] r@[i])@ == entry_point(i),
{
    let mut names: Vec<&'static str> = Vec::new();
    names.push("glGenFramebuffers");
    names.push("glDeleteFramebuffers");
    names.push("glBindFramebuffer");
    names.push("glFramebufferTexture2D");
    names.push("glCheckFramebufferStatus");
    names.push("wglDXOpenDeviceNV");
    names.push("wglDXCloseDeviceNV");
    names.push("wglDXRegisterObjectNV");
    names.push("wglDXUnregisterObjectNV");
    names.push("wglDXLockObjectsNV");
    names.push("wglDXUnlockObjectsNV");
    names
}

/// A WGL context is current.
#[non_exhaustive]
pub struct ContextCurrent;

/// What is held once a D3D11 device was asked for: what came of it is
/// released, whole or not.
pub open spec fn device_asked(device: bool, context: bool) -> Seq<WinResource> {
    context_held() + (if device {
        seq![WinResource::D3dDevice]
    } else {
        Seq::empty()
    }) + (if context {
        seq![WinResource::D3dContext]
    } else {
        Seq::empty()
    })
}

impl ContextCurrent {
    /// Load the entry points through `load`, in order. The first that is
    /// missing is named, and nothing after it is loaded.
    pub fn load<L: Fn(&str) -> bool>(&self, load: L) -> (r: Result<(), SetupFailure<WinResource>>)
        requires
            forall|name: &str| call_requires(load, (name,)),
        ensures
            match r {
                Ok(_) => forall|j: int|
                    0 <= j < ENTRY_POINTS ==> looked_up(load, #[trigger] entry_point(j), true),
                Err(f) => exists|i: int|
                    {
                        &&& 0 <= i < ENTRY_POINTS
                        &&& looked_up(load, #[trigger] entry_point(i), false)
                        &&& forall|j: int|
                            0 <= j < i ==> looked_up(load, #[trigger] entry_point(j), true)
                        &&& f.unwinds(
                            context_held(),
                            "required GL/WGL entry point missing: "@ + entry_point(i),
                        )
                    },
            },
    {
        let names = entry_points();
        match first_missing(&names, load) {
            Some(i) => {
                proof {
                    assert(names@[i as int]@ == entry_point(i as int));
                    assert(looked_up(load, entry_point(i as int), false));
                    assert forall|j: int| 0 <= j < i implies looked_up(
                        load,
                        #[trigger] entry_point(j),
                        true,
                    ) by {
                        assert(names@[j]@ == entry_point(j));
                    }
                }
                let mut out = "required GL/WGL entry point missing: ".to_owned();
                out.append(names[i]);
                Err(context_failure(out.as_str()))
            },
            None => {
                proof {
                    assert forall|j: int| 0 <= j < ENTRY_POINTS implies looked_up(
                        load,
                        #[trigger] entry_point(j),
                        true,
                    ) by {
                        assert(names@[j]@ == entry_point(j));
                    }
                }
                Ok(())
            },
        }
    }

    /// A D3D11 device and its immediate context were asked for, with result
    /// `hr`.
    pub fn device(self, hr: i32, device: bool, context: bool) -> (r: Result<
        DeviceHeld,
        SetupFailure<WinResource>,
    >)
        ensures
            match r {
                Ok(_) => hr >= 0 && device && context,
                Err(f) => !(hr >= 0 && device && context) && f.unwinds(
                    device_asked(device, context),
                    hresult_text("D3D11CreateDevice"@, hr),
                ),
            },
    {
        if hr < 0 || !device || !context {
            let mut release: Vec<WinResource> = Vec::new();
            if context {
                release.push(WinResource::D3dContext);
            }
            if device {
                release.push(WinResource::D3dDevice);
            }
            release.push(WinResource::GlContext);
            release.push(WinResource::Dc);
            release.push(WinResource::Window);
            assert(release@ =~= device_asked(device, context).reverse());
            return Err(SetupFailure { release, error: hresult_error("D3D11CreateDevice", hr) });
        }
        Ok(DeviceHeld)
    }
}

/// A WGL context and a D3D11 device are held.
#[non_exhaustive]
pub struct DeviceHeld;

impl DeviceHeld {
    /// The interop device was opened, or not.
    pub fn interop(self, opened: bool) -> (r: Result<InteropHeld, SetupFailure<WinResource>>)
        ensures
            match r {
                Ok(_) => opened,
                Err(f) => !opened && f.unwinds(
                    device_asked(true, true),
                    "wglDXOpenDeviceNV refused the D3D11 device (GL and D3D on different GPUs, or no WGL_NV_DX_interop2 support)"@,
                ),
            },
    {
        if opened {
            Ok(InteropHeld)
        } else {
            let f = failure(
                vec![
                    WinResource::D3dContext,
                    WinResource::D3dDevice,
                    WinResource::GlContext,
                    WinResource::Dc,
                    WinResource::Window,
                ],
                "wglDXOpenDeviceNV refused the D3D11 device (GL and D3D on different GPUs, or no WGL_NV_DX_interop2 support)",
            );
            assert(f.release@ =~= device_asked(true, true).reverse());
            Err(f)
        }
    }
}

/// What a context holds that is fully up. It goes down from the last to the
/// first: the interop device needs GL and D3D11, the WGL context goes before
/// the D3D11 device, and the window goes last.
pub open spec fn interop_held() -> Seq<WinResource> {
    seq![
        WinResource::Window,
        WinResource::Dc,
        WinResource::D3dDevice,
        WinResource::D3dContext,
        WinResource::GlContext,
        WinResource::InteropDevice,
    ]
}

/// What to release of a context that goes down, in this order.
pub fn teardown() -> (r: Vec<WinResource>)
    ensures
        r@ == interop_held().reverse(),
{
    let r = vec![
        WinResource::InteropDevice,
        WinResource::GlContext,
        WinResource::D3dContext,
        WinResource::D3dDevice,
        WinResource::Dc,
        WinResource::Window,
    ];
    assert(r@ =~= interop_held().reverse());
    r
}

/// A context is fully up, and not yet proved.
#[non_exhaustive]
pub struct InteropHeld;

impl InteropHeld {
    /// A throwaway buffer came up on the context, or not. An interop device
    /// that opens is no proof: some drivers only refuse the first buffer.
    pub fn probed(self, probe: Result<(), Error>) -> (r: Result<(), SetupFailure<WinResource>>)
        ensures
            match probe {
                Ok(_) => r is Ok,
                Err(e) => r matches Err(f) && f.release@ == interop_held().reverse() && f.error == e,
            },
    {
        match probe {
            Ok(_) => Ok(()),
            Err(error) => Err(SetupFailure { release: teardown(), error }),
        }
    }
}

/// The text for a shared texture that cannot be created.
pub open spec fn texture_text(width: u32, height: u32) -> Seq<char> {
    "CreateTexture2D for a shared "@ + decimal(width as nat) + "x"@ + decimal(height as nat)
        + " BGRA8 render target"@
}

/// The failure of creating a shared texture.
fn texture_error(width: u32, height: u32, hr: i32) -> (r: Error)
    ensures
        is_setup_error(r, hresult_text(texture_text(width, height), hr)),
{
    let mut what = "CreateTexture2D for a shared ".to_owned();
    push_decimal(&mut what, width);
    what.append("x");
    push_decimal(&mut what, height);
    what.append(" BGRA8 render target");
    hresult_error(what.as_str(), hr)
}

/// A `width`×`height` buffer is wanted.
pub struct BufferWanted {
    /// Width in pixels.
    pub width: u32,
    /// Height in pixels.
    pub height: u32,
}

impl BufferWanted {
    /// The interop texture was asked for, with result `hr`.
    pub fn interop_texture(self, hr: i32, given: bool) -> (r: Result<InteropTextureHeld, Error>)
        ensures
            match r {
                Ok(next) => com_ok(hr, given) && next == (InteropTextureHeld {
                    width: self.width,
                    height: self.height,
                }),
                Err(e) => !com_ok(hr, given) && is_setup_error(
                    e,
                    hresult_text(texture_text(self.width, self.height), hr),
                ),
            },
    {
        if !com_given(hr, given) {
            return Err(texture_error(self.width, self.height, hr));
        }
        Ok(InteropTextureHeld { width: self.width, height: self.height })
    }
}

/// An interop texture is held.
#[non_exhaustive]
pub struct InteropTextureHeld {
    /// Width in pixels.
    pub width: u32,
    /// Height in pixels.
    pub height: u32,
}

impl InteropTextureHeld {
    /// What is held.
    pub open spec fn held(self) -> Seq<WinResource> {
        seq![WinResource::InteropTexture]
    }

    /// The export texture was asked for, with result `hr`.
    pub fn export_texture(self, hr: i32, given: bool) -> (r: Result<
        TexturesHeld,
        SetupFailure<WinResource>,
    >)
        ensures
            match r {
                Ok(next) => com_ok(hr, given) && next == (TexturesHeld {
                    width: self.width,
                    height: self.height,
                }),
                Err(f) => !com_ok(hr, given) && f.unwinds(
                    self.held(),
                    hresult_text(texture_text(self.width, self.height), hr),
                ),
            },
    {
        if !com_given(hr, given) {
            let f = SetupFailure {
                release: vec![WinResource::InteropTexture],
                error: texture_error(self.width, self.height, hr),
            };
            assert(f.release@ =~= self.held().reverse());
            return Err(f);
        }
        Ok(TexturesHeld { width: self.width, height: self.height })
    }
}

/// Both textures are held.
#[non_exhaustive]
pub struct TexturesHeld {
    /// Width in pixels.
    pub width: u32,
    /// Height in pixels.
    pub height: u32,
}

/// What asking for a texture's shared handle gave. The resource is released
/// by then.
pub enum HandleReply {
    /// The texture is no shareable resource.
    NoResource(i32),
    /// The handle was asked for, with this result, and given or not.
    Asked(i32, bool),
}

/// A shared handle was given.
pub open spec fn handle_given(reply: HandleReply) -> bool {
    reply matches HandleReply::Asked(hr, given) && com_ok(hr, given)
}

/// The text for a shared handle that was not given.
pub open spec fn handle_text(reply: HandleReply) -> Seq<char> {
    match reply {
        HandleReply::NoResource(hr) => hresult_text("QueryInterface(IDXGIResource1)"@, hr),
        HandleReply::Asked(hr, _) => hresult_text("IDXGIResource1::CreateSharedHandle"@, hr),
    }
}

impl TexturesHeld {
    /// What is held.
    pub open spec fn held(self) -> Seq<WinResource> {
        seq![WinResource::InteropTexture, WinResource::ExportTexture]
    }

    /// The export texture's shared handle was asked for.
    pub fn shared_handle(self, reply: HandleReply) -> (r: Result<
        HandleHeld,
        SetupFailure<WinResource>,
    >)
        ensures
            match r {
                Ok(next) => handle_given(reply) && next == (HandleHeld {
                    width: self.width,
                    height: self.height,
                }),
                Err(f) => !handle_given(reply) && f.unwinds(self.held(), handle_text(reply)),
            },
    {
        let error = match reply {
            HandleReply::NoResource(hr) => hresult_error("QueryInterface(IDXGIResource1)", hr),
            HandleReply::Asked(hr, given) => {
                if com_given(hr, given) {
                    return Ok(HandleHeld { width: self.width, height: self.height });
                }
                hresult_error("IDXGIResource1::CreateSharedHandle", hr)
            },
        };
        let f = SetupFailure {
            release: vec![WinResource::ExportTexture, WinResource::InteropTexture],
            error,
        };
        assert(f.release@ =~= self.held().reverse());
        Err(f)
    }
}

/// Both textures and the shared handle are held, and a GL texture name to
/// register the interop texture under.
#[non_exhaustive]
pub struct HandleHeld {
    /// Width in pixels.
    pub width: u32,
    /// Height in pixels.
    pub height: u32,
}

impl HandleHeld {
    /// What is held.
    pub open spec fn held(self) -> Seq<WinResource> {
        seq![
            WinResource::InteropTexture,
            WinResource::ExportTexture,
            WinResource::SharedHandle,
            WinResource::Texture,
        ]
    }

    /// The interop texture was registered with GL, or not.
    pub fn registered(self, done: bool) -> (r: Result<ObjectHeld, SetupFailure<WinResource>>)
        ensures
            match r {
                Ok(_) => done,
                Err(f) => !done && f.unwinds(
                    self.held(),
                    "wglDXRegisterObjectNV failed for a "@ + decimal(self.width as nat) + "x"@
                        + decimal(self.height as nat) + " BGRA8 render target"@,
                ),
            },
    {
        if done {
            return Ok(ObjectHeld);
        }
        let mut out = "wglDXRegisterObjectNV failed for a ".to_owned();
        push_decimal(&mut out, self.width);
        out.append("x");
        push_decimal(&mut out, self.height);
        out.append(" BGRA8 render target");
        let f = failure(
            vec![
                WinResource::Texture,
                WinResource::SharedHandle,
                WinResource::ExportTexture,
                WinResource::InteropTexture,
            ],
            out.as_str(),
        );
        assert(f.release@ =~= self.held().reverse());
        Err(f)
    }
}

/// The interop texture is registered with GL, and a framebuffer is there to
/// attach it to.
#[non_exhaustive]
pub struct ObjectHeld;

impl ObjectHeld {
    /// What is held.
    pub open spec fn held(self) -> Seq<WinResource> {
        seq![
            WinResource::InteropTexture,
            WinResource::ExportTexture,
            WinResource::SharedHandle,
            WinResource::Texture,
            WinResource::InteropObject,
            WinResource::Framebuffer,
        ]
    }

    /// The texture was attached to the framebuffer, whose status is `status`.
    pub fn attached(self, status: u32) -> (r: Result<(), SetupFailure<WinResource>>)
        ensures
            match r {
                Ok(_) => status == GL_FRAMEBUFFER_COMPLETE,
                Err(f) => status != GL_FRAMEBUFFER_COMPLETE && f.unwinds(
                    self.held(),
                    "shared-texture framebuffer incomplete (status "@ + hex(status as nat, 1)
                        + ")"@,
                ),
            },
    {
        if status == GL_FRAMEBUFFER_COMPLETE {
            return Ok(());
        }
        let mut out = "shared-texture framebuffer incomplete (status ".to_owned();
        push_hex(&mut out, status, 1);
        out.append(")");
        let f = failure(
            vec![
                WinResource::Framebuffer,
                WinResource::InteropObject,
                WinResource::Texture,
                WinResource::SharedHandle,
                WinResource::ExportTexture,
                WinResource::InteropTexture,
            ],
            out.as_str(),
        );
        assert(f.release@ =~= self.held().reverse());
        Err(f)
    }
}

/// One step of ending a render into a buffer.
#[derive(Debug, Clone, Copy, PartialEq, Eq, Structural)]
pub enum PublishStep {
    /// Wait until GL is done.
    Finish,
    /// Hand the interop texture back to D3D11.
    Unlock,
    /// Copy the interop texture to the export texture.
    Copy,
    /// Push the copy out to the device.
    Flush,
}

/// The names behind a buffer that only the render thread uses.
#[derive(Debug, Clone, Copy, PartialEq, Eq, Structural)]
pub struct WinNames {
    /// The framebuffer, `0` if deleted.
    pub framebuffer: u32,
    /// The texture, `0` if deleted.
    pub texture: u32,
    /// Whether the interop registration is there.
    pub object: bool,
    /// Whether the interop texture is GL's.
    pub locked: bool,
}

/// The names that are still there, in the order of their deletion.
pub open spec fn live_names(names: WinNames) -> Seq<WinResource> {
    (if names.framebuffer != 0 {
        seq![WinResource::Framebuffer]
    } else {
        Seq::empty()
    }) + (if names.object {
        seq![WinResource::InteropObject]
    } else {
        Seq::empty()
    }) + (if names.texture != 0 {
        seq![WinResource::Texture]
    } else {
        Seq::empty()
    })
}

impl WinNames {
    /// Once GL has taken the interop texture.
    pub open spec fn taken(self) -> WinNames {
        WinNames { locked: self.locked || self.object, ..self }
    }

    /// Once D3D11 has the interop texture back.
    pub open spec fn given_back(self) -> WinNames {
        WinNames { locked: self.locked && !self.object, ..self }
    }

    /// Take the interop texture for GL. Returns whether to lock it: locking
    /// it twice is an error.
    pub fn lock_for_gl(&mut self) -> (r: bool)
        ensures
            r == (old(self).object && !old(self).locked),
            *final(self) == old(self).taken(),
    {
        if !self.object || self.locked {
            return false;
        }
        self.locked = true;
        true
    }

    /// Give the interop texture back to D3D11. Returns whether to unlock it.
    pub fn unlock_from_gl(&mut self) -> (r: bool)
        ensures
            r == (old(self).object && old(self).locked),
            *final(self) == old(self).given_back(),
    {
        if !self.object || !self.locked {
            return false;
        }
        self.locked = false;
        true
    }

    /// End a render: the steps that make the export texture show it.
    pub fn publish_barrier(&mut self) -> (r: Vec<PublishStep>)
        ensures
            r@ == (if old(self).object && old(self).locked {
                seq![
                    PublishStep::Finish,
                    PublishStep::Unlock,
                    PublishStep::Copy,
                    PublishStep::Flush,
                ]
            } else {
                seq![PublishStep::Finish, PublishStep::Copy, PublishStep::Flush]
            }),
            *final(self) == old(self).given_back(),
    {
        let mut steps: Vec<PublishStep> = Vec::new();
        steps.push(PublishStep::Finish);
        if self.unlock_from_gl() {
            steps.push(PublishStep::Unlock);
        }
        steps.push(PublishStep::Copy);
        steps.push(PublishStep::Flush);
        steps
    }

    /// Delete what is still there: whether to unlock the interop texture
    /// first, which must not be locked then, and the names to delete, in
    /// order.
    pub fn delete_gl(&mut self) -> (r: (bool, Vec<WinResource>))
        ensures
            r.0 == (old(self).object && old(self).locked),
            r.1@ == live_names(*old(self)),
            *final(self) == (WinNames {
                framebuffer: 0,
                texture: 0,
                object: false,
                locked: old(self).given_back().locked,
            }),
    {
        let unlock = self.unlock_from_gl();
        let mut out: Vec<WinResource> = Vec::new();
        if self.framebuffer != 0 {
            out.push(WinResource::Framebuffer);
            self.framebuffer = 0;
        }
        if self.object {
            out.push(WinResource::InteropObject);
            self.object = false;
        }
        if self.texture != 0 {
            out.push(WinResource::Texture);
            self.texture = 0;
        }
        assert(out@ =~= live_names(*old(self)));
        (unlock, out)
    }
}

/// Taking the interop texture twice is taking it once, giving it back twice
/// is giving it back once, and giving it back undoes taking it.
pub proof fn law_locking_is_idempotent(names: WinNames)
    requires
        names.locked ==> names.object,
    ensures
        names.taken().taken() == names.taken(),
        names.given_back().given_back() == names.given_back(),
        !names.locked ==> names.taken().given_back() == names,
        !names.given_back().locked,
{
}

/// Deleted names are not deleted again.
pub proof fn law_names_are_deleted_once(locked: bool)
    ensures
        live_names((WinNames { framebuffer: 0, texture: 0, object: false, locked })) == Seq::<
            WinResource,
        >::empty(),
{
}

} // verus!
