//! Decisions of the macOS backend: a hidden CGL context, and framebuffers
//! whose color storage is an IOSurface.

use vstd::prelude::*;

use super::setup::{setup_error, SetupFailure};
#[allow(unused_imports)]
use super::setup::is_setup_error;
use crate::error::Error;
use crate::text::{push_decimal, push_hex, push_signed};
#[allow(unused_imports)]
use crate::text::{decimal, hex, signed_decimal};

verus! {

/// `kCGLPFAOpenGLProfile`.
pub const CGL_PFA_OPENGL_PROFILE: i32 = 99;

/// `kCGLPFAAllowOfflineRenderers`: lets pixel-format selection succeed on
/// renderers with no display attached.
pub const CGL_PFA_ALLOW_OFFLINE: i32 = 96;

pub const CGL_PROFILE_GL4_CORE: i32 = 0x4100;
pub const CGL_PROFILE_GL3_CORE: i32 = 0x3200;
pub const CGL_PROFILE_LEGACY: i32 = 0x1000;
pub const GL_RGBA: u32 = 0x1908;
pub const GL_RGBA8: u32 = 0x8058;
pub const GL_FRAMEBUFFER_COMPLETE: u32 = 0x8CD5;

/// fourcc `'BGRA'` (`kCVPixelFormatType_32BGRA`): the interchange format that
/// every macOS consumer takes without conversion.
pub const PIXEL_FORMAT_BGRA: i32 = 0x4247_5241;

/// What the setup of a buffer on macOS holds.
#[derive(Debug, Clone, Copy, PartialEq, Eq, Structural)]
pub enum MacResource {
    /// The IOSurface.
    Surface,
    /// A GL texture name.
    Texture,
    /// A GL framebuffer name.
    Framebuffer,
}

/// The text of a CGL error, where `text` is what CGL says of the code.
pub open spec fn cgl_error_text(what: Seq<char>, code: i32, text: Option<String>) -> Seq<char> {
    what + ": CGL error "@ + signed_decimal(code as int) + " ("@ + (match text {
        Some(text) => text@,
        None => Seq::empty(),
    }) + ")"@
}

/// The text of a CGL error.
fn cgl_text(what: &str, code: i32, text: &Option<String>) -> (r: String)
    ensures
        r@ == cgl_error_text(what@, code, *text),
{
    let mut out = what.to_owned();
    out.append(": CGL error ");
    push_signed(&mut out, code);
    out.append(" (");
    if let Some(text) = text {
        out.append(text.as_str());
    }
    out.append(")");
    assert(out@ =~= cgl_error_text(what@, code, *text));
    out
}

/// The failure of a CGL call, where `text` is what CGL says of the code.
pub fn cgl_error(what: &str, code: i32, text: &Option<String>) -> (r: Error)
    ensures
        is_setup_error(r, cgl_error_text(what@, code, *text)),
{
    Error::ExportSetup(cgl_text(what, code, text))
}

/// The context was made current with result `code`, where `text` is what CGL
/// says of it.
pub fn make_current(code: i32, text: &Option<String>) -> (r: Result<(), Error>)
    ensures
        if code == 0 {
            r is Ok
        } else {
            r matches Err(e) && is_setup_error(
                e,
                cgl_error_text("CGLSetCurrentContext"@, code, *text),
            )
        },
{
    if code != 0 {
        return Err(cgl_error("CGLSetCurrentContext", code, text));
    }
    Ok(())
}

/// The profiles to try, in order: mpv is happiest on the newest core profile
/// that the box offers.
pub open spec fn profile(i: int) -> i32 {
    if i == 0 {
        CGL_PROFILE_GL4_CORE
    } else if i == 1 {
        CGL_PROFILE_GL3_CORE
    } else {
        CGL_PROFILE_LEGACY
    }
}

/// The attributes that a pixel format is picked with.
pub open spec fn pixel_format_attribs(profile: i32) -> Seq<i32> {
    seq![CGL_PFA_OPENGL_PROFILE, profile, CGL_PFA_ALLOW_OFFLINE, 0]
}

/// The attributes that a pixel format is picked with.
pub fn pixel_format_attributes(profile: i32) -> (r: Vec<i32>)
    ensures
        r@ == pixel_format_attribs(profile),
{
    let r = vec![CGL_PFA_OPENGL_PROFILE, profile, CGL_PFA_ALLOW_OFFLINE, 0];
    assert(r@ =~= pixel_format_attribs(profile));
    r
}

/// What a CGL call gave: a code, and an object.
pub struct CglReply<T> {
    /// `0` on success.
    pub code: i32,
    /// The object, unless it is null.
    pub object: Option<T>,
}

impl<T> CglReply<T> {
    /// The object, where the call succeeded and gave one.
    pub open spec fn given(self) -> Option<T> {
        if self.code == 0 {
            self.object
        } else {
            None
        }
    }

    /// The object, where the call succeeded and gave one.
    pub fn get(self) -> (r: Option<T>)
        ensures
            r == self.given(),
    {
        if self.code == 0 {
            self.object
        } else {
            None
        }
    }
}

/// Profile `p` gave `made`: a pixel format was picked, and a context created
/// on it.
pub open spec fn profile_made<
    P,
    T,
    F: Fn(i32) -> CglReply<P>,
    G: Fn(P) -> CglReply<T>,
>(pick: F, create: G, p: i32, made: T) -> bool {
    exists|format: CglReply<P>, context: CglReply<T>|
        {
            &&& #[trigger] call_ensures(pick, (p,), format)
            &&& format.given() is Some
            &&& #[trigger] call_ensures(create, (format.given()->0,), context)
            &&& context.given() == Some(made)
        }
}

/// Profile `p` came to nothing: no pixel format was picked, or no context
/// created on it.
pub open spec fn profile_failed<
    P,
    T,
    F: Fn(i32) -> CglReply<P>,
    G: Fn(P) -> CglReply<T>,
>(pick: F, create: G, p: i32) -> bool {
    exists|format: CglReply<P>|
        {
            &&& #[trigger] call_ensures(pick, (p,), format)
            &&& format.given() is Some ==> exists|context: CglReply<T>|
                #[trigger] call_ensures(create, (format.given()->0,), context)
                    && context.given() is None
        }
}

/// Create the hidden context on the first profile that gives one. `pick`
/// picks a pixel format for a profile, `create` creates a context on it and
/// releases it.
pub fn create_context<P, T, F: Fn(i32) -> CglReply<P>, G: Fn(P) -> CglReply<T>>(
    pick: F,
    create: G,
) -> (r: Result<T, Error>)
    requires
        forall|p: i32| call_requires(pick, (p,)),
        forall|format: P| call_requires(create, (format,)),
    ensures
        match r {
            Ok(made) => exists|i: int|
                {
                    &&& 0 <= i < 3
                    &&& profile_made(pick, create, #[trigger] profile(i), made)
                    &&& forall|j: int|
                        0 <= j < i ==> profile_failed(pick, create, #[trigger] profile(j))
                },
            Err(e) => {
                &&& forall|j: int|
                    0 <= j < 3 ==> profile_failed(pick, create, #[trigger] profile(j))
                &&& is_setup_error(
                    e,
                    "no CGL pixel format/context available (session without WindowServer/GPU access?)"@,
                )
            },
        },
{
    let mut i: u32 = 0;
    while i < 3
        invariant
            0 <= i <= 3,
            forall|p: i32| call_requires(pick, (p,)),
            forall|format: P| call_requires(create, (format,)),
            forall|j: int| 0 <= j < i ==> profile_failed(pick, create, #[trigger] profile(j)),
        decreases 3 - i,
    {
        let p: i32 = if i == 0 {
            CGL_PROFILE_GL4_CORE
        } else if i == 1 {
            CGL_PROFILE_GL3_CORE
        } else {
            CGL_PROFILE_LEGACY
        };
        assert(p == profile(i as int));
        i = i + 1;
        let format = pick(p);
        let ghost picked = format;
        assert(call_ensures(pick, (p,), picked));
        if let Some(object) = format.get() {
            let context = create(object);
            let ghost created = context;
            assert(call_ensures(create, (picked.given()->0,), created));
            if let Some(made) = context.get() {
                assert(profile_made(pick, create, profile(i - 1), made));
                return Ok(made);
            }
        }
        assert(profile_failed(pick, create, profile(i - 1)));
    }
    Err(
        setup_error(
            "no CGL pixel format/context available (session without WindowServer/GPU access?)",
        ),
    )
}

/// The properties of an IOSurface: width, height, bytes per element, pixel
/// format.
pub open spec fn surface_values(width: u32, height: u32) -> Seq<i32> {
    seq![width as i32, height as i32, 4, PIXEL_FORMAT_BGRA]
}

/// A `width`×`height` IOSurface is wanted.
pub struct SurfaceWanted {
    /// Width in pixels.
    pub width: u32,
    /// Height in pixels.
    pub height: u32,
}

impl SurfaceWanted {
    /// The properties to create the IOSurface with: width, height, bytes per
    /// element, pixel format.
    pub fn values(&self) -> (r: Vec<i32>)
        ensures
            r@ == surface_values(self.width, self.height),
    {
        let r = vec![self.width as i32, self.height as i32, 4, PIXEL_FORMAT_BGRA];
        assert(r@ =~= surface_values(self.width, self.height));
        r
    }

    /// The dictionary of properties was created, and the IOSurface from it,
    /// or not. `surface` is not asked for without a dictionary.
    pub fn created(self, dictionary: bool, surface: bool) -> (r: Result<SurfaceHeld, Error>)
        ensures
            match r {
                Ok(next) => dictionary && surface && next == (SurfaceHeld {
                    width: self.width,
                    height: self.height,
                    internal_format: GL_RGBA8,
                }),
                Err(e) => if !dictionary {
                    is_setup_error(e, "CFDictionaryCreate failed"@)
                } else {
                    !surface && is_setup_error(
                        e,
                        "IOSurfaceCreate failed for "@ + decimal(self.width as nat) + "x"@
                            + decimal(self.height as nat),
                    )
                },
            },
    {
        if !dictionary {
            return Err(setup_error("CFDictionaryCreate failed"));
        }
        if !surface {
            let mut out = "IOSurfaceCreate failed for ".to_owned();
            push_decimal(&mut out, self.width);
            out.append("x");
            push_decimal(&mut out, self.height);
            return Err(Error::ExportSetup(out));
        }
        Ok(SurfaceHeld { width: self.width, height: self.height, internal_format: GL_RGBA8 })
    }
}

/// An IOSurface is held, and a texture to wrap it in.
#[non_exhaustive]
pub struct SurfaceHeld {
    /// Width in pixels.
    pub width: u32,
    /// Height in pixels.
    pub height: u32,
    /// The internal format to wrap it with: a sized one first, which a core
    /// profile wants, then the unsized one that older drivers accept.
    pub internal_format: u32,
}

/// What comes after an IOSurface was to be wrapped.
pub enum WrapStep {
    /// It is wrapped.
    Wrapped(TextureHeld),
    /// Wrap it with another internal format.
    Retry(SurfaceHeld),
    /// It cannot be wrapped.
    Failed(SetupFailure<MacResource>),
}

impl SurfaceHeld {
    /// What is held.
    pub open spec fn held(self) -> Seq<MacResource> {
        seq![MacResource::Surface, MacResource::Texture]
    }

    /// The IOSurface was wrapped with code `code`, of which CGL says `text`.
    pub fn wrapped(self, code: i32, text: &Option<String>) -> (r: WrapStep)
        ensures
            if code == 0 {
                r == WrapStep::Wrapped(TextureHeld { width: self.width, height: self.height })
            } else if self.internal_format == GL_RGBA8 {
                r == WrapStep::Retry(SurfaceHeld { internal_format: GL_RGBA, ..self })
            } else {
                r matches WrapStep::Failed(f) && f.unwinds(
                    self.held(),
                    cgl_error_text("CGLTexImageIOSurface2D"@, code, *text),
                )
            },
    {
        if code == 0 {
            WrapStep::Wrapped(TextureHeld { width: self.width, height: self.height })
        } else if self.internal_format == GL_RGBA8 {
            WrapStep::Retry(
                SurfaceHeld { width: self.width, height: self.height, internal_format: GL_RGBA },
            )
        } else {
            let f = SetupFailure {
                release: vec![MacResource::Texture, MacResource::Surface],
                error: cgl_error("CGLTexImageIOSurface2D", code, text),
            };
            assert(f.release@ =~= self.held().reverse());
            WrapStep::Failed(f)
        }
    }
}

/// An IOSurface and the texture that wraps it are held, and a framebuffer to
/// attach it to.
#[non_exhaustive]
pub struct TextureHeld {
    /// Width in pixels.
    pub width: u32,
    /// Height in pixels.
    pub height: u32,
}

impl TextureHeld {
    /// What is held.
    pub open spec fn held(self) -> Seq<MacResource> {
        seq![MacResource::Surface, MacResource::Texture, MacResource::Framebuffer]
    }

    /// The texture was attached to the framebuffer, whose status is `status`.
    pub fn attached(self, status: u32) -> (r: Result<(), SetupFailure<MacResource>>)
        ensures
            match r {
                Ok(_) => status == GL_FRAMEBUFFER_COMPLETE,
                Err(f) => status != GL_FRAMEBUFFER_COMPLETE && f.unwinds(
                    self.held(),
                    "IOSurface framebuffer incomplete (status "@ + hex(status as nat, 1) + ")"@,
                ),
            },
    {
        if status != GL_FRAMEBUFFER_COMPLETE {
            let mut out = "IOSurface framebuffer incomplete (status ".to_owned();
            push_hex(&mut out, status, 1);
            out.append(")");
            let f = SetupFailure {
                release: vec![MacResource::Framebuffer, MacResource::Texture, MacResource::Surface],
                error: Error::ExportSetup(out),
            };
            assert(f.release@ =~= self.held().reverse());
            return Err(f);
        }
        Ok(())
    }
}

/// The GL names behind a finished buffer, which only the render thread uses.
#[derive(Debug, Clone, Copy, PartialEq, Eq, Structural)]
pub struct MacNames {
    /// The framebuffer, `0` if deleted.
    pub framebuffer: u32,
    /// The texture, `0` if deleted.
    pub texture: u32,
}

/// The names that are still there, in the order of their deletion.
pub open spec fn live_names(names: MacNames) -> Seq<MacResource> {
    (if names.framebuffer != 0 {
        seq![MacResource::Framebuffer]
    } else {
        Seq::empty()
    }) + (if names.texture != 0 {
        seq![MacResource::Texture]
    } else {
        Seq::empty()
    })
}

impl MacNames {
    /// Delete what is still there: the names to delete, in order.
    pub fn delete_gl(&mut self) -> (r: Vec<MacResource>)
        ensures
            r@ == live_names(*old(self)),
            *final(self) == (MacNames { framebuffer: 0, texture: 0 }),
    {
        let mut out: Vec<MacResource> = Vec::new();
        if self.framebuffer != 0 {
            out.push(MacResource::Framebuffer);
            self.framebuffer = 0;
        }
        if self.texture != 0 {
            out.push(MacResource::Texture);
            self.texture = 0;
        }
        assert(out@ =~= live_names(*old(self)));
        out
    }
}

/// Deleted names are not deleted again.
pub proof fn law_names_are_deleted_once()
    ensures
        live_names(MacNames { framebuffer: 0, texture: 0 }) == Seq::<MacResource>::empty(),
{
}

} // verus!
