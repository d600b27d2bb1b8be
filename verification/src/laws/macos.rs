//! Laws of the macOS backend's setup.

use vstd::prelude::*;

use crate::error::Error;
use crate::export::macos::{
    cgl_error, create_context, make_current, pixel_format_attributes, CglReply, MacNames,
    MacResource, SurfaceHeld, SurfaceWanted, TextureHeld, WrapStep,
};
#[allow(unused_imports)]
use crate::export::macos::{profile, profile_failed, profile_made};
use crate::export::setup::SetupFailure;
#[allow(unused_imports)]
use crate::laws::setup::unwound;
#[allow(unused_imports)]
use crate::text::{decimal, hex, signed_decimal};

verus! {

/// The text of a CGL error: what was called, the code, and what CGL says of it.
pub open spec fn cgl_says(what: Seq<char>, code: i32, text: Option<String>) -> Seq<char> {
    what + ": CGL error "@ + signed_decimal(code as int) + " ("@ + (match text {
        Some(text) => text@,
        None => Seq::empty(),
    }) + ")"@
}

/// CGL errors say what was called, with which code, and what CGL says of it. A
/// context that was made current is no error.
pub proof fn law_cgl_errors_carry_their_code(
    what: &str,
    code: i32,
    text: Option<String>,
    error: Error,
    r: Result<(), Error>,
)
    requires
        call_ensures(cgl_error, (what, code, &text), error),
        call_ensures(make_current, (code, &text), r),
    ensures
        error matches Error::ExportSetup(said) && said@ == cgl_says(what@, code, text),
        r is Ok <==> code == 0,
        code != 0 ==> (r matches Err(Error::ExportSetup(said)) && said@ == cgl_says(
            "CGLSetCurrentContext"@,
            code,
            text,
        )),
{
}

/// A pixel format is picked for its profile, on renderers without a display too.
pub proof fn law_a_pixel_format_is_picked_for_its_profile(wanted: i32, r: Vec<i32>)
    requires
        call_ensures(pixel_format_attributes, (wanted,), r),
    ensures
        r@ == seq![99i32, wanted, 96i32, 0i32],
{
}

/// A CGL call gave an object only where its code is zero.
pub proof fn law_a_reply_counts_where_it_succeeded<T>(reply: CglReply<T>, r: Option<T>)
    requires
        call_ensures(CglReply::<T>::get, (reply,), r),
    ensures
        reply.code == 0 ==> r == reply.object,
        reply.code != 0 ==> r is None,
        r == reply.given(),
{
}

/// The hidden context comes up on the first of the profiles that gives one: the
/// newest core profile, the older one, the legacy one. It is a context that was
/// created on a pixel format that was picked for that profile. Where none gives
/// one, all three were tried, and that is said.
pub proof fn law_the_newest_profile_is_taken<P, T, F: Fn(i32) -> CglReply<P>, G: Fn(P) -> CglReply<T>>(
    pick: F,
    create: G,
    r: Result<T, Error>,
)
    requires
        call_ensures(create_context::<P, T, F, G>, (pick, create), r),
    ensures
        profile(0) == 0x4100 && profile(1) == 0x3200 && profile(2) == 0x1000,
        r matches Ok(made) ==> exists|i: int, format: CglReply<P>, context: CglReply<T>|
            {
                &&& 0 <= i < 3
                &&& #[trigger] call_ensures(pick, (profile(i),), format)
                &&& format.code == 0 && format.object is Some
                &&& #[trigger] call_ensures(create, (format.object->0,), context)
                &&& context.code == 0 && context.object == Some(made)
                &&& forall|j: int|
                    0 <= j < i ==> profile_failed(pick, create, #[trigger] profile(j))
            },
        r matches Err(error) ==> {
            &&& forall|j: int| 0 <= j < 3 ==> profile_failed(pick, create, #[trigger] profile(j))
            &&& error matches Error::ExportSetup(said) && said@
                == "no CGL pixel format/context available (session without WindowServer/GPU access?)"@
        },
{
    if let Ok(made) = r {
        let i = choose|i: int|
            {
                &&& 0 <= i < 3
                &&& profile_made(pick, create, #[trigger] profile(i), made)
                &&& forall|j: int|
                    0 <= j < i ==> profile_failed(pick, create, #[trigger] profile(j))
            };
        let (format, context) = choose|format: CglReply<P>, context: CglReply<T>|
            {
                &&& #[trigger] call_ensures(pick, (profile(i),), format)
                &&& format.given() is Some
                &&& #[trigger] call_ensures(create, (format.given()->0,), context)
                &&& context.given() == Some(made)
            };
        assert(format.given() == format.object);
        assert(call_ensures(pick, (profile(i),), format));
        assert(call_ensures(create, (format.object->0,), context));
    }
}

/// A profile came to nothing only where no pixel format was picked for it, or no
/// context was created on one.
pub proof fn law_a_failed_profile_gave_nothing<
    P,
    T,
    F: Fn(i32) -> CglReply<P>,
    G: Fn(P) -> CglReply<T>,
>(pick: F, create: G, p: i32)
    requires
        profile_failed(pick, create, p),
    ensures
        exists|format: CglReply<P>| #[trigger]
            call_ensures(pick, (p,), format) && (format.code != 0 || format.object is None || exists|
                context: CglReply<T>,
            | #[trigger]
                call_ensures(create, (format.object->0,), context) && (context.code != 0
                    || context.object is None)),
{
    let format = choose|format: CglReply<P>|
        {
            &&& #[trigger] call_ensures(pick, (p,), format)
            &&& format.given() is Some ==> exists|context: CglReply<T>|
                #[trigger] call_ensures(create, (format.given()->0,), context)
                    && context.given() is None
        };
    assert(call_ensures(pick, (p,), format));
    if format.given() is Some {
        let context = choose|context: CglReply<T>| #[trigger]
            call_ensures(create, (format.given()->0,), context) && context.given() is None;
        assert(call_ensures(create, (format.object->0,), context));
    }
}

/// An IOSurface is asked for at the frame's size, four bytes an element, in BGRA.
/// It is held only where both the dictionary and the surface came up, and is
/// wrapped with the sized format first.
pub proof fn law_a_surface_is_asked_for_in_bgra(
    wanted: SurfaceWanted,
    values: Vec<i32>,
    dictionary: bool,
    surface: bool,
    r: Result<SurfaceHeld, Error>,
)
    requires
        call_ensures(SurfaceWanted::values, (&wanted,), values),
        call_ensures(SurfaceWanted::created, (wanted, dictionary, surface), r),
    ensures
        values@ == seq![wanted.width as i32, wanted.height as i32, 4i32, 0x4247_5241i32],
        r is Ok <==> dictionary && surface,
        r matches Ok(held) ==> held.width == wanted.width && held.height == wanted.height
            && held.internal_format == 0x8058,
        !dictionary ==> (r matches Err(Error::ExportSetup(said)) && said@
            == "CFDictionaryCreate failed"@),
        dictionary && !surface ==> (r matches Err(Error::ExportSetup(said)) && said@
            == "IOSurfaceCreate failed for "@ + decimal(wanted.width as nat) + "x"@ + decimal(
            wanted.height as nat,
        )),
{
}

/// An IOSurface is wrapped at its size. Where that fails with the sized format,
/// it is tried once with the unsized one; where that fails too, the texture and
/// the surface are released. A framebuffer over it must be complete.
pub proof fn law_a_surface_is_wrapped_or_released(
    held: SurfaceHeld,
    code: i32,
    text: Option<String>,
    r: WrapStep,
    texture: TextureHeld,
    status: u32,
    d: Result<(), SetupFailure<MacResource>>,
)
    requires
        call_ensures(SurfaceHeld::wrapped, (held, code, &text), r),
        call_ensures(TextureHeld::attached, (texture, status), d),
    ensures
        code == 0 ==> (r matches WrapStep::Wrapped(next) && next.width == held.width && next.height
            == held.height),
        code != 0 && held.internal_format == 0x8058 ==> (r matches WrapStep::Retry(next)
            && next.width == held.width && next.height == held.height && next.internal_format
            == 0x1908),
        code != 0 && held.internal_format != 0x8058 ==> (r matches WrapStep::Failed(f) && unwound(
            f,
            seq![MacResource::Texture, MacResource::Surface],
            cgl_says("CGLTexImageIOSurface2D"@, code, text),
        )),
        d is Ok <==> status == 0x8CD5,
        d matches Err(f) ==> unwound(
            f,
            seq![MacResource::Framebuffer, MacResource::Texture, MacResource::Surface],
            "IOSurface framebuffer incomplete (status "@ + hex(status as nat, 1) + ")"@,
        ),
{
    assert(held.held().reverse() =~= seq![MacResource::Texture, MacResource::Surface]);
    assert(texture.held().reverse() =~= seq![
        MacResource::Framebuffer,
        MacResource::Texture,
        MacResource::Surface,
    ]);
}

/// Deleting a buffer's names deletes those that are there, the framebuffer
/// before the texture, and leaves none.
pub proof fn law_names_that_are_there_are_deleted(names: &mut MacNames, r: Vec<MacResource>)
    requires
        call_ensures(MacNames::delete_gl, (names,), r),
    ensures
        old(names).framebuffer != 0 && old(names).texture != 0 ==> r@ == seq![
            MacResource::Framebuffer,
            MacResource::Texture,
        ],
        old(names).framebuffer != 0 && old(names).texture == 0 ==> r@ == seq![
            MacResource::Framebuffer,
        ],
        old(names).framebuffer == 0 && old(names).texture != 0 ==> r@ == seq![
            MacResource::Texture,
        ],
        old(names).framebuffer == 0 && old(names).texture == 0 ==> r@.len() == 0,
        final(names).framebuffer == 0,
        final(names).texture == 0,
{
}

} // verus!
