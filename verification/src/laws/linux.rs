//! Laws of the Linux backend's setup.

use vstd::prelude::*;

use crate::error::Error;
use crate::export::linux::{
    config_found, create_context, display_has_extension, egl_error, entry_points,
    first_usable_node, make_current, node_path, BoHeld, BoStep, BoWanted, BufferLayout,
    ContextAttempt, DeviceHeld, DisplayChecked, DisplayFound, DisplayHeld, FdHeld, ImageHeld,
    Importing, LinuxNames, LinuxResource, NodeHeld, NodeReply, TextureHeld,
};
#[allow(unused_imports)]
use crate::export::linux::{
    attempt_failed, attempt_made, config_chosen, context_attempt, entry_point, has_extension,
    last_failure, nodes_answered, none_usable, required_extension, BO_FLAGS,
};
use crate::export::setup::SetupFailure;
#[allow(unused_imports)]
use crate::export::setup::looked_up;
#[allow(unused_imports)]
use crate::laws::setup::{asked, unwound};
#[allow(unused_imports)]
use crate::text::{decimal, has_word, hex};

verus! {

/// The text of an EGL error: what was called, and the code in hexadecimal.
pub open spec fn egl_says(what: Seq<char>, code: i32) -> Seq<char> {
    what + ": EGL error "@ + hex((code as u32) as nat, 4)
}

/// EGL errors say what was called and with which code. A context that was made
/// current is no error.
pub proof fn law_egl_errors_carry_their_code(
    what: &str,
    code: i32,
    error: Error,
    made: Result<(), i32>,
    r: Result<(), Error>,
)
    requires
        call_ensures(egl_error, (what, code), error),
        call_ensures(make_current, (made,), r),
    ensures
        error matches Error::ExportSetup(text) && text@ == egl_says(what@, code),
        r is Ok <==> made is Ok,
        made matches Err(code) ==> (r matches Err(Error::ExportSetup(text)) && text@ == egl_says(
            "eglMakeCurrent (surfaceless)"@,
            code,
        )),
{
}

/// Render nodes are named by their minor number.
pub proof fn law_nodes_are_named_by_their_number(minor: u32, r: String)
    requires
        call_ensures(node_path, (minor,), r),
    ensures
        r@ == "/dev/dri/renderD"@ + decimal(minor as nat),
{
}

/// `try_node` answered `replies` for the nodes from 128 on, of which only the
/// last, if any, is a backend that is up.
pub open spec fn tried<T, O: Fn(u32) -> NodeReply<T>>(
    try_node: O,
    replies: Seq<NodeReply<T>>,
) -> bool {
    &&& replies.len() <= 64
    &&& forall|i: int|
        0 <= i < replies.len() ==> call_ensures(
            try_node,
            ((128 + i) as u32,),
            #[trigger] replies[i],
        )
    &&& forall|i: int| 0 <= i < replies.len() - 1 ==> !(#[trigger] replies[i] is Usable)
}

/// What is said where no node was usable: the failure of the last one that
/// opened, or that none did.
pub open spec fn says_why<T>(replies: Seq<NodeReply<T>>, error: Error) -> bool {
    ||| exists|k: int|
        {
            &&& 0 <= k < replies.len()
            &&& forall|i: int| k < i < replies.len() ==> #[trigger] replies[i] is Unopened
            &&& #[trigger] replies[k] matches NodeReply::Failed(why) && match why {
                Error::ExportSetup(text) => error matches Error::ExportSetup(said) && said@
                    == "no usable DRM render node (last tried: "@ + text@ + ")"@,
                _ => error == why,
            }
        }
    ||| {
        &&& forall|i: int| 0 <= i < replies.len() ==> #[trigger] replies[i] is Unopened
        &&& error matches Error::ExportSetup(said) && said@
            == "no DRM render node under /dev/dri (no GPU, or no permission — user not in the render/video group?)"@
    }
}

/// The last failure is that of the last node that opened.
proof fn lemma_last_failure<T>(replies: Seq<NodeReply<T>>, error: Error)
    requires
        none_usable(replies),
        crate::export::linux::is_node_error(error, last_failure(replies)),
    ensures
        says_why(replies, error),
    decreases replies.len(),
{
    if replies.len() > 0 {
        let last = replies.len() - 1;
        if let NodeReply::Failed(why) = replies.last() {
            assert(replies[last] matches NodeReply::Failed(w) && w == why);
        } else {
            assert(!(replies[last] is Usable));
            let rest = replies.drop_last();
            assert(none_usable(rest)) by {
                assert forall|i: int| 0 <= i < rest.len() implies !(#[trigger] rest[i] is Usable) by {
                    assert(rest[i] == replies[i]);
                }
            }
            lemma_last_failure(rest, error);
            if exists|k: int|
                {
                    &&& 0 <= k < rest.len()
                    &&& forall|i: int| k < i < rest.len() ==> #[trigger] rest[i] is Unopened
                    &&& #[trigger] rest[k] matches NodeReply::Failed(why) && match why {
                        Error::ExportSetup(text) => error matches Error::ExportSetup(said) && said@
                            == "no usable DRM render node (last tried: "@ + text@ + ")"@,
                        _ => error == why,
                    }
                } {
                let k = choose|k: int|
                    {
                        &&& 0 <= k < rest.len()
                        &&& forall|i: int| k < i < rest.len() ==> #[trigger] rest[i] is Unopened
                        &&& #[trigger] rest[k] matches NodeReply::Failed(why) && match why {
                            Error::ExportSetup(text) => error matches Error::ExportSetup(said)
                                && said@ == "no usable DRM render node (last tried: "@ + text@
                                + ")"@,
                            _ => error == why,
                        }
                    };
                assert(replies[k] == rest[k]);
                assert forall|i: int| k < i < replies.len() implies #[trigger] replies[i] is Unopened by {
                    if i < rest.len() {
                        assert(rest[i] == replies[i]);
                    }
                }
            } else {
                assert forall|i: int| 0 <= i < replies.len() implies #[trigger] replies[i] is Unopened by {
                    if i < rest.len() {
                        assert(rest[i] == replies[i]);
                    }
                }
            }
        }
    }
}

/// The backend comes up on the first of the 64 render nodes that is usable, from
/// 128 on, and none after it is tried. Where none is, every one was tried, and
/// the failure of the last that opened is told, or that none opened.
pub proof fn law_the_first_usable_node_is_taken<T, O: Fn(u32) -> NodeReply<T>>(
    try_node: O,
    r: Result<T, Error>,
)
    requires
        call_ensures(first_usable_node::<T, O>, (try_node,), r),
    ensures
        exists|replies: Seq<NodeReply<T>>|
            {
                &&& #[trigger] tried(try_node, replies)
                &&& match r {
                    Ok(up) => replies.len() > 0 && replies.last() == NodeReply::Usable(up),
                    Err(error) => replies.len() == 64 && !(replies.last() is Usable) && says_why(
                        replies,
                        error,
                    ),
                }
            },
{
    let replies = choose|replies: Seq<NodeReply<T>>|
        {
            &&& #[trigger] nodes_answered(try_node, replies)
            &&& match r {
                Ok(up) => {
                    &&& 0 < replies.len() <= 64
                    &&& replies.last() == NodeReply::Usable(up)
                    &&& none_usable(replies.drop_last())
                },
                Err(e) => {
                    &&& replies.len() == 64
                    &&& none_usable(replies)
                    &&& crate::export::linux::is_node_error(e, last_failure(replies))
                },
            }
        };
    assert forall|i: int| 0 <= i < replies.len() - 1 implies !(#[trigger] replies[i] is Usable) by {
        assert(replies.drop_last()[i] == replies[i]);
    }
    assert(tried(try_node, replies));
    if let Err(e) = r {
        lemma_last_failure(replies, e);
        assert(!(replies[63] is Usable));
    }
}

/// A display has an extension if and only if its list has that whole word.
pub proof fn law_extensions_are_whole_words(exts: Option<String>, name: &str, r: bool)
    requires
        call_ensures(display_has_extension, (&exts, name), r),
    ensures
        r <==> (exts matches Some(list) && has_word(list@, name@)),
{
}

/// A display is usable if and only if it has the three extensions that the
/// backend needs, and the first that it lacks is named. Whether a context needs
/// no config is a fourth, which may be missing.
pub proof fn law_a_display_has_what_is_needed(
    display: DisplayHeld,
    exts: Option<String>,
    r: Result<DisplayChecked, SetupFailure<LinuxResource>>,
)
    requires
        call_ensures(DisplayHeld::extensions, (display, &exts), r),
    ensures
        ({
            let base = has_extension(exts, "EGL_KHR_image_base"@);
            let import = has_extension(exts, "EGL_EXT_image_dma_buf_import"@);
            let surfaceless = has_extension(exts, "EGL_KHR_surfaceless_context"@);
            let release = seq![LinuxResource::Display, LinuxResource::Device, LinuxResource::Node];
            let missing = if !base {
                "EGL_KHR_image_base"@
            } else if !import {
                "EGL_EXT_image_dma_buf_import"@
            } else {
                "EGL_KHR_surfaceless_context"@
            };
            &&& r is Ok <==> base && import && surfaceless
            &&& r matches Ok(checked) ==> checked.no_config == has_extension(
                exts,
                "EGL_KHR_no_config_context"@,
            )
            &&& r matches Err(f) ==> unwound(
                f,
                release,
                "EGL display lacks "@ + missing + " (driver too old for DMA-BUF export)"@,
            )
        }),
        forall|name: Seq<char>| #[trigger]
            has_extension(exts, name) <==> (exts matches Some(list) && has_word(list@, name)),
{
    assert(required_extension(0) == "EGL_KHR_image_base"@);
    assert(required_extension(1) == "EGL_EXT_image_dma_buf_import"@);
    assert(required_extension(2) == "EGL_KHR_surfaceless_context"@);
    lemma_display_release();
}

proof fn lemma_display_release()
    ensures
        crate::export::linux::display_held().reverse() == seq![
            LinuxResource::Display,
            LinuxResource::Device,
            LinuxResource::Node,
        ],
{
    assert(crate::export::linux::display_held().reverse() =~= seq![
        LinuxResource::Display,
        LinuxResource::Device,
        LinuxResource::Node,
    ]);
}

/// The names of the entry points are these fourteen, in this order.
pub proof fn law_the_entry_points_are_these(r: Vec<&'static str>)
    requires
        call_ensures(entry_points, (), r),
    ensures
        r@.len() == 14,
        r@[0]@ == "eglCreateImageKHR"@,
        r@[1]@ == "eglDestroyImageKHR"@,
        r@[2]@ == "glGenTextures"@,
        r@[3]@ == "glDeleteTextures"@,
        r@[4]@ == "glBindTexture"@,
        r@[5]@ == "glTexParameteri"@,
        r@[6]@ == "glEGLImageTargetTexture2DOES"@,
        r@[7]@ == "glGenFramebuffers"@,
        r@[8]@ == "glDeleteFramebuffers"@,
        r@[9]@ == "glBindFramebuffer"@,
        r@[10]@ == "glFramebufferTexture2D"@,
        r@[11]@ == "glCheckFramebufferStatus"@,
        r@[12]@ == "glGetError"@,
        r@[13]@ == "glFinish"@,
        forall|i: int| 0 <= i < 14 ==> (#[trigger] r@[i])@ == entry_point(i),
{
}

/// Loading succeeds only where every entry point was found. Otherwise the first
/// that was not is named, and everything is released.
pub proof fn law_every_entry_point_is_loaded<L: Fn(&str) -> bool>(
    checked: DisplayChecked,
    load: L,
    r: Result<(), SetupFailure<LinuxResource>>,
    code: i32,
    none: SetupFailure<LinuxResource>,
    j: int,
)
    requires
        call_ensures(DisplayChecked::load::<L>, (&checked, load), r),
        call_ensures(DisplayChecked::no_context, (&checked, code), none),
        0 <= j < 14,
    ensures
        r is Ok ==> asked(load, entry_point(j), true),
        r matches Err(f) ==> exists|i: int|
            {
                &&& 0 <= i < 14
                &&& asked(load, #[trigger] entry_point(i), false)
                &&& j < i ==> asked(load, entry_point(j), true)
                &&& unwound(
                    f,
                    seq![LinuxResource::Display, LinuxResource::Device, LinuxResource::Node],
                    "required GL/EGL entry point missing: "@ + entry_point(i),
                )
            },
        unwound(
            none,
            seq![LinuxResource::Display, LinuxResource::Device, LinuxResource::Node],
            egl_says("eglCreateContext (GL, GLES3, GLES2 all refused)"@, code),
        ),
{
    lemma_display_release();
    if r is Ok {
        assert(looked_up(load, entry_point(j), true));
    }
}

/// Each step from the render node to the display goes on where its call went
/// well. Where it did not, it says so, and releases what is open, newest first.
pub proof fn law_a_display_is_brought_up_step_by_step(
    node: NodeHeld,
    device: DeviceHeld,
    found: DisplayFound,
    made: bool,
    reply: Result<(), i32>,
    a: Result<DeviceHeld, SetupFailure<LinuxResource>>,
    b: Result<DisplayFound, SetupFailure<LinuxResource>>,
    c: Result<DisplayHeld, SetupFailure<LinuxResource>>,
)
    requires
        call_ensures(NodeHeld::device, (node, made), a),
        call_ensures(DeviceHeld::display, (device, reply), b),
        call_ensures(DisplayFound::initialized, (found, reply), c),
    ensures
        a is Ok <==> made,
        b is Ok <==> reply is Ok,
        c is Ok <==> reply is Ok,
        a matches Err(f) ==> unwound(
            f,
            seq![LinuxResource::Node],
            "gbm_create_device failed on the render node"@,
        ),
        b matches Err(f) ==> unwound(
            f,
            seq![LinuxResource::Device, LinuxResource::Node],
            egl_says("eglGetPlatformDisplay(GBM)"@, reply->Err_0),
        ),
        c matches Err(f) ==> unwound(
            f,
            seq![LinuxResource::Device, LinuxResource::Node],
            egl_says("eglInitialize"@, reply->Err_0),
        ),
{
    assert(node.held().reverse() =~= seq![LinuxResource::Node]);
    assert(device.held().reverse() =~= seq![LinuxResource::Device, LinuxResource::Node]);
    assert(found.held().reverse() =~= seq![LinuxResource::Device, LinuxResource::Node]);
}

/// A context is tried as desktop GL first, then as GLES 3, then as GLES 2, each
/// with the attributes for its version.
pub proof fn law_the_ladder_goes_from_desktop_to_gles(a: ContextAttempt, r: Vec<i32>)
    requires
        call_ensures(ContextAttempt::attribs, (&a,), r),
    ensures
        context_attempt(0) == (ContextAttempt { api: 0x30A2, renderable: 8, version: 0 }),
        context_attempt(1) == (ContextAttempt { api: 0x30A0, renderable: 4, version: 3 }),
        context_attempt(2) == (ContextAttempt { api: 0x30A0, renderable: 4, version: 2 }),
        a.version == 0 ==> r@ == seq![0x3038i32],
        a.version != 0 ==> r@ == seq![0x3098i32, a.version, 0x3038i32],
{
}

/// A rung of the ladder gives a context only where its API binds, and where it
/// either needs no config or has one.
pub proof fn law_a_rung_needs_its_api_and_config<
    K,
    T,
    B: Fn(u32) -> bool,
    F: Fn(i32) -> Option<K>,
    G: Fn(Option<K>, ContextAttempt) -> Option<T>,
>(no_config: bool, bind: B, pick: F, create: G, r: Option<T>)
    requires
        call_ensures(create_context::<K, T, B, F, G>, (no_config, bind, pick, create), r),
    ensures
        r matches Some(t) ==> exists|i: int, config: Option<K>|
            {
                &&& 0 <= i < 3
                &&& call_ensures(bind, ((#[trigger] context_attempt(i)).api,), true)
                &&& #[trigger] call_ensures(create, (config, context_attempt(i)), Some(t))
                &&& no_config <==> config is None
                &&& !no_config ==> call_ensures(pick, (context_attempt(i).renderable,), config)
                &&& forall|j: int|
                    0 <= j < i ==> attempt_failed(
                        no_config,
                        bind,
                        pick,
                        create,
                        #[trigger] context_attempt(j),
                    )
            },
        r is None ==> forall|j: int|
            0 <= j < 3 ==> attempt_failed(
                no_config,
                bind,
                pick,
                create,
                #[trigger] context_attempt(j),
            ),
{
    if let Some(t) = r {
        let i = choose|i: int|
            {
                &&& 0 <= i < 3
                &&& attempt_made(
                    no_config,
                    bind,
                    pick,
                    create,
                    #[trigger] context_attempt(i),
                    Some(t),
                )
                &&& forall|j: int|
                    0 <= j < i ==> attempt_failed(
                        no_config,
                        bind,
                        pick,
                        create,
                        #[trigger] context_attempt(j),
                    )
            };
        let config = choose|config: Option<K>|
            config_chosen(no_config, pick, context_attempt(i), config) && #[trigger] call_ensures(
                create,
                (config, context_attempt(i)),
                Some(t),
            );
        assert(call_ensures(create, (config, context_attempt(i)), Some(t)));
    }
}

/// A rung came to nothing only where its API does not bind, it has no config, or
/// the context is refused.
pub proof fn law_a_failed_rung_was_refused<
    K,
    T,
    B: Fn(u32) -> bool,
    F: Fn(i32) -> Option<K>,
    G: Fn(Option<K>, ContextAttempt) -> Option<T>,
>(no_config: bool, bind: B, pick: F, create: G, a: ContextAttempt)
    requires
        attempt_failed(no_config, bind, pick, create, a),
    ensures
        call_ensures(bind, (a.api,), false) || (!no_config && call_ensures(
            pick,
            (a.renderable,),
            None::<K>,
        )) || exists|config: Option<K>| #[trigger]
            call_ensures(create, (config, a), None::<T>) && (no_config <==> config is None),
{
    if !call_ensures(bind, (a.api,), false) && !(!no_config && call_ensures(
        pick,
        (a.renderable,),
        None::<K>,
    )) {
        let config = choose|config: Option<K>|
            config_chosen(no_config, pick, a, config) && #[trigger] call_ensures(
                create,
                (config, a),
                None::<T>,
            );
        assert(call_ensures(create, (config, a), None::<T>));
    }
}

/// A config is one that EGL found at least once, and said so.
pub proof fn law_a_config_was_found(ok: u32, count: i32, r: bool)
    requires
        call_ensures(config_found, (ok, count), r),
    ensures
        r <==> ok != 0 && count > 0,
{
}

/// A buffer object is asked for with an alpha channel first, at the size of the
/// frame, and once more without one; then there is none. It is linear and
/// rendered into.
pub proof fn law_a_buffer_object_is_asked_for_twice(
    width: u32,
    height: u32,
    first: BoWanted,
    wanted: BoWanted,
    made: bool,
    r: BoStep,
)
    requires
        call_ensures(BoWanted::new, (width, height), first),
        call_ensures(BoWanted::created, (wanted, made), r),
    ensures
        first.width == width && first.height == height && first.fourcc == 0x3432_5241,
        made ==> (r matches BoStep::Held(bo) && bo.width == wanted.width && bo.height
            == wanted.height && bo.fourcc == wanted.fourcc),
        !made && wanted.fourcc == 0x3432_5241 ==> (r matches BoStep::Retry(next) && next.width
            == wanted.width && next.height == wanted.height && next.fourcc == 0x3432_5258),
        !made && wanted.fourcc != 0x3432_5241 ==> (r matches BoStep::Failed(
            Error::ExportSetup(text),
        ) && text@ == "gbm_bo_create failed for "@ + decimal(wanted.width as nat) + "x"@ + decimal(
            wanted.height as nat,
        ) + " linear AR24/XR24"@),
        BO_FLAGS == 0x14,
{
}

/// Each step from a buffer object to a finished framebuffer goes on with the same
/// size, format and row distance where its call went well. Where it did not, it
/// says so, and releases what is held, newest first. The buffer object goes
/// whatever came of the import.
pub proof fn law_a_buffer_is_brought_up_step_by_step(
    bo: BoHeld,
    fd_held: FdHeld,
    importing: Importing,
    image_held: ImageHeld,
    texture: TextureHeld,
    fd: i32,
    stride: u32,
    reply: Result<(), i32>,
    error: u32,
    status: u32,
    a: Result<FdHeld, SetupFailure<LinuxResource>>,
    released: (LinuxResource, Importing),
    b: Result<ImageHeld, SetupFailure<LinuxResource>>,
    c: Result<TextureHeld, SetupFailure<LinuxResource>>,
    d: Result<BufferLayout, SetupFailure<LinuxResource>>,
)
    requires
        call_ensures(BoHeld::exported, (bo, fd), a),
        call_ensures(FdHeld::release_bo, (fd_held, stride), released),
        call_ensures(Importing::imported, (importing, reply), b),
        call_ensures(ImageHeld::bound, (image_held, error), c),
        call_ensures(TextureHeld::attached, (texture, status), d),
    ensures
        a is Ok <==> fd >= 0,
        a matches Ok(next) ==> next.width == bo.width && next.height == bo.height && next.fourcc
            == bo.fourcc && next.fd == fd,
        a matches Err(f) ==> unwound(f, seq![LinuxResource::Bo], "gbm_bo_get_fd failed"@),
        released.0 == LinuxResource::Bo,
        released.1.width == fd_held.width && released.1.height == fd_held.height,
        released.1.fourcc == fd_held.fourcc && released.1.stride == stride,
        b is Ok <==> reply is Ok,
        b matches Ok(next) ==> next.width == importing.width && next.height == importing.height
            && next.fourcc == importing.fourcc && next.stride == importing.stride,
        b matches Err(f) ==> unwound(
            f,
            seq![LinuxResource::Fd],
            egl_says("eglCreateImageKHR(DMA_BUF)"@, reply->Err_0),
        ),
        c is Ok <==> error == 0,
        c matches Ok(next) ==> next.width == image_held.width && next.height == image_held.height
            && next.fourcc == image_held.fourcc && next.stride == image_held.stride,
        c matches Err(f) ==> unwound(
            f,
            seq![LinuxResource::Texture, LinuxResource::Image, LinuxResource::Fd],
            "glEGLImageTargetTexture2DOES failed (GL error "@ + hex(error as nat, 4) + ")"@,
        ),
        d is Ok <==> status == 0x8CD5,
        d matches Ok(next) ==> next.width == texture.width && next.height == texture.height
            && next.fourcc == texture.fourcc && next.stride == texture.stride,
        d matches Err(f) ==> unwound(
            f,
            seq![
                LinuxResource::Framebuffer,
                LinuxResource::Texture,
                LinuxResource::Image,
                LinuxResource::Fd,
            ],
            "DMA-BUF framebuffer incomplete (status "@ + hex(status as nat, 1) + ")"@,
        ),
{
    assert(bo.held().reverse() =~= seq![LinuxResource::Bo]);
    assert(importing.held().reverse() =~= seq![LinuxResource::Fd]);
    assert(image_held.held().reverse() =~= seq![
        LinuxResource::Texture,
        LinuxResource::Image,
        LinuxResource::Fd,
    ]);
    assert(texture.held().reverse() =~= seq![
        LinuxResource::Framebuffer,
        LinuxResource::Texture,
        LinuxResource::Image,
        LinuxResource::Fd,
    ]);
}

/// A DMA-BUF is imported with its width, height, format, descriptor, the start
/// of its one plane and the distance of its rows, each behind the name that EGL
/// has for it.
pub proof fn law_a_dma_buf_is_described_to_egl(held: FdHeld, stride: u32, r: Vec<i32>)
    requires
        call_ensures(FdHeld::attribs, (&held, stride), r),
    ensures
        r@ == seq![
            0x3057i32,
            held.width as i32,
            0x3056i32,
            held.height as i32,
            0x3271i32,
            held.fourcc as i32,
            0x3272i32,
            held.fd,
            0x3273i32,
            0i32,
            0x3274i32,
            stride as i32,
            0x3038i32,
        ],
{
}

/// Deleting a buffer's names deletes those that are there, the framebuffer
/// before the texture before the image, and leaves none.
pub proof fn law_names_that_are_there_are_deleted(names: &mut LinuxNames, r: Vec<LinuxResource>)
    requires
        call_ensures(LinuxNames::delete_gl, (names,), r),
    ensures
        r@.contains(LinuxResource::Framebuffer) <==> old(names).framebuffer != 0,
        r@.contains(LinuxResource::Texture) <==> old(names).texture != 0,
        r@.contains(LinuxResource::Image) <==> old(names).image,
        r@.len() == (if old(names).framebuffer != 0 {
            1int
        } else {
            0int
        }) + (if old(names).texture != 0 {
            1int
        } else {
            0int
        }) + (if old(names).image {
            1int
        } else {
            0int
        }),
        old(names).framebuffer != 0 ==> r@[0] == LinuxResource::Framebuffer,
        old(names).image ==> r@.last() == LinuxResource::Image,
        final(names).framebuffer == 0,
        final(names).texture == 0,
        !final(names).image,
{
    let n = *old(names);
    if n.framebuffer != 0 {
        assert(r@[0] == LinuxResource::Framebuffer);
    }
    if n.texture != 0 {
        let at = if n.framebuffer != 0 {
            1int
        } else {
            0int
        };
        assert(r@[at] == LinuxResource::Texture);
    }
    if n.image {
        assert(r@[r@.len() - 1] == LinuxResource::Image);
    }
}

} // verus!
