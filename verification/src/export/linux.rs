//! Decisions of the Linux backend: a hidden EGL context on a DRM render node,
//! and framebuffers whose color storage is a GBM-allocated DMA-BUF.
//!
//! Setting up either is a chain of values. Each says what is held so far, and
//! takes what came of the next call; a failed call says what to release.

use vstd::prelude::*;

use super::setup::{first_missing, setup_error, SetupFailure};
#[allow(unused_imports)]
use super::setup::{is_setup_error, looked_up};
use crate::error::Error;
use crate::text::{names_word, push_decimal, push_hex};
#[allow(unused_imports)]
use crate::text::{decimal, has_word, hex};

verus! {

/// DRM fourcc `'AR24'` (`DRM_FORMAT_ARGB8888`): little-endian B,G,R,A bytes.
pub const FOURCC_ARGB8888: u32 = 0x3432_5241;

/// DRM fourcc `'XR24'` (`DRM_FORMAT_XRGB8888`): the same bytes, of which
/// consumers must not trust the alpha.
pub const FOURCC_XRGB8888: u32 = 0x3432_5258;

/// `DRM_FORMAT_MOD_LINEAR`: the only layout that is produced.
pub const MODIFIER_LINEAR: u64 = 0;

/// `GBM_BO_USE_RENDERING | GBM_BO_USE_LINEAR`: linear, so that consumers need
/// no modifier negotiation and a readback can be a plain mapping.
pub const BO_FLAGS: u32 = 0x14;

pub const EGL_OPENGL_API: u32 = 0x30A2;
pub const EGL_OPENGL_ES_API: u32 = 0x30A0;
pub const EGL_OPENGL_BIT: i32 = 0x0008;
pub const EGL_OPENGL_ES2_BIT: i32 = 0x0004;
pub const EGL_CONTEXT_CLIENT_VERSION: i32 = 0x3098;
pub const EGL_NONE: i32 = 0x3038;
pub const EGL_WIDTH: i32 = 0x3057;
pub const EGL_HEIGHT: i32 = 0x3056;
pub const EGL_LINUX_DRM_FOURCC: i32 = 0x3271;
pub const EGL_DMA_BUF_PLANE0_FD: i32 = 0x3272;
pub const EGL_DMA_BUF_PLANE0_OFFSET: i32 = 0x3273;
pub const EGL_DMA_BUF_PLANE0_PITCH: i32 = 0x3274;
pub const GL_NO_ERROR: u32 = 0;
pub const GL_FRAMEBUFFER_COMPLETE: u32 = 0x8CD5;

/// The first and one past the last minor number of a DRM render node.
pub const FIRST_NODE: u32 = 128;
pub const NODES_END: u32 = 192;

/// What a setup on Linux holds.
#[derive(Debug, Clone, Copy, PartialEq, Eq, Structural)]
pub enum LinuxResource {
    /// The open render node.
    Node,
    /// The GBM device.
    Device,
    /// The initialized EGL display.
    Display,
    /// A GBM buffer object.
    Bo,
    /// A DMA-BUF file descriptor.
    Fd,
    /// An EGL image.
    Image,
    /// A GL texture name.
    Texture,
    /// A GL framebuffer name.
    Framebuffer,
}

/// The text of an EGL error.
pub open spec fn egl_error_text(what: Seq<char>, code: i32) -> Seq<char> {
    what + ": EGL error "@ + hex((code as u32) as nat, 4)
}

/// The text of an EGL error.
fn egl_text(what: &str, code: i32) -> (r: String)
    ensures
        r@ == egl_error_text(what@, code),
{
    let mut out = what.to_owned();
    out.append(": EGL error ");
    push_hex(&mut out, code as u32, 4);
    out
}

/// The failure of an EGL call, where `code` is the EGL error.
pub fn egl_error(what: &str, code: i32) -> (r: Error)
    ensures
        is_setup_error(r, egl_error_text(what@, code)),
{
    Error::ExportSetup(egl_text(what, code))
}

/// The context was made current without a surface, or not, for this EGL error.
pub fn make_current(made: Result<(), i32>) -> (r: Result<(), Error>)
    ensures
        match made {
            Ok(_) => r is Ok,
            Err(code) => r matches Err(e) && is_setup_error(
                e,
                egl_error_text("eglMakeCurrent (surfaceless)"@, code),
            ),
        },
{
    match made {
        Ok(_) => Ok(()),
        Err(code) => Err(egl_error("eglMakeCurrent (surfaceless)", code)),
    }
}

/// The path of a DRM render node.
pub fn node_path(minor: u32) -> (r: String)
    ensures
        r@ == "/dev/dri/renderD"@ + decimal(minor as nat),
{
    let mut out = "/dev/dri/renderD".to_owned();
    push_decimal(&mut out, minor);
    out
}

/// What came of trying a render node.
pub enum NodeReply<T> {
    /// It did not open.
    Unopened,
    /// It opened, but the backend did not come up on it.
    Failed(Error),
    /// The backend is up.
    Usable(T),
}

/// The failure of the last node that opened.
pub open spec fn last_failure<T>(replies: Seq<NodeReply<T>>) -> Option<Error>
    decreases replies.len(),
{
    if replies.len() == 0 {
        None
    } else {
        match replies.last() {
            NodeReply::Failed(e) => Some(e),
            _ => last_failure(replies.drop_last()),
        }
    }
}

/// `error` is what is said where no node was usable and the last one that
/// opened failed with `last`.
pub open spec fn is_node_error(error: Error, last: Option<Error>) -> bool {
    match last {
        Some(Error::ExportSetup(why)) => is_setup_error(
            error,
            "no usable DRM render node (last tried: "@ + why@ + ")"@,
        ),
        Some(e) => error == e,
        None => is_setup_error(
            error,
            "no DRM render node under /dev/dri (no GPU, or no permission — user not in the render/video group?)"@,
        ),
    }
}

/// `try_node` answered `replies` for the nodes from the first on.
pub open spec fn nodes_answered<T, O: Fn(u32) -> NodeReply<T>>(
    try_node: O,
    replies: Seq<NodeReply<T>>,
) -> bool {
    forall|i: int|
        0 <= i < replies.len() ==> call_ensures(
            try_node,
            ((FIRST_NODE + i) as u32,),
            #[trigger] replies[i],
        )
}

/// None of `replies` is a backend that is up.
pub open spec fn none_usable<T>(replies: Seq<NodeReply<T>>) -> bool {
    forall|i: int| 0 <= i < replies.len() ==> !(#[trigger] replies[i] is Usable)
}

/// Bring the backend up on the first usable render node. A node that opens is
/// not enough on hybrid-GPU boxes, so every failure falls through to the
/// next node.
pub fn first_usable_node<T, O: Fn(u32) -> NodeReply<T>>(try_node: O) -> (r: Result<T, Error>)
    requires
        forall|minor: u32| call_requires(try_node, (minor,)),
    ensures
        exists|replies: Seq<NodeReply<T>>|
            {
                &&& #[trigger] nodes_answered(try_node, replies)
                &&& match r {
                    Ok(up) => {
                        &&& 0 < replies.len() <= NODES_END - FIRST_NODE
                        &&& replies.last() == NodeReply::Usable(up)
                        &&& none_usable(replies.drop_last())
                    },
                    Err(e) => {
                        &&& replies.len() == NODES_END - FIRST_NODE
                        &&& none_usable(replies)
                        &&& is_node_error(e, last_failure(replies))
                    },
                }
            },
{
    let ghost mut replies: Seq<NodeReply<T>> = Seq::empty();
    let mut last: Option<Error> = None;
    let mut minor: u32 = FIRST_NODE;
    while minor < NODES_END
        invariant
            FIRST_NODE <= minor <= NODES_END,
            replies.len() == minor - FIRST_NODE,
            forall|minor: u32| call_requires(try_node, (minor,)),
            nodes_answered(try_node, replies),
            none_usable(replies),
            last == last_failure(replies),
        decreases NODES_END - minor,
    {
        let reply = try_node(minor);
        let ghost before = replies;
        proof {
            replies = replies.push(reply);
            assert(replies.drop_last() =~= before);
            assert forall|i: int| 0 <= i < replies.len() implies call_ensures(
                try_node,
                ((FIRST_NODE + i) as u32,),
                #[trigger] replies[i],
            ) by {
                if i < before.len() {
                    assert(replies[i] == before[i]);
                }
            }
            assert(nodes_answered(try_node, replies));
        }
        match reply {
            NodeReply::Unopened => {},
            NodeReply::Failed(e) => {
                last = Some(e);
            },
            NodeReply::Usable(up) => {
                assert(replies.last() == NodeReply::Usable(up));
                return Ok(up);
            },
        }
        minor = minor + 1;
    }
    match last {
        Some(Error::ExportSetup(why)) => {
            let mut out = "no usable DRM render node (last tried: ".to_owned();
            out.append(why.as_str());
            out.append(")");
            Err(Error::ExportSetup(out))
        },
        Some(e) => Err(e),
        None => Err(
            setup_error(
                "no DRM render node under /dev/dri (no GPU, or no permission — user not in the render/video group?)",
            ),
        ),
    }
}

/// The EGL extensions that the backend needs.
pub open spec fn required_extension(i: int) -> Seq<char> {
    if i == 0 {
        "EGL_KHR_image_base"@
    } else if i == 1 {
        "EGL_EXT_image_dma_buf_import"@
    } else {
        "EGL_KHR_surfaceless_context"@
    }
}

/// The display, whose extensions are `exts`, has extension `name`.
pub open spec fn has_extension(exts: Option<String>, name: Seq<char>) -> bool {
    exts matches Some(exts) && has_word(exts@, name)
}

/// Whether the display, whose extensions are `exts`, has extension `name`.
pub fn display_has_extension(exts: &Option<String>, name: &str) -> (r: bool)
    ensures
        r == has_extension(*exts, name@),
{
    match exts {
        Some(exts) => names_word(exts.as_str(), name),
        None => false,
    }
}

/// The text for a display without extension `name`.
pub open spec fn lacks_extension_text(name: Seq<char>) -> Seq<char> {
    "EGL display lacks "@ + name + " (driver too old for DMA-BUF export)"@
}

/// The text for a display without extension `name`.
fn lacks_extension(name: &str) -> (r: String)
    ensures
        r@ == lacks_extension_text(name@),
{
    let mut out = "EGL display lacks ".to_owned();
    out.append(name);
    out.append(" (driver too old for DMA-BUF export)");
    out
}

/// The names of the entry points, in the order of their load.
pub open spec fn entry_point(i: int) -> Seq<char> {
    if i == 0 {
        "eglCreateImageKHR"@
    } else if i == 1 {
        "eglDestroyImageKHR"@
    } else if i == 2 {
        "glGenTextures"@
    } else if i == 3 {
        "glDeleteTextures"@
    } else if i == 4 {
        "glBindTexture"@
    } else if i == 5 {
        "glTexParameteri"@
    } else if i == 6 {
        "glEGLImageTargetTexture2DOES"@
    } else if i == 7 {
        "glGenFramebuffers"@
    } else if i == 8 {
        "glDeleteFramebuffers"@
    } else if i == 9 {
        "glBindFramebuffer"@
    } else if i == 10 {
        "glFramebufferTexture2D"@
    } else if i == 11 {
        "glCheckFramebufferStatus"@
    } else if i == 12 {
        "glGetError"@
    } else {
        "glFinish"@
    }
}

/// How many entry points there are.
pub const ENTRY_POINTS: usize = 14;

/// The entry points that are loaded before the context exists, in order.
pub fn entry_points() -> (r: Vec<&'static str>)
    ensures
        r@.len() == ENTRY_POINTS,
        forall|i: int| 0 <= i < ENTRY_POINTS ==> (#[trigger] r@[i])@ == entry_point(i),
{
    let mut names: Vec<&'static str> = Vec::new();
    names.push("eglCreateImageKHR");
    names.push("eglDestroyImageKHR");
    names.push("glGenTextures");
    names.push("glDeleteTextures");
    names.push("glBindTexture");
    names.push("glTexParameteri");
    names.push("glEGLImageTargetTexture2DOES");
    names.push("glGenFramebuffers");
    names.push("glDeleteFramebuffers");
    names.push("glBindFramebuffer");
    names.push("glFramebufferTexture2D");
    names.push("glCheckFramebufferStatus");
    names.push("glGetError");
    names.push("glFinish");
    names
}

/// A failure that releases `release` and says `text`.
fn failure(release: Vec<LinuxResource>, text: String) -> (r: SetupFailure<LinuxResource>)
    ensures
        r.release@ == release@,
        is_setup_error(r.error, text@),
{
    SetupFailure { release, error: Error::ExportSetup(text) }
}

/// A render node is open.
pub struct NodeHeld;

/// A GBM device is open on the node.
#[non_exhaustive]
pub struct DeviceHeld;

/// The EGL display is found, not initialized.
#[non_exhaustive]
pub struct DisplayFound;

/// The EGL display is initialized.
#[non_exhaustive]
pub struct DisplayHeld;

/// The EGL display has what the backend needs.
#[non_exhaustive]
pub struct DisplayChecked {
    /// A context needs no config.
    pub no_config: bool,
}

impl NodeHeld {
    /// What is held.
    pub open spec fn held(self) -> Seq<LinuxResource> {
        seq![LinuxResource::Node]
    }

    /// A GBM device was created on the node, or not.
    pub fn device(self, made: bool) -> (r: Result<DeviceHeld, SetupFailure<LinuxResource>>)
        ensures
            match r {
                Ok(_) => made,
                Err(f) => !made && f.unwinds(
                    self.held(),
                    "gbm_create_device failed on the render node"@,
                ),
            },
    {
        if made {
            Ok(DeviceHeld)
        } else {
            let f = failure(
                vec![LinuxResource::Node],
                "gbm_create_device failed on the render node".to_owned(),
            );
            assert(f.release@ =~= self.held().reverse());
            Err(f)
        }
    }
}

impl DeviceHeld {
    /// What is held.
    pub open spec fn held(self) -> Seq<LinuxResource> {
        seq![LinuxResource::Node, LinuxResource::Device]
    }

    /// The device's EGL display was found, or not: then with the EGL error.
    pub fn display(self, found: Result<(), i32>) -> (r: Result<
        DisplayFound,
        SetupFailure<LinuxResource>,
    >)
        ensures
            match r {
                Ok(_) => found is Ok,
                Err(f) => found matches Err(code) && f.unwinds(
                    self.held(),
                    egl_error_text("eglGetPlatformDisplay(GBM)"@, code),
                ),
            },
    {
        match found {
            Ok(_) => Ok(DisplayFound),
            Err(code) => {
                let f = failure(
                    vec![LinuxResource::Device, LinuxResource::Node],
                    egl_text("eglGetPlatformDisplay(GBM)", code),
                );
                assert(f.release@ =~= self.held().reverse());
                Err(f)
            },
        }
    }
}

impl DisplayFound {
    /// What is held: a display that is not initialized needs no release.
    pub open spec fn held(self) -> Seq<LinuxResource> {
        seq![LinuxResource::Node, LinuxResource::Device]
    }

    /// The display was initialized, or not: then with the EGL error.
    pub fn initialized(self, done: Result<(), i32>) -> (r: Result<
        DisplayHeld,
        SetupFailure<LinuxResource>,
    >)
        ensures
            match r {
                Ok(_) => done is Ok,
                Err(f) => done matches Err(code) && f.unwinds(
                    self.held(),
                    egl_error_text("eglInitialize"@, code),
                ),
            },
    {
        match done {
            Ok(_) => Ok(DisplayHeld),
            Err(code) => {
                let f = failure(
                    vec![LinuxResource::Device, LinuxResource::Node],
                    egl_text("eglInitialize", code),
                );
                assert(f.release@ =~= self.held().reverse());
                Err(f)
            },
        }
    }
}

/// What is held once the display is initialized.
pub open spec fn display_held() -> Seq<LinuxResource> {
    seq![LinuxResource::Node, LinuxResource::Device, LinuxResource::Display]
}

/// A failure that releases everything that is held with a display.
fn display_failure(text: String) -> (r: SetupFailure<LinuxResource>)
    ensures
        r.unwinds(display_held(), text@),
{
    let f = failure(
        vec![LinuxResource::Display, LinuxResource::Device, LinuxResource::Node],
        text,
    );
    assert(f.release@ =~= display_held().reverse());
    f
}

impl DisplayHeld {
    /// Check the display's extensions. The first that is missing is named.
    pub fn extensions(self, exts: &Option<String>) -> (r: Result<
        DisplayChecked,
        SetupFailure<LinuxResource>,
    >)
        ensures
            match r {
                Ok(checked) => {
                    &&& forall|i: int|
                        0 <= i < 3 ==> has_extension(*exts, #[trigger] required_extension(i))
                    &&& checked.no_config == has_extension(*exts, "EGL_KHR_no_config_context"@)
                },
                Err(f) => exists|i: int|
                    {
                        &&& 0 <= i < 3
                        &&& !has_extension(*exts, #[trigger] required_extension(i))
                        &&& forall|j: int|
                            0 <= j < i ==> has_extension(*exts, #[trigger] required_extension(j))
                        &&& f.unwinds(display_held(), lacks_extension_text(required_extension(i)))
                    },
            },
    {
        if !display_has_extension(exts, "EGL_KHR_image_base") {
            assert(!has_extension(*exts, required_extension(0)));
            return Err(display_failure(lacks_extension("EGL_KHR_image_base")));
        }
        if !display_has_extension(exts, "EGL_EXT_image_dma_buf_import") {
            assert(!has_extension(*exts, required_extension(1)));
            return Err(display_failure(lacks_extension("EGL_EXT_image_dma_buf_import")));
        }
        if !display_has_extension(exts, "EGL_KHR_surfaceless_context") {
            assert(!has_extension(*exts, required_extension(2)));
            return Err(display_failure(lacks_extension("EGL_KHR_surfaceless_context")));
        }
        Ok(
            DisplayChecked {
                no_config: display_has_extension(exts, "EGL_KHR_no_config_context"),
            },
        )
    }
}

impl DisplayChecked {
    /// Load the entry points through `load`, in order. The first that is
    /// missing is named, and nothing after it is loaded.
    pub fn load<L: Fn(&str) -> bool>(&self, load: L) -> (r: Result<(), SetupFailure<LinuxResource>>)
        requires
            forall|name: &str| call_requires(load, (name,)),
        ensures
            match r {
                Ok(_) => forall|j: int|
                    0 <= j < ENTRY_POINTS ==> looked_up(load, #[trigger] entry_point(j), true),
                Err(f) => exists|i: int|
                    {
                        &&& 0 <= i < ENTRY_POINTS
                        &&& looked_up(load, #[trigger] entry_point(i), false)
                        &&& forall|j: int|
                            0 <= j < i ==> looked_up(load, #[trigger] entry_point(j), true)
                        &&& f.unwinds(
                            display_held(),
                            "required GL/EGL entry point missing: "@ + entry_point(i),
                        )
                    },
            },
    {
        let names = entry_points();
        match first_missing(&names, load) {
            Some(i) => {
                proof {
                    assert(names@[i as int]@ == entry_point(i as int));
                    assert(looked_up(load, entry_point(i as int), false));
                    assert forall|j: int| 0 <= j < i implies looked_up(
                        load,
                        #[trigger] entry_point(j),
                        true,
                    ) by {
                        assert(names@[j]@ == entry_point(j));
                    }
                }
                let mut out = "required GL/EGL entry point missing: ".to_owned();
                out.append(names[i]);
                Err(display_failure(out))
            },
            None => {
                proof {
                    assert forall|j: int| 0 <= j < ENTRY_POINTS implies looked_up(
                        load,
                        #[trigger] entry_point(j),
                        true,
                    ) by {
                        assert(names@[j]@ == entry_point(j));
                    }
                }
                Ok(())
            },
        }
    }

    /// No context could be created: `code` is the EGL error.
    pub fn no_context(&self, code: i32) -> (r: SetupFailure<LinuxResource>)
        ensures
            r.unwinds(
                display_held(),
                egl_error_text("eglCreateContext (GL, GLES3, GLES2 all refused)"@, code),
            ),
    {
        display_failure(egl_text("eglCreateContext (GL, GLES3, GLES2 all refused)", code))
    }
}

/// One rung of the context ladder: a client API, the config bit that goes
/// with it, and the version of a GLES context.
#[derive(Debug, Clone, Copy, PartialEq, Eq, Structural)]
pub struct ContextAttempt {
    /// The client API to bind.
    pub api: u32,
    /// The config's renderable type.
    pub renderable: i32,
    /// The client version, `0` for desktop GL.
    pub version: i32,
}

/// The context ladder: desktop GL first, which mpv is happiest on, then
/// GLES 3, then GLES 2.
pub open spec fn context_attempt(i: int) -> ContextAttempt {
    if i == 0 {
        ContextAttempt { api: EGL_OPENGL_API, renderable: EGL_OPENGL_BIT, version: 0 }
    } else if i == 1 {
        ContextAttempt { api: EGL_OPENGL_ES_API, renderable: EGL_OPENGL_ES2_BIT, version: 3 }
    } else {
        ContextAttempt { api: EGL_OPENGL_ES_API, renderable: EGL_OPENGL_ES2_BIT, version: 2 }
    }
}

/// The attributes that a context is created with.
pub open spec fn context_attribs(version: i32) -> Seq<i32> {
    if version == 0 {
        seq![EGL_NONE]
    } else {
        seq![EGL_CONTEXT_CLIENT_VERSION, version, EGL_NONE]
    }
}

impl ContextAttempt {
    /// The attributes that the context is created with.
    pub fn attribs(&self) -> (r: Vec<i32>)
        ensures
            r@ == context_attribs(self.version),
    {
        let mut out: Vec<i32> = Vec::new();
        if self.version != 0 {
            out.push(EGL_CONTEXT_CLIENT_VERSION);
            out.push(self.version);
        }
        out.push(EGL_NONE);
        assert(out@ =~= context_attribs(self.version));
        out
    }
}

/// A config was chosen for `a`, or none is needed.
pub open spec fn config_chosen<K, F: Fn(i32) -> Option<K>>(
    no_config: bool,
    pick: F,
    a: ContextAttempt,
    config: Option<K>,
) -> bool {
    if no_config {
        config is None
    } else {
        config is Some && call_ensures(pick, (a.renderable,), config)
    }
}

/// Attempt `a` went all the way and `create` gave `made`.
pub open spec fn attempt_made<
    K,
    T,
    B: Fn(u32) -> bool,
    F: Fn(i32) -> Option<K>,
    G: Fn(Option<K>, ContextAttempt) -> Option<T>,
>(no_config: bool, bind: B, pick: F, create: G, a: ContextAttempt, made: Option<T>) -> bool {
    call_ensures(bind, (a.api,), true) && exists|config: Option<K>|
        config_chosen(no_config, pick, a, config) && #[trigger] call_ensures(
            create,
            (config, a),
            made,
        )
}

/// Attempt `a` came to nothing: the API does not bind, there is no config, or
/// the context is refused.
pub open spec fn attempt_failed<
    K,
    T,
    B: Fn(u32) -> bool,
    F: Fn(i32) -> Option<K>,
    G: Fn(Option<K>, ContextAttempt) -> Option<T>,
>(no_config: bool, bind: B, pick: F, create: G, a: ContextAttempt) -> bool {
    ||| call_ensures(bind, (a.api,), false)
    ||| (call_ensures(bind, (a.api,), true) && !no_config && call_ensures(
        pick,
        (a.renderable,),
        None,
    ))
    ||| attempt_made(no_config, bind, pick, create, a, None::<T>)
}

/// Create the context on the first rung of the ladder that gives one. `bind`
/// binds a client API, `pick` chooses a config, which is skipped where none
/// is needed, and `create` creates the context.
pub fn create_context<
    K,
    T,
    B: Fn(u32) -> bool,
    F: Fn(i32) -> Option<K>,
    G: Fn(Option<K>, ContextAttempt) -> Option<T>,
>(no_config: bool, bind: B, pick: F, create: G) -> (r: Option<T>)
    requires
        forall|api: u32| call_requires(bind, (api,)),
        forall|bit: i32| call_requires(pick, (bit,)),
        forall|config: Option<K>, a: ContextAttempt| call_requires(create, (config, a)),
    ensures
        match r {
            Some(t) => exists|i: int|
                {
                    &&& 0 <= i < 3
                    &&& attempt_made(
                        no_config,
                        bind,
                        pick,
                        create,
                        #[trigger] context_attempt(i),
                        Some(t),
                    )
                    &&& forall|j: int|
                        0 <= j < i ==> attempt_failed(
                            no_config,
                            bind,
                            pick,
                            create,
                            #[trigger] context_attempt(j),
                        )
                },
            None => forall|j: int|
                0 <= j < 3 ==> attempt_failed(
                    no_config,
                    bind,
                    pick,
                    create,
                    #[trigger] context_attempt(j),
                ),
        },
{
    let mut i: u32 = 0;
    while i < 3
        invariant
            0 <= i <= 3,
            forall|api: u32| call_requires(bind, (api,)),
            forall|bit: i32| call_requires(pick, (bit,)),
            forall|config: Option<K>, a: ContextAttempt| call_requires(create, (config, a)),
            forall|j: int|
                0 <= j < i ==> attempt_failed(
                    no_config,
                    bind,
                    pick,
                    create,
                    #[trigger] context_attempt(j),
                ),
        decreases 3 - i,
    {
        let a = if i == 0 {
            ContextAttempt { api: EGL_OPENGL_API, renderable: EGL_OPENGL_BIT, version: 0 }
        } else if i == 1 {
            ContextAttempt { api: EGL_OPENGL_ES_API, renderable: EGL_OPENGL_ES2_BIT, version: 3 }
        } else {
            ContextAttempt { api: EGL_OPENGL_ES_API, renderable: EGL_OPENGL_ES2_BIT, version: 2 }
        };
        assert(a == context_attempt(i as int));
        i = i + 1;
        if !bind(a.api) {
            continue;
        }
        let config: Option<K> = if no_config {
            None
        } else {
            pick(a.renderable)
        };
        if !no_config && config.is_none() {
            continue;
        }
        let ghost chosen = config;
        let made = create(config, a);
        assert(config_chosen(no_config, pick, a, chosen));
        assert(call_ensures(create, (chosen, a), made));
        match made {
            Some(t) => {
                assert(attempt_made(
                    no_config,
                    bind,
                    pick,
                    create,
                    context_attempt((i - 1) as int),
                    Some(t),
                ));
                return Some(t);
            },
            None => {},
        }
    }
    None
}

/// Whether `eglChooseConfig` gave a config: it succeeded and found one.
pub fn config_found(ok: u32, count: i32) -> (r: bool)
    ensures
        r == (ok != 0 && count >= 1),
{
    !(ok == 0 || count < 1)
}

/// A buffer object is wanted.
#[non_exhaustive]
pub struct BoWanted {
    /// Width in pixels.
    pub width: u32,
    /// Height in pixels.
    pub height: u32,
    /// The format to ask for.
    pub fourcc: u32,
}

/// A buffer object is held.
#[non_exhaustive]
pub struct BoHeld {
    /// Width in pixels.
    pub width: u32,
    /// Height in pixels.
    pub height: u32,
    /// Its format.
    pub fourcc: u32,
}

/// What comes after a buffer object was asked for.
pub enum BoStep {
    /// It is held.
    Held(BoHeld),
    /// Ask for another format.
    Retry(BoWanted),
    /// There is none.
    Failed(Error),
}

impl BoWanted {
    /// Ask for a `width`×`height` buffer object, with an alpha channel first.
    pub fn new(width: u32, height: u32) -> (r: Self)
        ensures
            r == (BoWanted { width, height, fourcc: FOURCC_ARGB8888 }),
    {
        BoWanted { width, height, fourcc: FOURCC_ARGB8888 }
    }

    /// The buffer object was created, or not. A driver that refuses one with
    /// an alpha channel is asked for one without.
    pub fn created(self, made: bool) -> (r: BoStep)
        ensures
            if made {
                r == BoStep::Held(
                    BoHeld { width: self.width, height: self.height, fourcc: self.fourcc },
                )
            } else if self.fourcc == FOURCC_ARGB8888 {
                r == BoStep::Retry(BoWanted { fourcc: FOURCC_XRGB8888, ..self })
            } else {
                r matches BoStep::Failed(e) && is_setup_error(
                    e,
                    "gbm_bo_create failed for "@ + decimal(self.width as nat) + "x"@ + decimal(
                        self.height as nat,
                    ) + " linear AR24/XR24"@,
                )
            },
    {
        if made {
            BoStep::Held(BoHeld { width: self.width, height: self.height, fourcc: self.fourcc })
        } else if self.fourcc == FOURCC_ARGB8888 {
            BoStep::Retry(
                BoWanted { width: self.width, height: self.height, fourcc: FOURCC_XRGB8888 },
            )
        } else {
            let mut out = "gbm_bo_create failed for ".to_owned();
            push_decimal(&mut out, self.width);
            out.append("x");
            push_decimal(&mut out, self.height);
            out.append(" linear AR24/XR24");
            BoStep::Failed(Error::ExportSetup(out))
        }
    }
}

impl BoHeld {
    /// What is held.
    pub open spec fn held(self) -> Seq<LinuxResource> {
        seq![LinuxResource::Bo]
    }

    /// The buffer object was exported as file descriptor `fd`, or not: then
    /// it is negative.
    pub fn exported(self, fd: i32) -> (r: Result<FdHeld, SetupFailure<LinuxResource>>)
        ensures
            match r {
                Ok(next) => fd >= 0 && next == (FdHeld {
                    width: self.width,
                    height: self.height,
                    fourcc: self.fourcc,
                    fd,
                }),
                Err(f) => fd < 0 && f.unwinds(self.held(), "gbm_bo_get_fd failed"@),
            },
    {
        if fd < 0 {
            let f = failure(vec![LinuxResource::Bo], "gbm_bo_get_fd failed".to_owned());
            assert(f.release@ =~= self.held().reverse());
            return Err(f);
        }
        Ok(FdHeld { width: self.width, height: self.height, fourcc: self.fourcc, fd })
    }
}

/// A buffer object and its DMA-BUF are held.
#[non_exhaustive]
pub struct FdHeld {
    /// Width in pixels.
    pub width: u32,
    /// Height in pixels.
    pub height: u32,
    /// The format.
    pub fourcc: u32,
    /// The DMA-BUF.
    pub fd: i32,
}

/// The attributes that a DMA-BUF is imported as an EGL image with.
pub open spec fn image_attribs(
    width: u32,
    height: u32,
    fourcc: u32,
    fd: i32,
    stride: u32,
) -> Seq<i32> {
    seq![
        EGL_WIDTH,
        width as i32,
        EGL_HEIGHT,
        height as i32,
        EGL_LINUX_DRM_FOURCC,
        fourcc as i32,
        EGL_DMA_BUF_PLANE0_FD,
        fd,
        EGL_DMA_BUF_PLANE0_OFFSET,
        0,
        EGL_DMA_BUF_PLANE0_PITCH,
        stride as i32,
        EGL_NONE,
    ]
}

impl FdHeld {
    /// What is held.
    pub open spec fn held(self) -> Seq<LinuxResource> {
        seq![LinuxResource::Bo, LinuxResource::Fd]
    }

    /// The attributes to import the DMA-BUF with, whose rows are `stride`
    /// bytes apart.
    pub fn attribs(&self, stride: u32) -> (r: Vec<i32>)
        ensures
            r@ == image_attribs(self.width, self.height, self.fourcc, self.fd, stride),
    {
        let r = vec![
            EGL_WIDTH,
            self.width as i32,
            EGL_HEIGHT,
            self.height as i32,
            EGL_LINUX_DRM_FOURCC,
            self.fourcc as i32,
            EGL_DMA_BUF_PLANE0_FD,
            self.fd,
            EGL_DMA_BUF_PLANE0_OFFSET,
            0,
            EGL_DMA_BUF_PLANE0_PITCH,
            stride as i32,
            EGL_NONE,
        ];
        assert(r@ =~= image_attribs(self.width, self.height, self.fourcc, self.fd, stride));
        r
    }

    /// The buffer object is released whatever came of the import: descriptor
    /// and image each pin the memory.
    pub fn release_bo(self, stride: u32) -> (r: (LinuxResource, Importing))
        ensures
            r.0 == LinuxResource::Bo,
            r.1 == (Importing {
                width: self.width,
                height: self.height,
                fourcc: self.fourcc,
                stride,
            }),
    {
        (
            LinuxResource::Bo,
            Importing { width: self.width, height: self.height, fourcc: self.fourcc, stride },
        )
    }
}

/// A DMA-BUF is held, and its import has been tried.
#[non_exhaustive]
pub struct Importing {
    /// Width in pixels.
    pub width: u32,
    /// Height in pixels.
    pub height: u32,
    /// The format.
    pub fourcc: u32,
    /// Bytes per row.
    pub stride: u32,
}

impl Importing {
    /// What is held.
    pub open spec fn held(self) -> Seq<LinuxResource> {
        seq![LinuxResource::Fd]
    }

    /// The DMA-BUF was imported as an EGL image, or not: then with the EGL
    /// error.
    pub fn imported(self, image: Result<(), i32>) -> (r: Result<
        ImageHeld,
        SetupFailure<LinuxResource>,
    >)
        ensures
            match r {
                Ok(next) => image is Ok && next == (ImageHeld {
                    width: self.width,
                    height: self.height,
                    fourcc: self.fourcc,
                    stride: self.stride,
                }),
                Err(f) => image matches Err(code) && f.unwinds(
                    self.held(),
                    egl_error_text("eglCreateImageKHR(DMA_BUF)"@, code),
                ),
            },
    {
        match image {
            Ok(_) => Ok(
                ImageHeld {
                    width: self.width,
                    height: self.height,
                    fourcc: self.fourcc,
                    stride: self.stride,
                },
            ),
            Err(code) => {
                let f = failure(
                    vec![LinuxResource::Fd],
                    egl_text("eglCreateImageKHR(DMA_BUF)", code),
                );
                assert(f.release@ =~= self.held().reverse());
                Err(f)
            },
        }
    }
}

/// A DMA-BUF and its EGL image are held, and a texture to bind it to.
#[non_exhaustive]
pub struct ImageHeld {
    /// Width in pixels.
    pub width: u32,
    /// Height in pixels.
    pub height: u32,
    /// The format.
    pub fourcc: u32,
    /// Bytes per row.
    pub stride: u32,
}

impl ImageHeld {
    /// What is held.
    pub open spec fn held(self) -> Seq<LinuxResource> {
        seq![LinuxResource::Fd, LinuxResource::Image, LinuxResource::Texture]
    }

    /// The image was bound to the texture, with GL error `error`.
    pub fn bound(self, error: u32) -> (r: Result<TextureHeld, SetupFailure<LinuxResource>>)
        ensures
            match r {
                Ok(next) => error == GL_NO_ERROR && next == (TextureHeld {
                    width: self.width,
                    height: self.height,
                    fourcc: self.fourcc,
                    stride: self.stride,
                }),
                Err(f) => error != GL_NO_ERROR && f.unwinds(
                    self.held(),
                    "glEGLImageTargetTexture2DOES failed (GL error "@ + hex(error as nat, 4)
                        + ")"@,
                ),
            },
    {
        if error != GL_NO_ERROR {
            let mut out = "glEGLImageTargetTexture2DOES failed (GL error ".to_owned();
            push_hex(&mut out, error, 4);
            out.append(")");
            let f = failure(
                vec![LinuxResource::Texture, LinuxResource::Image, LinuxResource::Fd],
                out,
            );
            assert(f.release@ =~= self.held().reverse());
            return Err(f);
        }
        Ok(
            TextureHeld {
                width: self.width,
                height: self.height,
                fourcc: self.fourcc,
                stride: self.stride,
            },
        )
    }
}

/// A DMA-BUF, its EGL image and the texture bound to it are held, and a
/// framebuffer to attach it to.
#[non_exhaustive]
pub struct TextureHeld {
    /// Width in pixels.
    pub width: u32,
    /// Height in pixels.
    pub height: u32,
    /// The format.
    pub fourcc: u32,
    /// Bytes per row.
    pub stride: u32,
}

impl TextureHeld {
    /// What is held.
    pub open spec fn held(self) -> Seq<LinuxResource> {
        seq![
            LinuxResource::Fd,
            LinuxResource::Image,
            LinuxResource::Texture,
            LinuxResource::Framebuffer,
        ]
    }

    /// The texture was attached to the framebuffer, whose status is `status`.
    pub fn attached(self, status: u32) -> (r: Result<BufferLayout, SetupFailure<LinuxResource>>)
        ensures
            match r {
                Ok(next) => status == GL_FRAMEBUFFER_COMPLETE && next == (BufferLayout {
                    width: self.width,
                    height: self.height,
                    fourcc: self.fourcc,
                    stride: self.stride,
                }),
                Err(f) => status != GL_FRAMEBUFFER_COMPLETE && f.unwinds(
                    self.held(),
                    "DMA-BUF framebuffer incomplete (status "@ + hex(status as nat, 1) + ")"@,
                ),
            },
    {
        if status != GL_FRAMEBUFFER_COMPLETE {
            let mut out = "DMA-BUF framebuffer incomplete (status ".to_owned();
            push_hex(&mut out, status, 1);
            out.append(")");
            let f = failure(
                vec![
                    LinuxResource::Framebuffer,
                    LinuxResource::Texture,
                    LinuxResource::Image,
                    LinuxResource::Fd,
                ],
                out,
            );
            assert(f.release@ =~= self.held().reverse());
            return Err(f);
        }
        Ok(
            BufferLayout {
                width: self.width,
                height: self.height,
                fourcc: self.fourcc,
                stride: self.stride,
            },
        )
    }
}

/// The layout of a finished buffer's single plane.
#[derive(Debug, Clone, Copy, PartialEq, Eq, Structural)]
pub struct BufferLayout {
    /// Width in pixels.
    pub width: u32,
    /// Height in pixels.
    pub height: u32,
    /// The format: [`FOURCC_ARGB8888`] or [`FOURCC_XRGB8888`].
    pub fourcc: u32,
    /// Bytes per row.
    pub stride: u32,
}

/// The names behind a finished buffer that only the render thread uses.
#[derive(Debug, Clone, Copy, PartialEq, Eq, Structural)]
pub struct LinuxNames {
    /// The framebuffer, `0` if deleted.
    pub framebuffer: u32,
    /// The texture, `0` if deleted.
    pub texture: u32,
    /// Whether the EGL image is still there.
    pub image: bool,
}

/// The names that are still there, in the order of their deletion.
pub open spec fn live_names(names: LinuxNames) -> Seq<LinuxResource> {
    (if names.framebuffer != 0 {
        seq![LinuxResource::Framebuffer]
    } else {
        Seq::empty()
    }) + (if names.texture != 0 {
        seq![LinuxResource::Texture]
    } else {
        Seq::empty()
    }) + (if names.image {
        seq![LinuxResource::Image]
    } else {
        Seq::empty()
    })
}

impl LinuxNames {
    /// Delete what is still there: the names to delete, in order.
    pub fn delete_gl(&mut self) -> (r: Vec<LinuxResource>)
        ensures
            r@ == live_names(*old(self)),
            *final(self) == (LinuxNames { framebuffer: 0, texture: 0, image: false }),
    {
        let mut out: Vec<LinuxResource> = Vec::new();
        if self.framebuffer != 0 {
            out.push(LinuxResource::Framebuffer);
            self.framebuffer = 0;
        }
        if self.texture != 0 {
            out.push(LinuxResource::Texture);
            self.texture = 0;
        }
        if self.image {
            out.push(LinuxResource::Image);
            self.image = false;
        }
        assert(out@ =~= live_names(*old(self)));
        out
    }
}

/// Deleted names are not deleted again.
pub proof fn law_names_are_deleted_once()
    ensures
        live_names(LinuxNames { framebuffer: 0, texture: 0, image: false }) == Seq::<
            LinuxResource,
        >::empty(),
{
}

} // verus!
