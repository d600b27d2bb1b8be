//! Bringing the three platforms' contexts and buffers up, with every failure.

use std::cell::RefCell;

use mpv_engine::export::linux::{
    self, BoStep, BoWanted, BufferLayout, ContextAttempt, LinuxNames, LinuxResource, NodeHeld,
    NodeReply,
};
use mpv_engine::export::macos::{self, CglReply, MacNames, MacResource, SurfaceWanted, WrapStep};
use mpv_engine::export::setup::{
    thread_started, waits_for, RenderThreadStart, SetupFailure, StartAction, StartStep,
    ThreadStart,
};
use mpv_engine::export::windows::{
    self, AdapterReply, BufferWanted, HandleReply, PublishStep, WinNames, WinResource,
};
use mpv_engine::text::{is_space, lists_name, names_word, push_decimal, push_hex, push_signed};
use mpv_engine::Error;

fn setup_text(error: Error) -> String {
    match error {
        Error::ExportSetup(text) => text,
        other => panic!("{}", other.message()),
    }
}

fn told<R>(failure: SetupFailure<R>) -> (Vec<R>, String) {
    (failure.release, setup_text(failure.error))
}

#[test]
fn numbers_are_written_as_formatted() {
    for n in [0u32, 9, 10, 64, 1080, u32::MAX] {
        let mut out = String::from("n=");
        push_decimal(&mut out, n);
        assert_eq!(out, format!("n={n}"));
        for (min, text) in [
            (1, format!("{n:#x}")),
            (4, format!("{n:#06x}")),
            (8, format!("{n:#010x}")),
        ] {
            let mut out = String::new();
            push_hex(&mut out, n, min);
            assert_eq!(out, text);
        }
    }
    for n in [0i32, -1, 10017, i32::MIN, i32::MAX] {
        let mut out = String::new();
        push_signed(&mut out, n);
        assert_eq!(out, n.to_string());
    }
}

#[test]
fn lists_and_words_are_found_whole() {
    assert!(lists_name("gpu, libmpv", ',', "libmpv"));
    assert!(!lists_name("gpu libmpv", ',', "libmpv"));
    assert!(lists_name(",,", ',', ""));
    assert!(names_word("EGL_A EGL_B\tEGL_C\n", "EGL_B"));
    assert!(!names_word("EGL_A EGL_BB", "EGL_B"));
    assert!(!names_word("EGL_A\u{a0}EGL_B", "EGL_B"));
    assert!(!names_word("  ", ""));
}

#[test]
fn white_space_is_what_std_counts() {
    for n in 0..=0x10FFFFu32 {
        if let Some(c) = char::from_u32(n) {
            assert_eq!(is_space(c), c.is_whitespace(), "{n:#x}");
        }
    }
}

#[test]
fn render_threads_say_why_they_did_not_start() {
    assert!(thread_started(ThreadStart::Answered(Ok(()))).is_ok());
    let e = thread_started(ThreadStart::NotSpawned("limit".into())).err().unwrap();
    assert_eq!(setup_text(e), "spawning render thread: limit");
    let e = thread_started(ThreadStart::Died).err().unwrap();
    assert_eq!(setup_text(e), "render thread died during setup");
    let own = Error::ExportSetup("no GPU".into());
    let e = thread_started(ThreadStart::Answered(Err(own))).err().unwrap();
    assert_eq!(setup_text(e), "no GPU");
    assert!(waits_for(1, 2));
    assert!(!waits_for(2, 2));
}

#[test]
fn the_first_usable_render_node_is_taken() {
    let asked = RefCell::new(Vec::new());
    let up = linux::first_usable_node(|minor| {
        asked.borrow_mut().push(minor);
        match minor {
            129 => NodeReply::Failed(Error::ExportSetup("old".into())),
            131 => NodeReply::Usable("up"),
            _ => NodeReply::Unopened,
        }
    });
    assert_eq!(up.ok(), Some("up"));
    assert_eq!(*asked.borrow(), [128, 129, 130, 131]);
    assert_eq!(linux::node_path(128), "/dev/dri/renderD128");
}

#[test]
fn without_a_usable_node_the_last_failure_is_told() {
    let asked = RefCell::new(0);
    let e = linux::first_usable_node::<(), _>(|minor| {
        *asked.borrow_mut() += 1;
        if minor == 128 || minor == 140 {
            NodeReply::Failed(Error::ExportSetup(format!("bad {minor}")))
        } else {
            NodeReply::Unopened
        }
    })
    .err()
    .unwrap();
    assert_eq!(*asked.borrow(), 64);
    assert_eq!(setup_text(e), "no usable DRM render node (last tried: bad 140)");

    let e = linux::first_usable_node::<(), _>(|_| NodeReply::Unopened).err().unwrap();
    assert_eq!(
        setup_text(e),
        "no DRM render node under /dev/dri (no GPU, or no permission — user not in the \
         render/video group?)"
    );
    let e = linux::first_usable_node::<(), _>(|_| NodeReply::Failed(Error::NotAttached));
    assert!(matches!(e, Err(Error::NotAttached)));
}

#[test]
fn linux_contexts_release_what_they_hold() {
    let device = || NodeHeld.device(true).ok().unwrap();
    let found = || device().display(Ok(())).ok().unwrap();
    let display = || found().initialized(Ok(())).ok().unwrap();
    let all = Some(
        "EGL_KHR_image_base EGL_EXT_image_dma_buf_import EGL_KHR_surfaceless_context".to_owned(),
    );
    assert_eq!(
        told(NodeHeld.device(false).err().unwrap()),
        (vec![LinuxResource::Node], "gbm_create_device failed on the render node".to_owned())
    );
    assert_eq!(
        told(device().display(Err(0x3008)).err().unwrap()),
        (
            vec![LinuxResource::Device, LinuxResource::Node],
            "eglGetPlatformDisplay(GBM): EGL error 0x3008".to_owned()
        )
    );
    assert_eq!(
        told(found().initialized(Err(0x3001)).err().unwrap()),
        (vec![LinuxResource::Device, LinuxResource::Node], "eglInitialize: EGL error 0x3001".to_owned())
    );
    let lacking = Some("EGL_KHR_image_base EGL_KHR_surfaceless_context".to_owned());
    assert_eq!(
        told(display().extensions(&lacking).err().unwrap()),
        (
            vec![LinuxResource::Display, LinuxResource::Device, LinuxResource::Node],
            "EGL display lacks EGL_EXT_image_dma_buf_import (driver too old for DMA-BUF export)"
                .to_owned()
        )
    );
    assert!(display().extensions(&None).is_err());
    let checked = display().extensions(&all).ok().unwrap();
    assert!(!checked.no_config);
    let more = all.map(|s| s + " EGL_KHR_no_config_context");
    assert!(display().extensions(&more).ok().unwrap().no_config);

    let names = linux::entry_points();
    assert_eq!(names.len(), 14);
    let asked = RefCell::new(Vec::new());
    let found = checked.load(|name: &str| {
        asked.borrow_mut().push(name.to_owned());
        true
    });
    assert!(found.is_ok());
    assert_eq!(*asked.borrow(), names);
    assert!(checked.load(|_: &str| false).is_err());
    let failure = checked.load(|name: &str| name != "glBindTexture").err().unwrap();
    assert_eq!(
        told(failure),
        (
            vec![LinuxResource::Display, LinuxResource::Device, LinuxResource::Node],
            "required GL/EGL entry point missing: glBindTexture".to_owned()
        )
    );
    assert_eq!(
        told(checked.no_context(0x3009)).1,
        "eglCreateContext (GL, GLES3, GLES2 all refused): EGL error 0x3009"
    );
    assert_eq!(
        setup_text(linux::egl_error("eglMakeCurrent (surfaceless)", 0x300d)),
        "eglMakeCurrent (surfaceless): EGL error 0x300d"
    );
}

#[test]
fn the_context_ladder_goes_down_to_gles() {
    let tried = RefCell::new(Vec::new());
    let made = linux::create_context(
        false,
        |api| api != linux::EGL_OPENGL_API,
        |bit| Some(bit),
        |config: Option<i32>, a: ContextAttempt| {
            tried.borrow_mut().push((config, a.version, a.attribs()));
            if a.version == 2 {
                Some("ctx")
            } else {
                None
            }
        },
    );
    assert_eq!(made, Some("ctx"));
    assert_eq!(
        *tried.borrow(),
        [
            (Some(4), 3, vec![0x3098, 3, 0x3038]),
            (Some(4), 2, vec![0x3098, 2, 0x3038])
        ]
    );
    let desktop = linux::create_context(
        true,
        |_| true,
        |_| -> Option<i32> { panic!("no config is needed") },
        |config: Option<i32>, a: ContextAttempt| {
            assert!(config.is_none());
            Some(a)
        },
    );
    let desktop = desktop.unwrap();
    assert_eq!((desktop.api, desktop.version), (0x30A2, 0));
    assert_eq!(desktop.attribs(), [0x3038]);
    let none = linux::create_context(
        false,
        |_| true,
        |_| None::<i32>,
        |_: Option<i32>, _: ContextAttempt| Some(()),
    );
    assert!(none.is_none());
    assert!(linux::config_found(1, 1));
    assert!(!linux::config_found(0, 1));
    assert!(!linux::config_found(1, 0));
}

#[test]
fn linux_buffers_release_what_they_hold() {
    let bo = || match BoWanted::new(64, 32).created(true) {
        BoStep::Held(bo) => bo,
        _ => panic!("not held"),
    };
    let with_fd = || bo().exported(7).ok().unwrap();
    let importing = || with_fd().release_bo(256).1;
    let image = || importing().imported(Ok(())).ok().unwrap();
    let texture = || image().bound(0).ok().unwrap();

    match BoWanted::new(64, 32).created(false) {
        BoStep::Retry(again) => {
            assert_eq!(again.fourcc, linux::FOURCC_XRGB8888);
            match again.created(false) {
                BoStep::Failed(e) => assert_eq!(
                    setup_text(e),
                    "gbm_bo_create failed for 64x32 linear AR24/XR24"
                ),
                _ => panic!("went on"),
            }
        }
        _ => panic!("no second format"),
    }
    assert_eq!(
        told(bo().exported(-1).err().unwrap()),
        (vec![LinuxResource::Bo], "gbm_bo_get_fd failed".to_owned())
    );
    assert_eq!(with_fd().release_bo(256).0, LinuxResource::Bo);
    assert_eq!(
        with_fd().attribs(256),
        [
            0x3057, 64, 0x3056, 32, 0x3271, 0x3432_5241, 0x3272, 7, 0x3273, 0, 0x3274, 256, 0x3038
        ]
    );
    assert_eq!(
        told(importing().imported(Err(0x3003)).err().unwrap()),
        (vec![LinuxResource::Fd], "eglCreateImageKHR(DMA_BUF): EGL error 0x3003".to_owned())
    );
    assert_eq!(
        told(image().bound(0x502).err().unwrap()),
        (
            vec![LinuxResource::Texture, LinuxResource::Image, LinuxResource::Fd],
            "glEGLImageTargetTexture2DOES failed (GL error 0x0502)".to_owned()
        )
    );
    assert_eq!(
        told(texture().attached(0x8cd6).err().unwrap()),
        (
            vec![LinuxResource::Framebuffer, LinuxResource::Texture, LinuxResource::Image, LinuxResource::Fd],
            "DMA-BUF framebuffer incomplete (status 0x8cd6)".to_owned()
        )
    );
    assert_eq!(
        texture().attached(0x8cd5).ok(),
        Some(BufferLayout { width: 64, height: 32, fourcc: 0x3432_5241, stride: 256 })
    );

    let mut names = LinuxNames { framebuffer: 3, texture: 4, image: true };
    assert_eq!(names.delete_gl(), [LinuxResource::Framebuffer, LinuxResource::Texture, LinuxResource::Image]);
    assert_eq!(names.delete_gl(), []);
}

#[test]
fn the_profile_ladder_takes_the_newest() {
    let asked = RefCell::new(Vec::new());
    let made = macos::create_context(
        |profile| {
            asked.borrow_mut().push(profile);
            CglReply { code: 0, object: if profile == 0x4100 { None } else { Some(profile) } }
        },
        |format| CglReply { code: if format == 0x3200 { 10000 } else { 0 }, object: Some(format) },
    );
    assert_eq!(made.ok(), Some(0x1000));
    assert_eq!(*asked.borrow(), [0x4100, 0x3200, 0x1000]);
    let e = macos::create_context(
        |_| CglReply { code: 1, object: Some(0) },
        |_| CglReply { code: 0, object: Some(()) },
    )
    .err()
    .unwrap();
    assert_eq!(
        setup_text(e),
        "no CGL pixel format/context available (session without WindowServer/GPU access?)"
    );
    assert_eq!(macos::pixel_format_attributes(0x3200), [99, 0x3200, 96, 0]);
}

#[test]
fn mac_buffers_release_what_they_hold() {
    let wanted = || SurfaceWanted { width: 64, height: 32 };
    assert_eq!(wanted().values(), [64, 32, 4, 0x4247_5241]);
    assert_eq!(
        setup_text(wanted().created(false, false).err().unwrap()),
        "CFDictionaryCreate failed"
    );
    assert_eq!(
        setup_text(wanted().created(true, false).err().unwrap()),
        "IOSurfaceCreate failed for 64x32"
    );
    let held = wanted().created(true, true).ok().unwrap();
    assert_eq!(held.internal_format, macos::GL_RGBA8);
    let again = match held.wrapped(10008, &None) {
        WrapStep::Retry(again) => again,
        _ => panic!("no second format"),
    };
    assert_eq!(again.internal_format, macos::GL_RGBA);
    match again.wrapped(10008, &Some("invalid value".into())) {
        WrapStep::Failed(f) => assert_eq!(
            told(f),
            (
                vec![MacResource::Texture, MacResource::Surface],
                "CGLTexImageIOSurface2D: CGL error 10008 (invalid value)".to_owned()
            )
        ),
        _ => panic!("went on"),
    }
    let texture = || match wanted().created(true, true).ok().unwrap().wrapped(0, &None) {
        WrapStep::Wrapped(t) => t,
        _ => panic!("not wrapped"),
    };
    assert!(texture().attached(0x8cd5).is_ok());
    assert_eq!(
        told(texture().attached(0).err().unwrap()),
        (
            vec![MacResource::Framebuffer, MacResource::Texture, MacResource::Surface],
            "IOSurface framebuffer incomplete (status 0x0)".to_owned()
        )
    );
    assert_eq!(
        setup_text(macos::cgl_error("CGLSetCurrentContext", -1, &None)),
        "CGLSetCurrentContext: CGL error -1 ()"
    );
    let mut names = MacNames { framebuffer: 3, texture: 4 };
    assert_eq!(names.delete_gl(), [MacResource::Framebuffer, MacResource::Texture]);
    assert_eq!(names.delete_gl(), []);
}

#[test]
fn adapters_are_tried_in_order() {
    let adapters = windows::enumerate_adapters(|i| AdapterReply {
        hr: if i < 3 { 0 } else { windows::DXGI_ERROR_NOT_FOUND },
        adapter: if i < 3 { Some(i) } else { None },
    });
    assert_eq!(adapters, [0, 1, 2]);
    assert_eq!(windows::DXGI_ERROR_NOT_FOUND, 0x887A_0002u32 as i32);
    let none = windows::enumerate_adapters(|_| AdapterReply { hr: 0, adapter: None::<u32> });
    assert!(none.is_empty());

    let tried = RefCell::new(Vec::new());
    let up = windows::first_usable_adapter(&adapters, |a| {
        tried.borrow_mut().push(a);
        if a == Some(1) {
            Ok("up")
        } else {
            Err(Error::ExportSetup("refused".into()))
        }
    });
    assert_eq!(up.ok(), Some("up"));
    assert_eq!(*tried.borrow(), [Some(0), Some(1)]);
    let e = windows::first_usable_adapter(&adapters, |a| {
        Err::<(), Error>(Error::ExportSetup(format!("refused {a:?}")))
    })
    .err()
    .unwrap();
    assert_eq!(setup_text(e), "refused Some(2)");
    let picked = windows::first_usable_adapter(&Vec::<u32>::new(), |a| {
        assert_eq!(a, None);
        Ok(5)
    });
    assert_eq!(picked.ok(), Some(5));
    assert_eq!(windows::driver_type(true), 0);
    assert_eq!(windows::driver_type(false), 1);
}

#[test]
fn windows_contexts_release_what_they_hold() {
    let window = || windows::window_created(true).ok().unwrap();
    let dc = || window().dc(true).ok().unwrap();
    let format = || dc().pixel_format(1, true).ok().unwrap();
    let context = || format().context(true).ok().unwrap();
    let current = || context().made_current(true).ok().unwrap();
    let device = || current().device(0, true, true).ok().unwrap();

    let e = windows::window_created(false).err().unwrap();
    assert_eq!(
        setup_text(e),
        "CreateWindowExW failed for the hidden GL window (a session with no window \
         station — a service, or SSH without an interactive desktop?)"
    );
    assert_eq!(
        told(window().dc(false).err().unwrap()),
        (vec![WinResource::Window], "GetDC failed for the hidden window".to_owned())
    );
    assert_eq!(
        told(dc().pixel_format(0, false).err().unwrap()),
        (
            vec![WinResource::Dc, WinResource::Window],
            "ChoosePixelFormat found no OpenGL-capable format".to_owned()
        )
    );
    assert_eq!(
        told(dc().pixel_format(1, false).err().unwrap()),
        (vec![WinResource::Dc, WinResource::Window], "SetPixelFormat failed".to_owned())
    );
    assert_eq!(
        told(format().context(false).err().unwrap()),
        (
            vec![WinResource::Dc, WinResource::Window],
            "wglCreateContext failed (no OpenGL ICD? the Microsoft software rasterizer is \
             GL 1.1 and cannot drive mpv)"
                .to_owned()
        )
    );
    assert_eq!(
        told(context().made_current(false).err().unwrap()),
        (vec![WinResource::GlContext, WinResource::Dc, WinResource::Window], "wglMakeCurrent failed".to_owned())
    );
    let names = windows::entry_points();
    assert_eq!(names.len(), 11);
    let asked = RefCell::new(Vec::new());
    let found = current().load(|name: &str| {
        asked.borrow_mut().push(name.to_owned());
        true
    });
    assert!(found.is_ok());
    assert_eq!(*asked.borrow(), names);
    assert_eq!(
        told(current().load(|n: &str| n.starts_with("gl")).err().unwrap()),
        (
            vec![WinResource::GlContext, WinResource::Dc, WinResource::Window],
            "required GL/WGL entry point missing: wglDXOpenDeviceNV".to_owned()
        )
    );
    assert_eq!(
        told(current().device(-1, true, false).err().unwrap()),
        (
            vec![WinResource::D3dDevice, WinResource::GlContext, WinResource::Dc, WinResource::Window],
            "D3D11CreateDevice: HRESULT 0xffffffff".to_owned()
        )
    );
    assert_eq!(
        told(device().interop(false).err().unwrap()),
        (
            vec![WinResource::D3dContext, WinResource::D3dDevice, WinResource::GlContext, WinResource::Dc, WinResource::Window],
            "wglDXOpenDeviceNV refused the D3D11 device (GL and D3D on different GPUs, or no \
             WGL_NV_DX_interop2 support)"
                .to_owned()
        )
    );
    let up = || device().interop(true).ok().unwrap();
    assert!(up().probed(Ok(())).is_ok());
    let torn = vec![WinResource::InteropDevice, WinResource::GlContext, WinResource::D3dContext, WinResource::D3dDevice, WinResource::Dc, WinResource::Window];
    assert_eq!(
        told(up().probed(Err(Error::ExportSetup("no".into()))).err().unwrap()),
        (torn.clone(), "no".to_owned())
    );
    assert_eq!(windows::teardown(), torn);
}

#[test]
fn windows_buffers_release_what_they_hold() {
    let wanted = || BufferWanted { width: 64, height: 32 };
    let interop = || wanted().interop_texture(0, true).ok().unwrap();
    let textures = || interop().export_texture(0, true).ok().unwrap();
    let handle = || textures().shared_handle(HandleReply::Asked(0, true)).ok().unwrap();
    let object = || handle().registered(true).ok().unwrap();
    let refused = "CreateTexture2D for a shared 64x32 BGRA8 render target: HRESULT 0x80070057";
    let hr = 0x8007_0057u32 as i32;

    assert_eq!(setup_text(wanted().interop_texture(hr, false).err().unwrap()), refused);
    assert!(wanted().interop_texture(0, false).is_err());
    assert_eq!(
        told(interop().export_texture(hr, true).err().unwrap()),
        (vec![WinResource::InteropTexture], refused.to_owned())
    );
    assert_eq!(
        told(textures().shared_handle(HandleReply::NoResource(hr)).err().unwrap()),
        (
            vec![WinResource::ExportTexture, WinResource::InteropTexture],
            "QueryInterface(IDXGIResource1): HRESULT 0x80070057".to_owned()
        )
    );
    assert_eq!(
        told(textures().shared_handle(HandleReply::Asked(0, false)).err().unwrap()).1,
        "IDXGIResource1::CreateSharedHandle: HRESULT 0x00000000"
    );
    assert_eq!(
        told(handle().registered(false).err().unwrap()),
        (
            vec![WinResource::Texture, WinResource::SharedHandle, WinResource::ExportTexture, WinResource::InteropTexture],
            "wglDXRegisterObjectNV failed for a 64x32 BGRA8 render target".to_owned()
        )
    );
    assert_eq!(
        told(object().attached(1).err().unwrap()),
        (
            vec![
                WinResource::Framebuffer,
                WinResource::InteropObject,
                WinResource::Texture,
                WinResource::SharedHandle,
                WinResource::ExportTexture,
                WinResource::InteropTexture
            ],
            "shared-texture framebuffer incomplete (status 0x1)".to_owned()
        )
    );
    assert!(object().attached(0x8cd5).is_ok());

    let desc = windows::shared_texture_desc(64, 32, windows::D3D11_MISC_SHARED_NTHANDLE);
    assert_eq!((desc.width, desc.height, desc.format), (64, 32, 87));
    assert_eq!((desc.bind_flags, desc.misc_flags, desc.usage), (0x28, 0x802, 0));
    let staging = windows::staging_texture_desc(64, 32).unwrap();
    assert_eq!((staging.usage, staging.cpu_access_flags), (3, 0x20000));
    assert!(windows::staging_texture_desc(0, 32).is_none());
    assert!(windows::staging_texture_desc(64, 0).is_none());
    assert!(windows::com_given(0, true) && !windows::com_given(-1, true));
}

#[test]
fn interop_textures_are_locked_once() {
    let mut names = WinNames { framebuffer: 3, texture: 4, object: true, locked: false };
    assert!(names.lock_for_gl());
    assert!(!names.lock_for_gl());
    assert_eq!(
        names.publish_barrier(),
        [PublishStep::Finish, PublishStep::Unlock, PublishStep::Copy, PublishStep::Flush]
    );
    assert!(!names.unlock_from_gl());
    assert_eq!(
        names.publish_barrier(),
        [PublishStep::Finish, PublishStep::Copy, PublishStep::Flush]
    );
    assert!(names.lock_for_gl());
    let (unlock, deleted) = names.delete_gl();
    assert!(unlock);
    assert_eq!(
        deleted,
        [WinResource::Framebuffer, WinResource::InteropObject, WinResource::Texture]
    );
    assert_eq!(names.delete_gl(), (false, vec![]));
    assert!(!names.lock_for_gl());
}

#[test]
fn sentinels_are_no_entry_points() {
    for sentinel in [-1, 0, 1, 2, 3] {
        assert!(!windows::is_entry_point(sentinel));
    }
    assert!(windows::is_entry_point(4));
    assert!(windows::is_entry_point(-2));
}

const START: [StartAction; 4] = [
    StartAction::CreateContext,
    StartAction::MakeCurrent,
    StartAction::CreateRenderContext { advanced_control: true },
    StartAction::RegisterUpdates,
];

#[test]
fn a_render_thread_starts_in_order_and_answers_once() {
    let mut start = RenderThreadStart::new();
    for wanted in START {
        match start.next(Ok(())) {
            StartStep::Do(action) => assert_eq!(action, wanted),
            other => panic!("{other:?}"),
        }
    }
    assert!(matches!(start.next(Ok(())), StartStep::Answer(Ok(()))));
    assert!(matches!(start.next(Ok(())), StartStep::Over));
    assert!(matches!(start.next(Err(Error::NotAttached)), StartStep::Over));
}

#[test]
fn a_render_thread_start_ends_at_its_first_failure() {
    for failing in 0..START.len() {
        let mut start = RenderThreadStart::new();
        for wanted in &START[..=failing] {
            match start.next(Ok(())) {
                StartStep::Do(action) => assert_eq!(action, *wanted),
                other => panic!("{other:?}"),
            }
        }
        match start.next(Err(Error::ExportSetup(format!("step {failing}")))) {
            StartStep::Answer(Err(e)) => assert_eq!(setup_text(e), format!("step {failing}")),
            other => panic!("{other:?}"),
        }
        assert!(matches!(start.next(Ok(())), StartStep::Over));
    }
}

#[test]
fn making_a_context_current_says_why_it_failed() {
    assert!(linux::make_current(Ok(())).is_ok());
    assert_eq!(
        setup_text(linux::make_current(Err(0x300d)).err().unwrap()),
        "eglMakeCurrent (surfaceless): EGL error 0x300d"
    );
    assert!(macos::make_current(0, &None).is_ok());
    let why = Some("invalid context".to_owned());
    assert_eq!(
        setup_text(macos::make_current(10004, &why).err().unwrap()),
        setup_text(macos::cgl_error("CGLSetCurrentContext", 10004, &why))
    );
    assert!(windows::make_current(true).is_ok());
    assert_eq!(
        setup_text(windows::make_current(false).err().unwrap()),
        "wglMakeCurrent failed"
    );
}
