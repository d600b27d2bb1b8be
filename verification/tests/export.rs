//! The exported-frame pool, and the frames that come out of it.

use std::collections::HashSet;

use mpv_engine::export::frame::{
    export_draw, exported_texture_desc, exported_texture_label, memory_type, metal_storage,
    DmaBuf, FrameTexture, ImportResource, InitialState, IoSurface, MetalStorage, OpenReply,
    PlaneLayout, SharedTexture, TextureDimension, TextureFormat,
};
use mpv_engine::export::linux::{BufferLayout, FOURCC_ARGB8888, FOURCC_XRGB8888};
use mpv_engine::export::pixels::{mapped_len, pack_bgra_rows};
use mpv_engine::export::pass::{PassAction, PassStep, RenderPass};
use mpv_engine::export::pool::{AllocNext, Pool, RenderNext, SurfaceBuffer};
use mpv_engine::{pack_size, unpack_size, Error, ExportOptions, ExportedFrame};

/// One render of the pool's render thread, with storage `id` for a new buffer.
/// Returns what was deleted, and whether a frame was published.
fn render(pool: &mut Pool<u32>, id: u32) -> (Vec<u32>, bool) {
    let start = pool.begin_render();
    let deleted = start.deleted.iter().map(|b| b.storage).collect();
    let buffer = match start.next {
        RenderNext::Into(b) => b,
        RenderNext::Allocate { width, height } => match pool.allocated(width, height, Some(id)) {
            AllocNext::Into(b) => b,
            _ => panic!("a new buffer was not used"),
        },
        RenderNext::Paused | RenderNext::Dropped => return (deleted, false),
    };
    (deleted, pool.finish_render(buffer, true))
}

/// The frame's storage and size.
fn shape(frame: &ExportedFrame<u32>) -> (u32, u32, u32) {
    (frame.buffer().storage, frame.width(), frame.height())
}

#[test]
fn size_packing_round_trips() {
    assert_eq!(unpack_size(pack_size(3840, 2160)), (3840, 2160));
    assert_eq!(unpack_size(pack_size(0, 0)), (0, 0));
    assert_eq!(unpack_size(pack_size(u32::MAX, 1)), (u32::MAX, 1));
    assert_eq!(pack_size(1, 2), 0x1_0000_0002);
}

#[test]
fn pool_size_clamps_to_two() {
    assert_eq!(ExportOptions::new(64, 64).pool_size(0).pool_size, 2);
    assert_eq!(ExportOptions::new(64, 64).pool_size(5).pool_size, 5);
}

#[test]
fn export_options_start_with_three_buffers() {
    let options = ExportOptions::new(64, 32);
    assert_eq!((options.width, options.height, options.pool_size), (64, 32, 3));
}

#[test]
fn forced_render_survives_pool_exhaustion() {
    let mut pool: Pool<u32> = Pool::new(ExportOptions::new(64, 64));
    assert_eq!(render(&mut pool, 1), (vec![], true));
    let mut held = vec![ExportedFrame::take_published(&mut pool).unwrap()];
    for (size, id) in [(60u32, 2), (56, 3)] {
        pool.set_target_size(size, size);
        let round = pool.begin_service();
        assert!(round.force && !round.stop);
        assert!(round.wants_render(false));
        assert_eq!(render(&mut pool, id), (vec![], true));
        let frame = ExportedFrame::take_published(&mut pool).unwrap();
        assert_eq!(shape(&frame), (id, size, size));
        held.push(frame);
    }
    assert_eq!(held.len(), 3, "pool should now be fully in our hands");
    assert_eq!(pool.in_use(), 3);

    pool.set_target_size(32, 32);
    assert!(pool.begin_service().force);
    assert_eq!(render(&mut pool, 4), (vec![], false));
    assert!(!pool.has_work());

    assert!(held.remove(0).release(&mut pool), "forced render was lost");
    assert!(pool.has_work());
    let round = pool.begin_service();
    assert!(round.wants_render(false));
    assert_eq!(render(&mut pool, 4), (vec![1], true));
    let frame = ExportedFrame::take_published(&mut pool).unwrap();
    assert_eq!(
        shape(&frame),
        (4, 32, 32),
        "forced render was lost: no 32x32 frame after releasing a buffer"
    );
}

#[test]
fn resize_rerenders_at_new_size_without_playback() {
    let mut pool: Pool<u32> = Pool::new(ExportOptions::new(64, 64));
    render(&mut pool, 1);
    let first = ExportedFrame::take_published(&mut pool).unwrap();
    assert!(!first.release(&mut pool));
    pool.set_target_size(32, 32);
    let round = pool.begin_service();
    assert!(!round.updated && round.wants_render(false));
    assert_eq!(render(&mut pool, 2), (vec![1], true));
    let frame = ExportedFrame::take_published(&mut pool).unwrap();
    assert_eq!((frame.width(), frame.height()), (32, 32));
    assert_eq!(frame.copy_pixels(None).len(), 32 * 32 * 4);
}

#[test]
fn outstanding_frame_survives_detach() {
    let mut pool: Pool<u32> = Pool::new(ExportOptions::new(64, 64));
    render(&mut pool, 1);
    let frame = ExportedFrame::take_published(&mut pool).unwrap();
    render(&mut pool, 2);
    pool.request_shutdown();
    assert!(pool.begin_service().stop);
    let deleted: Vec<u32> = pool.close().iter().map(|b| b.storage).collect();
    assert_eq!(deleted, [2]);
    let px = frame.copy_pixels(None);
    assert_eq!(px.len(), 64 * 64 * 4);
    assert!(!frame.release(&mut pool));
    assert_eq!(pool.in_use(), 0);
    assert!(!pool.has_published());
}

#[test]
fn exported_frames_carry_correctly_oriented_bgra_pixels() {
    let mut pool: Pool<u32> = Pool::new(ExportOptions::new(64, 64));
    render(&mut pool, 1);
    let frame = ExportedFrame::take_published(&mut pool).unwrap();
    assert_eq!((frame.width(), frame.height()), (64, 64));

    let stride = 64 * 4 + 32;
    let mut memory = vec![0xEEu8; stride * 64];
    for y in 0..64 {
        for x in 0..64 {
            let red = if y < 32 { 200 } else { 0 };
            memory[y * stride + x * 4..][..4].copy_from_slice(&[0, 0, red, 255]);
        }
    }
    let px = frame.copy_pixels(Some((&memory, stride)));
    assert_eq!(px.len(), 64 * 64 * 4);
    let pixel = |x: usize, y: usize| {
        let i = (y * 64 + x) * 4;
        (px[i], px[i + 1], px[i + 2])
    };
    let (top_b, _top_g, top_r) = pixel(32, 8);
    assert!(
        top_r > 150 && top_b < 100,
        "top should be red in BGRA order, got B={top_b} R={top_r}"
    );
    let (bot_b, bot_g, bot_r) = pixel(32, 56);
    assert!(
        bot_b < 60 && bot_g < 60 && bot_r < 60,
        "bottom should be black, got ({bot_b},{bot_g},{bot_r})"
    );
    assert!(!frame.presented(&mut pool));
    assert!(pool.begin_service().report_swap);
}

#[test]
fn newest_published_frame_replaces_an_older_one() {
    let mut pool: Pool<u32> = Pool::new(ExportOptions::new(8, 8).pool_size(2));
    render(&mut pool, 1);
    render(&mut pool, 2);
    assert!(pool.has_published());
    let newest = ExportedFrame::take_published(&mut pool).unwrap();
    assert_eq!(newest.buffer().storage, 2);
    assert!(ExportedFrame::take_published(&mut pool).is_none());
    assert_eq!(render(&mut pool, 3), (vec![], true));
    assert_eq!(ExportedFrame::take_published(&mut pool).unwrap().buffer().storage, 1);
}

#[test]
fn the_pool_grows_before_it_takes_a_published_frame_back() {
    let mut pool: Pool<u32> = Pool::new(ExportOptions::new(8, 8).pool_size(2));
    render(&mut pool, 1);
    let start = pool.begin_render();
    assert!(matches!(start.next, RenderNext::Allocate { width: 8, height: 8 }));
    assert!(pool.has_published());
    match pool.allocated(8, 8, Some(2)) {
        AllocNext::Into(b) => assert!(pool.finish_render(b, true)),
        _ => panic!("not allocated"),
    }
    let held = ExportedFrame::take_published(&mut pool).unwrap();
    render(&mut pool, 3);
    let start = pool.begin_render();
    match start.next {
        RenderNext::Into(b) => {
            assert_eq!(b.storage, 1, "at capacity the published frame is reclaimed");
            assert!(!pool.finish_render(b, false));
        }
        _ => panic!("not reclaimed"),
    }
    assert!(!pool.has_published());
    assert_eq!(held.buffer().storage, 2);
}

#[test]
fn failed_allocations_fall_back_or_are_owed() {
    let mut pool: Pool<u32> = Pool::new(ExportOptions::new(8, 8));
    assert!(matches!(pool.begin_render().next, RenderNext::Allocate { .. }));
    assert!(matches!(pool.allocated(8, 8, None), AllocNext::Retry));
    assert_eq!(pool.retry_render(), 100);
    assert!(pool.begin_service().force);

    render(&mut pool, 1);
    assert!(matches!(pool.begin_render().next, RenderNext::Allocate { .. }));
    match pool.allocated(8, 8, None) {
        AllocNext::Into(b) => {
            assert_eq!(b.storage, 1);
            pool.finish_render(b, true);
        }
        _ => panic!("the published frame was not used"),
    }

    let held = ExportedFrame::take_published(&mut pool).unwrap();
    assert!(matches!(pool.begin_render().next, RenderNext::Allocate { .. }));
    assert!(matches!(pool.allocated(8, 8, None), AllocNext::Dropped));
    assert!(held.release(&mut pool));
    assert!(pool.begin_service().force);
}

#[test]
fn a_zero_size_pauses_rendering() {
    for (w, h) in [(0, 8), (8, 0), (0, 0)] {
        let mut pool: Pool<u32> = Pool::new(ExportOptions::new(w, h));
        let start = pool.begin_render();
        assert!(matches!(start.next, RenderNext::Paused));
        assert!(start.deleted.is_empty());
        pool.set_target_size(8, 8);
        assert!(pool.begin_service().wants_render(false));
        assert!(render(&mut pool, 1).1);
    }
}

#[test]
fn a_round_takes_each_request_once() {
    let mut pool: Pool<u32> = Pool::new(ExportOptions::new(8, 8));
    assert!(!pool.has_work());
    pool.signal_update();
    pool.presented();
    assert!(pool.has_work());
    let round = pool.begin_service();
    assert!(round.updated && round.report_swap && !round.force && !round.stop);
    assert!(round.wants_render(true));
    assert!(!round.wants_render(false));
    assert!(!pool.has_work());
    pool.signal_update();
    pool.request_shutdown();
    let last = pool.begin_service();
    assert!(last.stop && !last.updated);
}

#[test]
fn retired_buffers_leave_the_pool() {
    let mut pool: Pool<u32> = Pool::new(ExportOptions::new(8, 8).pool_size(2));
    render(&mut pool, 1);
    let a = ExportedFrame::take_published(&mut pool).unwrap();
    render(&mut pool, 2);
    let b = ExportedFrame::take_published(&mut pool).unwrap();
    assert_eq!(render(&mut pool, 3), (vec![], false));
    assert!(a.retire(&mut pool));
    assert_eq!(pool.in_use(), 1);
    let round = pool.begin_service();
    assert_eq!(round.retired.iter().map(|b| b.storage).collect::<Vec<_>>(), [1]);
    assert!(round.force);
    assert_eq!(render(&mut pool, 3), (vec![], true));
    assert_eq!(ExportedFrame::take_published(&mut pool).unwrap().buffer().storage, 3);
    assert_eq!(b.buffer().storage, 2);
}

#[test]
fn stale_published_frames_are_deleted() {
    let mut pool: Pool<u32> = Pool::new(ExportOptions::new(8, 8));
    render(&mut pool, 1);
    pool.set_target_size(9, 9);
    assert_eq!(render(&mut pool, 2), (vec![1], true));
    let frame = ExportedFrame::take_published(&mut pool).unwrap();
    assert_eq!(shape(&frame), (2, 9, 9));
}

#[test]
fn rows_are_packed_without_their_padding() {
    let bytes: Vec<u8> = (0..24).collect();
    assert_eq!(pack_bgra_rows(&bytes, 12, 1, 2), [0, 1, 2, 3, 12, 13, 14, 15]);
    assert_eq!(pack_bgra_rows(&bytes, 8, 2, 3), bytes);
    assert_eq!(pack_bgra_rows(&bytes, 8, 0, 3), []);
    assert_eq!(mapped_len(256, 64), Some(16384));
    assert_eq!(mapped_len(0, 64), None);
    assert_eq!(mapped_len(256, 0), None);
}

#[test]
fn frames_are_drawn_unflipped() {
    let buffer = SurfaceBuffer { width: 640, height: 480, storage: () };
    assert_eq!(buffer.size(), (640, 480));
    let draw = export_draw(&buffer, 5);
    assert_eq!((draw.fbo, draw.width, draw.height), (5, 640, 480));
    assert_eq!(draw.internal_format, 0x8058);
    assert!(!draw.flip_y && draw.block_for_target_time);
}

/// A pool with one published frame of `storage`, and that frame.
fn acquired<B>(storage: B) -> (Pool<B>, ExportedFrame<B>) {
    let mut pool = Pool::new(ExportOptions::new(64, 32));
    assert!(matches!(pool.begin_render().next, RenderNext::Allocate { .. }));
    match pool.allocated(64, 32, Some(storage)) {
        AllocNext::Into(b) => assert!(pool.finish_render(b, true)),
        _ => panic!("not allocated"),
    }
    let frame = ExportedFrame::take_published(&mut pool).unwrap();
    (pool, frame)
}

fn dma_buf(fourcc: u32) -> (Pool<DmaBuf<i32>>, ExportedFrame<DmaBuf<i32>>) {
    let layout = BufferLayout { width: 64, height: 32, fourcc, stride: 512 };
    acquired(DmaBuf { fd: 9, layout })
}

fn import_text(error: Error) -> String {
    match error {
        Error::WgpuImport(text) => text,
        other => panic!("{}", other.message()),
    }
}

#[test]
fn dma_buf_frames_tell_their_layout() {
    let (_, frame) = dma_buf(FOURCC_XRGB8888);
    assert_eq!(*frame.dma_buf_fd(), 9);
    assert_eq!(frame.stride(), 512);
    assert_eq!(frame.fourcc(), 0x3432_5258);
    assert_eq!(frame.modifier(), 0);
}

#[test]
fn dma_buf_imports_check_the_device_and_the_format() {
    let (mut pool, frame) = dma_buf(FOURCC_ARGB8888);
    let failure = frame.into_wgpu_texture(false).err().unwrap();
    assert!(failure.release.is_empty());
    assert_eq!(
        import_text(failure.error),
        "device lacks VULKAN_EXTERNAL_MEMORY_DMA_BUF — request it in required_features \
         (needs driver support for VK_EXT_external_memory_dma_buf and \
         VK_EXT_image_drm_format_modifier)"
    );
    failure.frame.release(&mut pool);
    assert_eq!(pool.in_use(), 0);

    let (_, frame) = dma_buf(0xABC);
    let failure = frame.into_wgpu_texture(true).err().unwrap();
    assert_eq!(
        import_text(failure.error),
        format!("unsupported DRM fourcc {:#010x} (expected AR24/XR24)", 0xABC)
    );
}

#[test]
fn dma_buf_imports_release_what_they_hold() {
    let why = || "out of memory".to_owned();
    let checked = || dma_buf(FOURCC_ARGB8888).1.into_wgpu_texture(true).ok().unwrap();
    let with_fd = || checked().duplicated(Ok(())).ok().unwrap();
    let device = || with_fd().device(true).ok().unwrap();
    let image = || device().image(Ok(())).ok().unwrap();
    let memory = || image().memory_types(Ok(0b110), 0b100, 3).ok().unwrap();
    let bind = || memory().1.allocated(Ok(())).ok().unwrap();

    let f = checked().duplicated(Err(why())).err().unwrap();
    assert_eq!(f.release, []);
    assert_eq!(import_text(f.error), "duplicating the dmabuf fd: out of memory");
    let f = with_fd().device(false).err().unwrap();
    assert_eq!(f.release, [ImportResource::Fd]);
    assert_eq!(import_text(f.error), "wgpu device is not on the Vulkan backend");
    let f = device().image(Err(why())).err().unwrap();
    assert_eq!(f.release, [ImportResource::Fd]);
    assert_eq!(import_text(f.error), "vkCreateImage (dmabuf): out of memory");
    let f = image().memory_types(Err(why()), 1, 1).err().unwrap();
    assert_eq!(f.release, [ImportResource::Fd, ImportResource::Image]);
    assert_eq!(import_text(f.error), "vkGetMemoryFdPropertiesKHR: out of memory");
    let f = image().memory_types(Ok(0b01), 0b10, 2).err().unwrap();
    assert_eq!(f.release, [ImportResource::Fd, ImportResource::Image]);
    assert_eq!(import_text(f.error), "no Vulkan memory type accepts this dmabuf");
    assert_eq!(memory().0, 2);
    let f = memory().1.allocated(Err(why())).err().unwrap();
    assert_eq!(f.release, [ImportResource::Fd, ImportResource::Image]);
    assert_eq!(import_text(f.error), "vkAllocateMemory (import dmabuf): out of memory");
    let f = bind().bound(Err(why())).err().unwrap();
    assert_eq!(f.release, [ImportResource::Memory, ImportResource::Image]);
    assert_eq!(import_text(f.error), "vkBindImageMemory (dmabuf): out of memory");
    let (frame, release) = bind().bound(Ok(())).ok().unwrap();
    assert_eq!(*frame.dma_buf_fd(), 9);
    assert_eq!(release, [ImportResource::Image, ImportResource::Memory]);
}

#[test]
fn the_lowest_common_memory_type_is_taken() {
    assert_eq!(memory_type(0b1110, 0b1100, 4), Some(2));
    assert_eq!(memory_type(0b1110, 0b1100, 2), None);
    assert_eq!(memory_type(1 << 31, u32::MAX, 32), Some(31));
    assert_eq!(memory_type(0, u32::MAX, 32), None);
    assert_eq!(memory_type(u32::MAX, u32::MAX, 0), None);
}

#[test]
fn shared_texture_imports_return_or_retire() {
    let (_, frame) = acquired(SharedTexture { handle: 77u64 });
    assert_eq!(*frame.shared_handle(), 77);
    assert_eq!(frame.dxgi_format(), 87);
    let cases = [
        (OpenReply::NotDx12, "wgpu device is not on the DX12 backend"),
        (OpenReply::Failed("no".into()), "ID3D12Device::OpenSharedHandle failed: no"),
        (OpenReply::Empty, "OpenSharedHandle returned no resource"),
    ];
    for (reply, text) in cases {
        let (mut pool, frame) = acquired(SharedTexture { handle: 77u64 });
        let failure = frame.into_wgpu_texture(reply).err().unwrap();
        assert_eq!(import_text(failure.error), text);
        failure.frame.release(&mut pool);
        assert_eq!(pool.in_use(), 0);
    }
    for attached in [true, false] {
        let (mut pool, frame) = acquired(SharedTexture { handle: 77u64 });
        let frame = frame.into_wgpu_texture(OpenReply::Opened).ok().unwrap();
        let kept = frame.imported(attached, &mut pool);
        assert_eq!(kept.is_some(), attached);
        assert_eq!(pool.in_use(), if attached { 1 } else { 0 });
        assert_eq!(pool.begin_service().retired.len(), if attached { 0 } else { 1 });
    }
}

#[test]
fn surface_imports_need_metal() {
    let (_, frame) = acquired(IoSurface { surface: "s" });
    assert_eq!(*frame.io_surface(), "s");
    let frame = frame.into_wgpu_texture(true, true).ok().unwrap();
    let f = frame.into_wgpu_texture(false, false).err().unwrap();
    assert_eq!(import_text(f.error), "wgpu device is not on the Metal backend");
    let f = f.frame.into_wgpu_texture(true, false).err().unwrap();
    assert_eq!(
        import_text(f.error),
        "newTextureWithDescriptor:iosurface:plane: failed for 64x32"
    );
}

/// A stand-in for the render thread over DMA-BUFs: `memory[fd]` is what the
/// buffer with descriptor `fd` holds.
struct Screen {
    pool: Pool<DmaBuf<usize>>,
    memory: Vec<Vec<u8>>,
}

const STRIDE: usize = 64 * 4 + 32;

impl Screen {
    fn up() -> Screen {
        Screen { pool: Pool::new(ExportOptions::new(64, 64)), memory: Vec::new() }
    }

    /// Render picture `n`, red at the top and black at the bottom, and
    /// publish it.
    fn render(&mut self, n: u8) -> bool {
        let buffer = match self.pool.begin_render().next {
            RenderNext::Into(b) => b,
            RenderNext::Allocate { width, height } => {
                let fd = self.memory.len();
                self.memory.push(vec![0xEE; STRIDE * 64]);
                let stride = STRIDE as u32;
                let layout = BufferLayout { width, height, fourcc: FOURCC_ARGB8888, stride };
                match self.pool.allocated(width, height, Some(DmaBuf { fd, layout })) {
                    AllocNext::Into(b) => b,
                    _ => panic!("a new buffer was not used"),
                }
            }
            RenderNext::Paused | RenderNext::Dropped => return false,
        };
        let pixels = &mut self.memory[buffer.storage.fd];
        for y in 0..64 {
            for x in 0..64 {
                let red = if y < 32 { 200 } else { 0 };
                pixels[y * STRIDE + x * 4..][..4].copy_from_slice(&[n, 0, red, 255]);
            }
        }
        self.pool.finish_render(buffer, true)
    }

    fn acquire(&mut self) -> Option<ExportedFrame<DmaBuf<usize>>> {
        ExportedFrame::take_published(&mut self.pool)
    }

    fn read(&self, frame: &ExportedFrame<DmaBuf<usize>>) -> Vec<u8> {
        frame.copy_pixels(Some((&self.memory[*frame.dma_buf_fd()], STRIDE)))
    }
}

/// Import `frame` where every call goes well. Returns the texture, and the
/// frame that it keeps.
fn import(frame: ExportedFrame<DmaBuf<usize>>) -> (FrameTexture, ExportedFrame<DmaBuf<usize>>) {
    let with_fd = frame.into_wgpu_texture(true).ok().unwrap().duplicated(Ok(())).ok().unwrap();
    let device = with_fd.device(true).ok().expect("wgpu import");
    let image = device.vulkan_image();
    assert_eq!(image.plane.row_pitch, STRIDE as u64);
    let with_image = device.image(Ok(())).ok().unwrap();
    let (_, memory) = with_image.memory_types(Ok(1), 1, 1).ok().unwrap();
    let bind = memory.allocated(Ok(())).ok().unwrap();
    (image.texture, bind.bound(Ok(())).ok().unwrap().0)
}

#[test]
fn imported_texture_matches_frame_pixels() {
    let mut screen = Screen::up();
    assert!(screen.render(7));
    let frame = screen.acquire().unwrap();
    let expected = screen.read(&frame);
    let (texture, kept) = import(frame);
    assert_eq!(texture.format, TextureFormat::Bgra8Unorm);
    assert_eq!((texture.width, texture.height), (64, 64));

    let via_wgpu = screen.read(&kept);
    assert_eq!(via_wgpu, expected, "wgpu readback differs from the exported buffer");
    let top = (8 * 64 + 32) * 4;
    assert!(
        via_wgpu[top + 2] > 150 && via_wgpu[top] < 100,
        "top pixel should be red in BGRA"
    );
    assert_eq!(screen.pool.in_use(), 1);
    kept.release(&mut screen.pool);
    assert_eq!(screen.pool.in_use(), 0);
    screen.pool.request_shutdown();
    assert!(screen.pool.begin_service().stop);
    assert_eq!(screen.pool.close().len(), 1);
}

#[test]
fn texture_outlives_frame_and_detach() {
    let mut screen = Screen::up();
    assert!(screen.render(1));
    let frame = screen.acquire().unwrap();
    let expected = screen.read(&frame);
    let (_, kept) = import(frame);
    for n in 2..12 {
        assert!(screen.render(n));
    }
    screen.pool.set_target_size(32, 32);
    screen.pool.set_target_size(64, 64);
    assert!(screen.render(12));
    screen.pool.request_shutdown();
    assert!(screen.pool.begin_service().stop);
    let closed = screen.pool.close();
    assert!(closed.iter().all(|b| b.storage.fd != *kept.dma_buf_fd()));
    assert_eq!(screen.read(&kept), expected, "readback after detach");
    kept.release(&mut screen.pool);
    assert_eq!(screen.pool.in_use(), 0);
}

#[test]
fn continuous_import_recycles_buffers_and_stays_correct() {
    const WANT: usize = 24;
    let mut screen = Screen::up();
    let mut imported = 0usize;
    let mut fingerprints = HashSet::new();
    let mut buffers = HashSet::new();
    let mut n = 0u8;
    while imported < WANT && n < 100 {
        n += 1;
        assert!(screen.render(n));
        let Some(frame) = screen.acquire() else {
            continue;
        };
        let cpu = screen.read(&frame);
        let (_, kept) = import(frame);
        // mpv goes on while the texture is read.
        n += 1;
        assert!(screen.render(n));
        let via_wgpu = screen.read(&kept);
        assert_eq!(
            via_wgpu, cpu,
            "recycled-buffer readback differs from the frame's own pixels"
        );
        fingerprints.insert(cpu);
        buffers.insert(*kept.dma_buf_fd());
        kept.release(&mut screen.pool);
        imported += 1;
    }
    assert!(
        imported >= WANT,
        "only imported {imported}/{WANT} frames from a looping source"
    );
    assert!(
        fingerprints.len() >= 2,
        "every recycled buffer read back identical content — a stuck or aliased buffer"
    );
    assert!(screen.memory.len() <= 3, "buffers must be recycled");
    assert!(buffers.len() <= 3);
}

#[test]
fn imports_describe_their_texture() {
    let texture = exported_texture_desc(64, 32);
    assert_eq!(
        texture,
        FrameTexture {
            width: 64,
            height: 32,
            layers: 1,
            mip_levels: 1,
            samples: 1,
            dimension: TextureDimension::D2,
            format: TextureFormat::Bgra8Unorm,
            texture_binding: true,
            copy_src: true,
        }
    );
    assert_eq!(exported_texture_label(), "mpv-exported-frame");

    let (_, frame) = dma_buf(FOURCC_XRGB8888);
    assert_eq!(frame.initial_state(), InitialState::Resource);
    let checked = frame.into_wgpu_texture(true).ok().unwrap();
    let device = checked.duplicated(Ok(())).ok().unwrap().device(true).ok().unwrap();
    let image = device.vulkan_image();
    assert_eq!(image.texture, texture);
    assert_eq!(image.modifier, 0);
    assert_eq!(
        image.plane,
        PlaneLayout { offset: 0, size: 0, row_pitch: 512, array_pitch: 0, depth_pitch: 0 }
    );
    assert!(!image.concurrent && !image.preinitialized);

    let (_, frame) = acquired(SharedTexture { handle: 77u64 });
    assert_eq!(frame.initial_state(), InitialState::Common);
    let (_, frame) = acquired(IoSurface { surface: "s" });
    assert_eq!(frame.initial_state(), InitialState::Resource);
    assert_eq!(metal_storage(true), MetalStorage::Shared);
    assert_eq!(metal_storage(false), MetalStorage::Managed);
}

/// Do a render whose draw goes well or not, and what was done to the buffer.
fn pass(pool: &mut Pool<u32>, buffer: SurfaceBuffer<u32>, drawn: bool) -> (Vec<&'static str>, bool) {
    let mut pass = RenderPass::new(buffer, 5);
    let mut done = Vec::new();
    let mut ok = true;
    while let PassStep::Do(action) = pass.next(ok) {
        assert!(!pass.is_over());
        *pass.storage() += 10;
        ok = match action {
            PassAction::BeginRender => {
                done.push("begin");
                true
            }
            PassAction::Draw(draw) => {
                assert_eq!((draw.fbo, draw.width, draw.height), (5, 64, 64));
                assert_eq!(draw.internal_format, 0x8058);
                assert!(!draw.flip_y && draw.block_for_target_time);
                done.push("draw");
                drawn
            }
            PassAction::PublishBarrier => {
                done.push("barrier");
                true
            }
        };
    }
    assert!(pass.is_over());
    assert_eq!(pass.next(false), PassStep::Finish);
    (done, pass.finish(pool))
}

#[test]
fn a_failed_render_takes_its_buffer_back() {
    let mut pool: Pool<u32> = Pool::new(ExportOptions::new(64, 64));
    render(&mut pool, 1);
    render(&mut pool, 2);
    for drawn in [false, false, true] {
        let start = pool.begin_render();
        assert!(start.deleted.is_empty());
        let RenderNext::Into(buffer) = start.next else {
            panic!("a buffer is free");
        };
        let storage = buffer.storage;
        let (done, published) = pass(&mut pool, buffer, drawn);
        assert_eq!(done, ["begin", "draw", "barrier"]);
        assert_eq!(published, drawn, "the callback fires for a drawn frame only");
        assert!(!pool.is_rendering());
        assert_eq!(pool.in_use(), 0);
        let frame = ExportedFrame::take_published(&mut pool).unwrap();
        assert_eq!(frame.buffer().storage, if drawn { storage + 30 } else { 2 });
        frame.release(&mut pool);
        // What came back is rendered and published again.
        assert_eq!(render(&mut pool, 3), (vec![], true));
    }
}

#[test]
fn a_texture_of_a_plane_reads_what_copying_gives() {
    for fourcc in [FOURCC_ARGB8888, FOURCC_XRGB8888] {
        let (_, frame) = dma_buf(fourcc);
        let memory: Vec<u8> = (0..512 * 32).map(|i| (i * 7 % 251) as u8).collect();
        let copied = frame.copy_pixels(Some((&memory, frame.stride() as usize)));
        let checked = frame.into_wgpu_texture(true).ok().unwrap();
        let device = checked.duplicated(Ok(())).ok().unwrap().device(true).ok().unwrap();
        let image = device.vulkan_image();
        let row = image.texture.width as usize * 4;
        let read: Vec<u8> = (0..row * image.texture.height as usize)
            .map(|i| {
                let at = image.plane.offset + (i / row) as u64 * image.plane.row_pitch;
                memory[at as usize + i % row]
            })
            .collect();
        assert_eq!(read, copied);
    }
}
