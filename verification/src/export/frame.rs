//! One rendered frame in the shell's hands, and its import into wgpu.

use vstd::prelude::*;

use super::linux::{BufferLayout, FOURCC_ARGB8888, FOURCC_XRGB8888, MODIFIER_LINEAR};
use super::pixels;
#[allow(unused_imports)]
use super::pixels::{holds_rows, law_readback_keeps_every_pixel, packed_rows, zeros};
use super::pool::{Pool, SurfaceBuffer};
#[allow(unused_imports)]
use super::pool::{
    brings_in, law_a_buffer_out_is_never_rendered_into, law_a_buffer_out_keeps_its_pixels, Pixels,
    PoolRun, PoolStep, PoolView, RenderNext,
};
use super::setup::import_error;
#[allow(unused_imports)]
use super::setup::is_import_error;
use super::windows::DXGI_FORMAT_BGRA8_UNORM;
use crate::error::{prefixed, Error};
use crate::render::GlDraw;
use crate::text::{push_decimal, push_hex};
#[allow(unused_imports)]
use crate::text::{decimal, hex};

verus! {

/// `GL_RGBA8`: the color format that mpv is told a framebuffer has. A hint
/// only: the storage behind it fixes the layout.
pub const FBO_INTERNAL_FORMAT: i32 = 0x8058;

/// What a DMA-BUF buffer hands out: the descriptor `F` and its layout.
pub struct DmaBuf<F> {
    /// The descriptor.
    pub fd: F,
    /// The layout of its single plane.
    pub layout: BufferLayout,
}

/// What a D3D11 buffer hands out: the shared handle `H`.
pub struct SharedTexture<H> {
    /// The handle.
    pub handle: H,
}

/// What an IOSurface buffer hands out: the surface `S`.
pub struct IoSurface<S> {
    /// The surface.
    pub surface: S,
}

/// One rendered video frame. Once its buffer is back in the pool, mpv renders
/// future frames into the same memory: hold the frame until the work that
/// samples it has completed.
pub struct ExportedFrame<B> {
    buffer: SurfaceBuffer<B>,
}

impl<B> View for ExportedFrame<B> {
    type V = SurfaceBuffer<B>;

    closed spec fn view(&self) -> SurfaceBuffer<B> {
        self.buffer
    }
}

impl<B> ExportedFrame<B> {
    /// Take the newest published frame out of `pool`, if one waits.
    pub fn take_published(pool: &mut Pool<B>) -> (r: Option<Self>)
        requires
            old(pool)@.wf(),
        ensures
            match r {
                Some(frame) => old(pool)@.published == Some(frame@),
                None => old(pool)@.published is None,
            },
            final(pool)@ == old(pool)@.taken(),
            final(pool)@.wf(),
    {
        match pool.take_published() {
            Some(buffer) => Some(ExportedFrame { buffer }),
            None => None,
        }
    }

    /// The frame's buffer.
    pub fn buffer(&self) -> (r: &SurfaceBuffer<B>)
        ensures
            *r == self@,
    {
        &self.buffer
    }

    /// Frame width in pixels.
    pub fn width(&self) -> (r: u32)
        ensures
            r == self@.width,
    {
        self.buffer.width
    }

    /// Frame height in pixels.
    pub fn height(&self) -> (r: u32)
        ensures
            r == self@.height,
    {
        self.buffer.height
    }

    /// The pixels as tightly packed BGRA8 rows, row 0 at the top, where
    /// `mapped` is the frame's memory and the distance of its rows. Zeros
    /// where the memory cannot be mapped.
    pub fn copy_pixels(&self, mapped: Option<(&[u8], usize)>) -> (r: Vec<u8>)
        requires
            self@.width * self@.height * 4 <= usize::MAX,
            mapped matches Some(m) ==> holds_rows(
                m.0@,
                m.1 as int,
                self@.width as int,
                self@.height as int,
            ),
        ensures
            r@ == (match mapped {
                Some(m) => packed_rows(m.0@, m.1 as int, self@.width as int, self@.height as nat),
                None => zeros(self@.width * self@.height * 4),
            }),
    {
        pixels::copy_pixels(self.buffer.width as usize, self.buffer.height as usize, mapped)
    }

    /// Give the frame back to `pool`. Returns whether that renders a dropped
    /// frame again.
    pub fn release(self, pool: &mut Pool<B>) -> (r: bool)
        requires
            old(pool)@.wf(),
            old(pool)@.in_use > 0,
        ensures
            final(pool)@ == old(pool)@.returned(self@),
            r == old(pool)@.render_dropped,
            final(pool)@.wf(),
    {
        pool.return_buffer(self.buffer)
    }

    /// Take the frame's buffer out of `pool` for good. Returns whether that
    /// renders a dropped frame again.
    pub fn retire(self, pool: &mut Pool<B>) -> (r: bool)
        requires
            old(pool)@.wf(),
            old(pool)@.in_use > 0,
        ensures
            final(pool)@ == old(pool)@.retired_buffer(self@),
            r == old(pool)@.render_dropped,
            final(pool)@.wf(),
    {
        pool.retire_buffer(self.buffer)
    }

    /// Give the frame back to `pool`, and have mpv told that it was displayed.
    /// Returns whether a dropped frame is rendered again.
    pub fn presented(self, pool: &mut Pool<B>) -> (r: bool)
        requires
            old(pool)@.wf(),
            old(pool)@.in_use > 0,
        ensures
            final(pool)@ == (PoolView { swap_pending: true, ..old(pool)@ }).returned(self@),
            r == old(pool)@.render_dropped,
            final(pool)@.wf(),
    {
        pool.presented();
        self.release(pool)
    }
}

/// The draw of one frame into a buffer's framebuffer. No flip: what mpv draws
/// unflipped has row 0 at the top, which is what consumers read.
pub open spec fn frame_draw<B>(buffer: SurfaceBuffer<B>, fbo: u32) -> GlDraw {
    GlDraw {
        fbo: fbo as i32,
        width: buffer.width as i32,
        height: buffer.height as i32,
        internal_format: FBO_INTERNAL_FORMAT,
        flip_y: false,
        block_for_target_time: true,
    }
}

/// The draw of one frame into a buffer's framebuffer.
pub fn export_draw<B>(buffer: &SurfaceBuffer<B>, fbo: u32) -> (r: GlDraw)
    ensures
        r == frame_draw(*buffer, fbo),
{
    GlDraw {
        fbo: fbo as i32,
        width: buffer.width as i32,
        height: buffer.height as i32,
        internal_format: FBO_INTERNAL_FORMAT,
        flip_y: false,
        block_for_target_time: true,
    }
}

/// How many dimensions a texture has.
#[derive(Debug, Clone, Copy, PartialEq, Eq, Structural)]
pub enum TextureDimension {
    /// One.
    D1,
    /// Two.
    D2,
    /// Three.
    D3,
}

/// The format of an imported texture: four bytes a pixel, blue first.
#[derive(Debug, Clone, Copy, PartialEq, Eq, Structural)]
pub enum TextureFormat {
    /// `Bgra8Unorm`.
    Bgra8Unorm,
}

/// The texture that a frame is imported as.
#[derive(Debug, Clone, Copy, PartialEq, Eq, Structural)]
pub struct FrameTexture {
    /// Width in pixels.
    pub width: u32,
    /// Height in pixels.
    pub height: u32,
    /// Depth or array layers.
    pub layers: u32,
    /// Mip levels.
    pub mip_levels: u32,
    /// Samples per pixel.
    pub samples: u32,
    /// The dimension.
    pub dimension: TextureDimension,
    /// The format.
    pub format: TextureFormat,
    /// It can be sampled by a shader.
    pub texture_binding: bool,
    /// It can be copied from.
    pub copy_src: bool,
}

/// The label that an imported texture is created with.
pub fn exported_texture_label() -> (r: &'static str)
    ensures
        r@ == "mpv-exported-frame"@,
{
    "mpv-exported-frame"
}

/// What a `width`×`height` frame is imported as: two dimensions, one layer,
/// one mip level, one sample, to be sampled and copied from.
pub open spec fn frame_texture(width: u32, height: u32) -> FrameTexture {
    FrameTexture {
        width,
        height,
        layers: 1,
        mip_levels: 1,
        samples: 1,
        dimension: TextureDimension::D2,
        format: TextureFormat::Bgra8Unorm,
        texture_binding: true,
        copy_src: true,
    }
}

/// The texture that a `width`×`height` frame is imported as.
pub fn exported_texture_desc(width: u32, height: u32) -> (r: FrameTexture)
    ensures
        r == frame_texture(width, height),
{
    FrameTexture {
        width,
        height,
        layers: 1,
        mip_levels: 1,
        samples: 1,
        dimension: TextureDimension::D2,
        format: TextureFormat::Bgra8Unorm,
        texture_binding: true,
        copy_src: true,
    }
}

/// The state that an imported texture is declared to wgpu in.
#[derive(Debug, Clone, Copy, PartialEq, Eq, Structural)]
pub enum InitialState {
    /// Readable by shaders.
    Resource,
    /// What a resource shared between APIs is in at every submission.
    Common,
}

/// Where the one plane of a Vulkan image lies.
#[derive(Debug, Clone, Copy, PartialEq, Eq, Structural)]
pub struct PlaneLayout {
    /// Where it starts.
    pub offset: u64,
    /// Its size; 0 where an import is described.
    pub size: u64,
    /// Bytes per row.
    pub row_pitch: u64,
    /// Bytes per layer; 0 where there is one.
    pub array_pitch: u64,
    /// Bytes per slice; 0 where there is one.
    pub depth_pitch: u64,
}

/// The Vulkan image that a DMA-BUF is imported as, tiled by an explicit DRM
/// modifier.
#[derive(Debug, Clone, Copy, PartialEq, Eq, Structural)]
pub struct VulkanImage {
    /// The texture that it backs.
    pub texture: FrameTexture,
    /// The DRM format modifier.
    pub modifier: u64,
    /// The plane.
    pub plane: PlaneLayout,
    /// Queue families use it without handing it over.
    pub concurrent: bool,
    /// The host laid its content out; else the layout is undefined.
    pub preinitialized: bool,
}

/// How Metal stores the texture that wraps an IOSurface.
#[derive(Debug, Clone, Copy, PartialEq, Eq, Structural)]
pub enum MetalStorage {
    /// In memory that CPU and GPU share.
    Shared,
    /// In both memories, kept in step.
    Managed,
}

/// How Metal stores the texture: a GPU without unified memory has no shared
/// ones.
pub fn metal_storage(unified_memory: bool) -> (r: MetalStorage)
    ensures
        r == (if unified_memory {
            MetalStorage::Shared
        } else {
            MetalStorage::Managed
        }),
{
    if unified_memory {
        MetalStorage::Shared
    } else {
        MetalStorage::Managed
    }
}

/// What the import of a DMA-BUF holds.
#[derive(Debug, Clone, Copy, PartialEq, Eq, Structural)]
pub enum ImportResource {
    /// The duplicated descriptor.
    Fd,
    /// The Vulkan image.
    Image,
    /// The imported memory.
    Memory,
}

/// An import that failed: what to release, in this order, why, and the frame,
/// which goes back to its pool.
pub struct ImportFailure<B> {
    /// What is still held.
    pub release: Vec<ImportResource>,
    /// Why the import failed.
    pub error: Error,
    /// The frame.
    pub frame: ExportedFrame<B>,
}

impl<B> ImportFailure<B> {
    /// The failure releases `release`, says `text` and gives `frame` back.
    pub open spec fn says(
        self,
        frame: ExportedFrame<B>,
        release: Seq<ImportResource>,
        text: Seq<char>,
    ) -> bool {
        self.frame == frame && self.release@ == release && is_import_error(self.error, text)
    }
}

/// A failed import that releases `release`, says `text` and gives `frame`
/// back.
fn import_failure<B>(
    frame: ExportedFrame<B>,
    release: Vec<ImportResource>,
    text: &str,
) -> (r: ImportFailure<B>)
    ensures
        r.says(frame, release@, text@),
{
    ImportFailure { release, error: import_error(text), frame }
}

/// A failed import that says `what` and `why`.
fn import_failure_of<B>(
    frame: ExportedFrame<B>,
    release: Vec<ImportResource>,
    what: &str,
    why: &String,
) -> (r: ImportFailure<B>)
    ensures
        r.says(frame, release@, what@ + why@),
{
    ImportFailure { release, error: Error::WgpuImport(prefixed(what, why)), frame }
}

/// The formats that an import takes.
pub open spec fn importable(fourcc: u32) -> bool {
    fourcc == FOURCC_ARGB8888 || fourcc == FOURCC_XRGB8888
}

impl<F> ExportedFrame<DmaBuf<F>> {
    /// The frame's DMA-BUF. What takes ownership of a descriptor must be
    /// handed a duplicate.
    pub fn dma_buf_fd(&self) -> (r: &F)
        ensures
            *r == self@.storage.fd,
    {
        &self.buffer.storage.fd
    }

    /// Bytes per row of the DMA-BUF's single plane.
    pub fn stride(&self) -> (r: u32)
        ensures
            r == self@.storage.layout.stride,
    {
        self.buffer.storage.layout.stride
    }

    /// The buffer's DRM fourcc.
    pub fn fourcc(&self) -> (r: u32)
        ensures
            r == self@.storage.layout.fourcc,
    {
        self.buffer.storage.layout.fourcc
    }

    /// The state that the imported texture is in: mpv has rendered it.
    pub fn initial_state(&self) -> (r: InitialState)
        ensures
            r == InitialState::Resource,
    {
        InitialState::Resource
    }

    /// The buffer's DRM format modifier: always linear.
    pub fn modifier(&self) -> (r: u64)
        ensures
            r == MODIFIER_LINEAR,
    {
        MODIFIER_LINEAR
    }

    /// Begin to import the frame into a Vulkan device, which has the DMA-BUF
    /// feature or not. A failure gives the frame back.
    pub fn into_wgpu_texture(self, has_feature: bool) -> (r: Result<
        ImportChecked<F>,
        ImportFailure<DmaBuf<F>>,
    >)
        ensures
            match r {
                Ok(next) => has_feature && importable(self@.storage.layout.fourcc) && next.frame
                    == self,
                Err(f) => if !has_feature {
                    f.says(
                        self,
                        Seq::empty(),
                        "device lacks VULKAN_EXTERNAL_MEMORY_DMA_BUF — request it in required_features (needs driver support for VK_EXT_external_memory_dma_buf and VK_EXT_image_drm_format_modifier)"@,
                    )
                } else {
                    !importable(self@.storage.layout.fourcc) && f.says(
                        self,
                        Seq::empty(),
                        "unsupported DRM fourcc "@ + hex(self@.storage.layout.fourcc as nat, 8)
                            + " (expected AR24/XR24)"@,
                    )
                },
            },
    {
        if !has_feature {
            return Err(
                import_failure(
                    self,
                    Vec::new(),
                    "device lacks VULKAN_EXTERNAL_MEMORY_DMA_BUF — request it in required_features (needs driver support for VK_EXT_external_memory_dma_buf and VK_EXT_image_drm_format_modifier)",
                ),
            );
        }
        let fourcc: u32 = self.fourcc();
        if fourcc != FOURCC_ARGB8888 && fourcc != FOURCC_XRGB8888 {
            let mut out = "unsupported DRM fourcc ".to_owned();
            push_hex(&mut out, fourcc, 8);
            out.append(" (expected AR24/XR24)");
            return Err(import_failure(self, Vec::new(), out.as_str()));
        }
        Ok(ImportChecked { frame: self })
    }
}

/// A frame can be imported.
#[non_exhaustive]
pub struct ImportChecked<F> {
    /// The frame.
    pub frame: ExportedFrame<DmaBuf<F>>,
}

impl<F> ImportChecked<F> {
    /// The frame's descriptor was duplicated, or not: Vulkan takes ownership
    /// of what it imports.
    pub fn duplicated(self, fd: Result<(), String>) -> (r: Result<
        ImportFd<F>,
        ImportFailure<DmaBuf<F>>,
    >)
        ensures
            match fd {
                Ok(_) => r == Ok::<ImportFd<F>, ImportFailure<DmaBuf<F>>>(
                    ImportFd { frame: self.frame },
                ),
                Err(why) => r matches Err(f) && f.says(
                    self.frame,
                    Seq::empty(),
                    "duplicating the dmabuf fd: "@ + why@,
                ),
            },
    {
        match fd {
            Ok(_) => Ok(ImportFd { frame: self.frame }),
            Err(why) => Err(
                import_failure_of(self.frame, Vec::new(), "duplicating the dmabuf fd: ", &why),
            ),
        }
    }
}

/// A duplicate of the frame's descriptor is held.
#[non_exhaustive]
pub struct ImportFd<F> {
    /// The frame.
    pub frame: ExportedFrame<DmaBuf<F>>,
}

impl<F> ImportFd<F> {
    /// The device is on Vulkan, or not.
    pub fn device(self, vulkan: bool) -> (r: Result<ImportDevice<F>, ImportFailure<DmaBuf<F>>>)
        ensures
            match r {
                Ok(next) => vulkan && next.frame == self.frame,
                Err(f) => !vulkan && f.says(
                    self.frame,
                    seq![ImportResource::Fd],
                    "wgpu device is not on the Vulkan backend"@,
                ),
            },
    {
        if vulkan {
            return Ok(ImportDevice { frame: self.frame });
        }
        let release = vec![ImportResource::Fd];
        assert(release@ =~= seq![ImportResource::Fd]);
        Err(import_failure(self.frame, release, "wgpu device is not on the Vulkan backend"))
    }
}

/// A duplicate of the frame's descriptor is held, for a Vulkan device.
#[non_exhaustive]
pub struct ImportDevice<F> {
    /// The frame.
    pub frame: ExportedFrame<DmaBuf<F>>,
}

/// The Vulkan image that a frame in `buffer` is imported as.
pub open spec fn frame_image<F>(buffer: SurfaceBuffer<DmaBuf<F>>) -> VulkanImage {
    VulkanImage {
        texture: frame_texture(buffer.width, buffer.height),
        modifier: MODIFIER_LINEAR,
        plane: PlaneLayout {
            offset: 0,
            size: 0,
            row_pitch: buffer.storage.layout.stride as u64,
            array_pitch: 0,
            depth_pitch: 0,
        },
        concurrent: false,
        preinitialized: false,
    }
}

impl<F> ImportDevice<F> {
    /// The Vulkan image to create over the frame's DMA-BUF.
    pub fn vulkan_image(&self) -> (r: VulkanImage)
        ensures
            r == frame_image(self.frame@),
    {
        VulkanImage {
            texture: exported_texture_desc(self.frame.width(), self.frame.height()),
            modifier: self.frame.modifier(),
            plane: PlaneLayout {
                offset: 0,
                size: 0,
                row_pitch: self.frame.stride() as u64,
                array_pitch: 0,
                depth_pitch: 0,
            },
            concurrent: false,
            preinitialized: false,
        }
    }

    /// The Vulkan image was created, or not.
    pub fn image(self, made: Result<(), String>) -> (r: Result<
        ImportImage<F>,
        ImportFailure<DmaBuf<F>>,
    >)
        ensures
            match made {
                Ok(_) => r == Ok::<ImportImage<F>, ImportFailure<DmaBuf<F>>>(
                    ImportImage { frame: self.frame },
                ),
                Err(why) => r matches Err(f) && f.says(
                    self.frame,
                    seq![ImportResource::Fd],
                    "vkCreateImage (dmabuf): "@ + why@,
                ),
            },
    {
        match made {
            Ok(_) => Ok(ImportImage { frame: self.frame }),
            Err(why) => {
                let release = vec![ImportResource::Fd];
                assert(release@ =~= seq![ImportResource::Fd]);
                Err(import_failure_of(self.frame, release, "vkCreateImage (dmabuf): ", &why))
            },
        }
    }
}

/// Bit `i` of `bits` is set.
pub open spec fn has_bit(bits: u32, i: int) -> bool {
    bits & (1u32 << (i as u32)) != 0
}

/// A Vulkan image and the descriptor are held.
#[non_exhaustive]
pub struct ImportImage<F> {
    /// The frame.
    pub frame: ExportedFrame<DmaBuf<F>>,
}

/// What a failed import releases while Vulkan does not own the descriptor.
pub open spec fn fd_then_image() -> Seq<ImportResource> {
    seq![ImportResource::Fd, ImportResource::Image]
}

/// The descriptor and the image, in the order of their release.
fn release_fd_then_image() -> (r: Vec<ImportResource>)
    ensures
        r@ == fd_then_image(),
{
    let r = vec![ImportResource::Fd, ImportResource::Image];
    assert(r@ =~= fd_then_image());
    r
}

/// The lowest of the first `count` memory types that both `image` and `fd`
/// accept.
pub fn memory_type(image: u32, fd: u32, count: u32) -> (r: Option<u32>)
    requires
        count <= 32,
    ensures
        match r {
            Some(i) => {
                &&& i < count
                &&& has_bit(image, i as int) && has_bit(fd, i as int)
                &&& forall|j: int|
                    0 <= j < i ==> !(#[trigger] has_bit(image, j) && has_bit(fd, j))
            },
            None => forall|j: int|
                0 <= j < count ==> !(#[trigger] has_bit(image, j) && has_bit(fd, j)),
        },
{
    let both: u32 = image & fd;
    let mut i: u32 = 0;
    while i < count
        invariant
            0 <= i <= count,
            count <= 32,
            both == image & fd,
            forall|j: int| 0 <= j < i ==> !(#[trigger] has_bit(image, j) && has_bit(fd, j)),
        decreases count - i,
    {
        assert((both & (1u32 << i) != 0) == (image & (1u32 << i) != 0 && fd & (1u32 << i) != 0))
            by (bit_vector)
            requires
                both == image & fd,
                i < 32,
        ;
        if both & (1u32 << i) != 0 {
            return Some(i);
        }
        i = i + 1;
    }
    None
}

impl<F> ImportImage<F> {
    /// The memory types that the descriptor accepts were asked for. `image`
    /// are those that the image accepts, `count` those that the device has.
    pub fn memory_types(self, fd: Result<u32, String>, image: u32, count: u32) -> (r: Result<
        (u32, ImportMemory<F>),
        ImportFailure<DmaBuf<F>>,
    >)
        requires
            count <= 32,
        ensures
            match fd {
                Err(why) => r matches Err(f) && f.says(
                    self.frame,
                    fd_then_image(),
                    "vkGetMemoryFdPropertiesKHR: "@ + why@,
                ),
                Ok(fd) => match r {
                    Ok(next) => {
                        &&& next.0 < count && next.1.frame == self.frame
                        &&& has_bit(image, next.0 as int) && has_bit(fd, next.0 as int)
                        &&& forall|j: int|
                            0 <= j < next.0 ==> !(#[trigger] has_bit(image, j) && has_bit(fd, j))
                    },
                    Err(f) => {
                        &&& forall|j: int|
                            0 <= j < count ==> !(#[trigger] has_bit(image, j) && has_bit(fd, j))
                        &&& f.says(
                            self.frame,
                            fd_then_image(),
                            "no Vulkan memory type accepts this dmabuf"@,
                        )
                    },
                },
            },
    {
        match fd {
            Err(why) => Err(
                import_failure_of(
                    self.frame,
                    release_fd_then_image(),
                    "vkGetMemoryFdPropertiesKHR: ",
                    &why,
                ),
            ),
            Ok(fd) => match memory_type(image, fd, count) {
                Some(i) => Ok((i, ImportMemory { frame: self.frame })),
                None => Err(
                    import_failure(
                        self.frame,
                        release_fd_then_image(),
                        "no Vulkan memory type accepts this dmabuf",
                    ),
                ),
            },
        }
    }
}

/// A Vulkan image and the descriptor are held, and a memory type is known.
#[non_exhaustive]
pub struct ImportMemory<F> {
    /// The frame.
    pub frame: ExportedFrame<DmaBuf<F>>,
}

impl<F> ImportMemory<F> {
    /// The memory was imported, or not. Vulkan owns the descriptor only
    /// where it was.
    pub fn allocated(self, memory: Result<(), String>) -> (r: Result<
        ImportBind<F>,
        ImportFailure<DmaBuf<F>>,
    >)
        ensures
            match memory {
                Ok(_) => r == Ok::<ImportBind<F>, ImportFailure<DmaBuf<F>>>(
                    ImportBind { frame: self.frame },
                ),
                Err(why) => r matches Err(f) && f.says(
                    self.frame,
                    fd_then_image(),
                    "vkAllocateMemory (import dmabuf): "@ + why@,
                ),
            },
    {
        match memory {
            Ok(_) => Ok(ImportBind { frame: self.frame }),
            Err(why) => Err(
                import_failure_of(
                    self.frame,
                    release_fd_then_image(),
                    "vkAllocateMemory (import dmabuf): ",
                    &why,
                ),
            ),
        }
    }
}

/// A Vulkan image and the imported memory are held.
#[non_exhaustive]
pub struct ImportBind<F> {
    /// The frame.
    pub frame: ExportedFrame<DmaBuf<F>>,
}

impl<F> ImportBind<F> {
    /// The memory was bound to the image, or not. Where it was, the frame is
    /// kept until wgpu is done with the texture, and the image and the memory
    /// are released before it goes back to its pool.
    pub fn bound(self, bound: Result<(), String>) -> (r: Result<
        (ExportedFrame<DmaBuf<F>>, Vec<ImportResource>),
        ImportFailure<DmaBuf<F>>,
    >)
        ensures
            match bound {
                Ok(_) => r matches Ok(kept) && kept.0 == self.frame && kept.1@ == seq![
                    ImportResource::Image,
                    ImportResource::Memory,
                ],
                Err(why) => r matches Err(f) && f.says(
                    self.frame,
                    seq![ImportResource::Memory, ImportResource::Image],
                    "vkBindImageMemory (dmabuf): "@ + why@,
                ),
            },
    {
        match bound {
            Ok(_) => {
                let release = vec![ImportResource::Image, ImportResource::Memory];
                assert(release@ =~= seq![ImportResource::Image, ImportResource::Memory]);
                Ok((self.frame, release))
            },
            Err(why) => {
                let release = vec![ImportResource::Memory, ImportResource::Image];
                assert(release@ =~= seq![ImportResource::Memory, ImportResource::Image]);
                Err(import_failure_of(self.frame, release, "vkBindImageMemory (dmabuf): ", &why))
            },
        }
    }
}

/// What opening a shared handle on a DX12 device gave.
pub enum OpenReply {
    /// The device is not on DX12.
    NotDx12,
    /// The call failed, for this reason.
    Failed(String),
    /// The call gave no resource.
    Empty,
    /// The resource is open.
    Opened,
}

impl<H> ExportedFrame<SharedTexture<H>> {
    /// The frame's shared handle for the backing texture.
    pub fn shared_handle(&self) -> (r: &H)
        ensures
            *r == self@.storage.handle,
    {
        &self.buffer.storage.handle
    }

    /// The shared texture's DXGI format.
    pub fn dxgi_format(&self) -> (r: u32)
        ensures
            r == DXGI_FORMAT_BGRA8_UNORM,
    {
        DXGI_FORMAT_BGRA8_UNORM
    }

    /// The state that the imported texture is in: D3D12 never put the resource
    /// into any but the common one.
    pub fn initial_state(&self) -> (r: InitialState)
        ensures
            r == InitialState::Common,
    {
        InitialState::Common
    }

    /// Import the frame into a DX12 device, where `reply` is what opening its
    /// shared handle gave. The frame is kept until wgpu is done with the
    /// texture; a failure gives it back.
    pub fn into_wgpu_texture(self, reply: OpenReply) -> (r: Result<
        Self,
        ImportFailure<SharedTexture<H>>,
    >)
        ensures
            match reply {
                OpenReply::Opened => r == Ok::<Self, ImportFailure<SharedTexture<H>>>(self),
                OpenReply::NotDx12 => r matches Err(f) && f.says(
                    self,
                    Seq::empty(),
                    "wgpu device is not on the DX12 backend"@,
                ),
                OpenReply::Failed(why) => r matches Err(f) && f.says(
                    self,
                    Seq::empty(),
                    "ID3D12Device::OpenSharedHandle failed: "@ + why@,
                ),
                OpenReply::Empty => r matches Err(f) && f.says(
                    self,
                    Seq::empty(),
                    "OpenSharedHandle returned no resource"@,
                ),
            },
    {
        match reply {
            OpenReply::Opened => Ok(self),
            OpenReply::NotDx12 => Err(
                import_failure(self, Vec::new(), "wgpu device is not on the DX12 backend"),
            ),
            OpenReply::Failed(why) => Err(
                import_failure_of(
                    self,
                    Vec::new(),
                    "ID3D12Device::OpenSharedHandle failed: ",
                    &why,
                ),
            ),
            OpenReply::Empty => Err(
                import_failure(self, Vec::new(), "OpenSharedHandle returned no resource"),
            ),
        }
    }

    /// End an import: where wgpu will say when it is done with the texture
    /// (`attached`), the frame is kept until then. Where it will not, the
    /// buffer leaves `pool` for good, since reusing it could render over
    /// memory that is still read.
    pub fn imported(self, attached: bool, pool: &mut Pool<SharedTexture<H>>) -> (r: Option<Self>)
        requires
            old(pool)@.wf(),
            old(pool)@.in_use > 0,
        ensures
            if attached {
                r == Some(self) && final(pool)@ == old(pool)@
            } else {
                r is None && final(pool)@ == old(pool)@.retired_buffer(self@)
            },
            final(pool)@.wf(),
    {
        if attached {
            Some(self)
        } else {
            self.retire(pool);
            None
        }
    }
}

impl<S> ExportedFrame<IoSurface<S>> {
    /// The frame's retained IOSurface.
    pub fn io_surface(&self) -> (r: &S)
        ensures
            *r == self@.storage.surface,
    {
        &self.buffer.storage.surface
    }

    /// The state that the imported texture is in: mpv has rendered it.
    pub fn initial_state(&self) -> (r: InitialState)
        ensures
            r == InitialState::Resource,
    {
        InitialState::Resource
    }

    /// Import the frame into a device, which is on Metal or not, where
    /// `wrapped` says whether its IOSurface was wrapped in a texture (which
    /// is not tried off Metal). The frame is kept until wgpu is done with the
    /// texture; a failure gives it back.
    pub fn into_wgpu_texture(self, metal: bool, wrapped: bool) -> (r: Result<
        Self,
        ImportFailure<IoSurface<S>>,
    >)
        ensures
            match r {
                Ok(frame) => metal && wrapped && frame == self,
                Err(f) => if !metal {
                    f.says(self, Seq::empty(), "wgpu device is not on the Metal backend"@)
                } else {
                    !wrapped && f.says(
                        self,
                        Seq::empty(),
                        "newTextureWithDescriptor:iosurface:plane: failed for "@ + decimal(
                            self@.width as nat,
                        ) + "x"@ + decimal(self@.height as nat),
                    )
                },
            },
    {
        if !metal {
            return Err(import_failure(self, Vec::new(), "wgpu device is not on the Metal backend"));
        }
        if !wrapped {
            let mut out = "newTextureWithDescriptor:iosurface:plane: failed for ".to_owned();
            push_decimal(&mut out, self.width());
            out.append("x");
            push_decimal(&mut out, self.height());
            return Err(import_failure(self, Vec::new(), out.as_str()));
        }
        Ok(self)
    }
}

/// An acquired frame is the one that was published, and giving it back makes
/// its buffer free again, with nothing lost.
pub proof fn law_acquire_and_release<B>(v: PoolView<B>)
    requires
        v.wf(),
        !v.closed,
        v.published is Some,
        !v.render_dropped,
    ensures
        v.taken().returned(v.published->0) == (PoolView {
            published: None,
            free: v.free.push(v.published->0),
            ..v
        }),
        v.taken().returned(v.published->0).held() == v.held(),
        v.taken().returned(v.published->0).wf(),
{
}

/// An acquired frame keeps its pixels until it comes back, whatever happens to
/// the pool meanwhile: other renders, resizes, the end of the render thread.
/// Its buffer stays out of the pool and no render begins on it. So does what
/// an import keeps, which is the frame.
pub proof fn law_an_acquired_frame_keeps_its_pixels<B>(
    run: PoolRun<B>,
    frame: ExportedFrame<B>,
    steps: Seq<PoolStep<B>>,
    n: nat,
    pixels: Pixels<B>,
)
    requires
        run.apart(),
        run.pool.published == Some(frame@),
        n <= steps.len(),
        forall|i: int| 0 <= i < n ==> !brings_in(#[trigger] steps[i], frame@),
        pixels.only_renders_write(run.after(PoolStep::Take), steps),
    ensures
        run.after(PoolStep::Take).after_first(steps, n).is_out(frame@),
        run.after(PoolStep::Take).after_first(steps, n).pool.render_start().2 != RenderNext::Into(
            frame@,
        ),
        (pixels.after)(n, frame@) == (pixels.after)(0, frame@),
{
    let taken = run.after(PoolStep::Take);
    law_a_buffer_out_is_never_rendered_into(taken, steps, n, frame@);
    law_a_buffer_out_keeps_its_pixels(taken, steps, n, frame@, pixels);
}

impl VulkanImage {
    /// Bytes per row of tightly packed texels.
    pub open spec fn row_bytes(self) -> int {
        self.texture.width * 4
    }

    /// Where the plane holds byte `i` of the tightly packed texels.
    pub open spec fn byte_at(self, i: int) -> int {
        self.plane.offset + i / self.row_bytes() * self.plane.row_pitch + i % self.row_bytes()
    }

    /// `px` are the tightly packed texels of this linear image over `memory`.
    /// Where the format has no alpha, the alpha bytes are anything.
    pub open spec fn reads_back(self, memory: Seq<u8>, alpha: bool, px: Seq<u8>) -> bool {
        &&& px.len() == self.row_bytes() * self.texture.height
        &&& forall|i: int|
            0 <= i < px.len() && (alpha || i % 4 != 3) ==> #[trigger] px[i] == memory[self.byte_at(
                i,
            )]
    }
}

/// The DRM format `fourcc` has an alpha byte that means something.
pub open spec fn has_alpha(fourcc: u32) -> bool {
    fourcc != FOURCC_XRGB8888
}

/// `a` and `b` are the same pixels, the alpha byte excepted where it means
/// nothing.
pub open spec fn same_pixels(a: Seq<u8>, b: Seq<u8>, alpha: bool) -> bool {
    &&& a.len() == b.len()
    &&& forall|i: int| 0 <= i < a.len() && (alpha || i % 4 != 3) ==> #[trigger] a[i] == b[i]
}

/// A texture over a frame's DMA-BUF reads back what copying the frame's pixels
/// gives, byte for byte; on a format without alpha, but for the alpha byte.
pub proof fn law_an_imported_texture_reads_the_frame<F>(
    buffer: SurfaceBuffer<DmaBuf<F>>,
    memory: Seq<u8>,
    px: Seq<u8>,
)
    requires
        holds_rows(
            memory,
            buffer.storage.layout.stride as int,
            buffer.width as int,
            buffer.height as int,
        ),
        frame_image(buffer).reads_back(memory, has_alpha(buffer.storage.layout.fourcc), px),
    ensures
        frame_image(buffer).texture == frame_texture(buffer.width, buffer.height),
        same_pixels(
            px,
            packed_rows(
                memory,
                buffer.storage.layout.stride as int,
                buffer.width as int,
                buffer.height as nat,
            ),
            has_alpha(buffer.storage.layout.fourcc),
        ),
        has_alpha(buffer.storage.layout.fourcc) ==> px == packed_rows(
            memory,
            buffer.storage.layout.stride as int,
            buffer.width as int,
            buffer.height as nat,
        ),
{
    let image = frame_image(buffer);
    let stride = buffer.storage.layout.stride as int;
    let w = buffer.width as int;
    let h = buffer.height as nat;
    let row_bytes = image.row_bytes();
    let alpha = has_alpha(buffer.storage.layout.fourcc);
    let copied = packed_rows(memory, stride, w, h);
    super::pixels::lemma_packed_len(memory, stride, w, h);
    assert forall|i: int| 0 <= i < px.len() && (alpha || i % 4 != 3) implies #[trigger] px[i]
        == copied[i] by {
        assert(row_bytes > 0) by (nonlinear_arith)
            requires
                0 <= i < row_bytes * h,
                row_bytes >= 0,
        ;
        let row = i / row_bytes;
        let k = i % row_bytes;
        assert(0 <= row < h && 0 <= k < row_bytes && i == row * row_bytes + k) by (nonlinear_arith)
            requires
                row == i / row_bytes,
                k == i % row_bytes,
                0 <= i < row_bytes * h,
                row_bytes > 0,
        ;
        law_readback_keeps_every_pixel(memory, stride, w, h, row, k);
    }
    if alpha {
        assert(px =~= copied);
    }
}

/// What an import keeps reads back the pixels that the frame had when it was
/// acquired, until it comes back to its pool: whatever is rendered, resized or
/// ended meanwhile.
pub proof fn law_an_imported_texture_stays_correct<F>(
    run: PoolRun<DmaBuf<F>>,
    frame: ExportedFrame<DmaBuf<F>>,
    steps: Seq<PoolStep<DmaBuf<F>>>,
    n: nat,
    pixels: Pixels<DmaBuf<F>>,
    px: Seq<u8>,
)
    requires
        run.apart(),
        run.pool.published == Some(frame@),
        n <= steps.len(),
        forall|i: int| 0 <= i < n ==> !brings_in(#[trigger] steps[i], frame@),
        pixels.only_renders_write(run.after(PoolStep::Take), steps),
        holds_rows(
            (pixels.after)(0, frame@),
            frame@.storage.layout.stride as int,
            frame@.width as int,
            frame@.height as int,
        ),
        frame_image(frame@).reads_back(
            (pixels.after)(n, frame@),
            has_alpha(frame@.storage.layout.fourcc),
            px,
        ),
    ensures
        same_pixels(
            px,
            packed_rows(
                (pixels.after)(0, frame@),
                frame@.storage.layout.stride as int,
                frame@.width as int,
                frame@.height as nat,
            ),
            has_alpha(frame@.storage.layout.fourcc),
        ),
{
    law_an_acquired_frame_keeps_its_pixels(run, frame, steps, n, pixels);
    law_an_imported_texture_reads_the_frame(frame@, (pixels.after)(0, frame@), px);
}

} // verus!
