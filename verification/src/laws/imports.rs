//! Laws of importing a frame into wgpu.

use vstd::prelude::*;

use crate::error::Error;
use crate::export::frame::{
    exported_texture_desc, exported_texture_label, memory_type, metal_storage, DmaBuf,
    ExportedFrame, FrameTexture, ImportBind, ImportChecked, ImportDevice, ImportFailure, ImportFd,
    ImportImage, ImportMemory, ImportResource, InitialState, IoSurface, MetalStorage, OpenReply,
    SharedTexture, TextureDimension, TextureFormat, VulkanImage,
};
use crate::export::pool::Pool;
#[allow(unused_imports)]
use crate::export::frame::has_bit;
#[allow(unused_imports)]
use crate::export::pixels::{law_readback_keeps_every_pixel, lemma_packed_len};
#[allow(unused_imports)]
use crate::laws::frames::same_flags;
#[allow(unused_imports)]
use crate::text::{decimal, hex};

verus! {

/// A failed import says `text`, gives the frame back, and has nothing to
/// release.
pub open spec fn fails_empty<B>(
    f: ImportFailure<B>,
    frame: ExportedFrame<B>,
    text: Seq<char>,
) -> bool {
    &&& f.frame == frame
    &&& f.release@.len() == 0
    &&& f.error matches Error::WgpuImport(why) && why@ == text
}

/// A failed import says `text`, gives the frame back, and releases `first` and
/// then `second`.
pub open spec fn fails_holding<B>(
    f: ImportFailure<B>,
    frame: ExportedFrame<B>,
    first: ImportResource,
    second: Option<ImportResource>,
    text: Seq<char>,
) -> bool {
    &&& f.frame == frame
    &&& f.release@.len() == (if second is Some {
        2int
    } else {
        1int
    })
    &&& f.release@[0] == first
    &&& second matches Some(next) ==> f.release@[1] == next
    &&& f.error matches Error::WgpuImport(why) && why@ == text
}

/// A frame is imported as a two-dimensional BGRA texture of its own size, with
/// one layer, level and sample, to be sampled and copied from.
pub proof fn law_a_frame_is_imported_as_its_texture(
    width: u32,
    height: u32,
    r: FrameTexture,
    label: &'static str,
)
    requires
        call_ensures(exported_texture_desc, (width, height), r),
        call_ensures(exported_texture_label, (), label),
    ensures
        r.width == width && r.height == height,
        r.layers == 1 && r.mip_levels == 1 && r.samples == 1,
        r.dimension == TextureDimension::D2,
        r.format == TextureFormat::Bgra8Unorm,
        r.texture_binding && r.copy_src,
        label@ == "mpv-exported-frame"@,
{
}

/// A DMA-BUF is imported as one linear plane from its start, whose rows are as
/// far apart as the frame's, at the frame's size.
pub proof fn law_a_dma_buf_is_imported_as_its_plane<F>(device: ImportDevice<F>, r: VulkanImage)
    requires
        call_ensures(ImportDevice::<F>::vulkan_image, (&device,), r),
    ensures
        r.texture.width == device.frame@.width,
        r.texture.height == device.frame@.height,
        r.texture.layers == 1 && r.texture.mip_levels == 1 && r.texture.samples == 1,
        r.texture.dimension == TextureDimension::D2,
        r.texture.format == TextureFormat::Bgra8Unorm,
        r.texture.texture_binding && r.texture.copy_src,
        r.modifier == 0,
        r.plane.offset == 0,
        r.plane.row_pitch == device.frame@.storage.layout.stride,
        r.plane.size == 0 && r.plane.array_pitch == 0 && r.plane.depth_pitch == 0,
        !r.concurrent,
        !r.preinitialized,
{
}

/// A texel of the image that a frame is imported as lies in the DMA-BUF where
/// copying the frame's pixels reads it: byte `k` of row `row` starts at the
/// plane's start, as many row distances on.
pub proof fn law_an_imported_image_lies_where_a_copy_reads<F>(
    device: ImportDevice<F>,
    image: VulkanImage,
    memory: &[u8],
    copied: Vec<u8>,
    row: int,
    k: int,
)
    requires
        device.frame@.width * 4 <= device.frame@.storage.layout.stride,
        device.frame@.storage.layout.stride * device.frame@.height <= memory@.len(),
        call_ensures(ImportDevice::<F>::vulkan_image, (&device,), image),
        call_ensures(
            ExportedFrame::<DmaBuf<F>>::copy_pixels,
            (&device.frame, Some((memory, device.frame@.storage.layout.stride as usize))),
            copied,
        ),
        0 <= row < image.texture.height,
        0 <= k < image.texture.width * 4,
    ensures
        copied@.len() == image.texture.width * 4 * image.texture.height,
        copied@[row * (image.texture.width * 4) + k] == memory@[image.plane.offset + row
            * image.plane.row_pitch + k],
{
    let frame = device.frame@;
    law_readback_keeps_every_pixel(
        memory@,
        frame.storage.layout.stride as int,
        frame.width as int,
        frame.height as nat,
        row,
        k,
    );
    lemma_packed_len(
        memory@,
        frame.storage.layout.stride as int,
        frame.width as int,
        frame.height as nat,
    );
}

/// A DMA-BUF frame hands out its own descriptor, row distance and format, and
/// its layout is linear.
pub proof fn law_a_dma_buf_tells_its_layout<F>(
    frame: ExportedFrame<DmaBuf<F>>,
    fd: &F,
    stride: u32,
    fourcc: u32,
    modifier: u64,
    state: InitialState,
)
    requires
        call_ensures(ExportedFrame::<DmaBuf<F>>::dma_buf_fd, (&frame,), fd),
        call_ensures(ExportedFrame::<DmaBuf<F>>::stride, (&frame,), stride),
        call_ensures(ExportedFrame::<DmaBuf<F>>::fourcc, (&frame,), fourcc),
        call_ensures(ExportedFrame::<DmaBuf<F>>::modifier, (&frame,), modifier),
        call_ensures(ExportedFrame::<DmaBuf<F>>::initial_state, (&frame,), state),
    ensures
        *fd == frame@.storage.fd,
        stride == frame@.storage.layout.stride,
        fourcc == frame@.storage.layout.fourcc,
        modifier == 0,
        state == InitialState::Resource,
{
}

/// An import goes on if and only if the device has the DMA-BUF feature and the
/// frame is in one of the two formats that are taken, `AR24` and `XR24`. The
/// missing feature is said first.
pub proof fn law_an_import_needs_the_feature_and_the_format<F>(
    frame: ExportedFrame<DmaBuf<F>>,
    has_feature: bool,
    r: Result<ImportChecked<F>, ImportFailure<DmaBuf<F>>>,
)
    requires
        call_ensures(ExportedFrame::<DmaBuf<F>>::into_wgpu_texture, (frame, has_feature), r),
    ensures
        r is Ok <==> has_feature && (frame@.storage.layout.fourcc == 0x3432_5241
            || frame@.storage.layout.fourcc == 0x3432_5258),
        r matches Ok(next) ==> next.frame == frame,
        !has_feature ==> fails_empty(
            r->Err_0,
            frame,
            "device lacks VULKAN_EXTERNAL_MEMORY_DMA_BUF — request it in required_features (needs driver support for VK_EXT_external_memory_dma_buf and VK_EXT_image_drm_format_modifier)"@,
        ),
        has_feature && r is Err ==> fails_empty(
            r->Err_0,
            frame,
            "unsupported DRM fourcc "@ + hex(frame@.storage.layout.fourcc as nat, 8)
                + " (expected AR24/XR24)"@,
        ),
{
}

/// Each further call of an import goes on with the same frame where it went
/// well. Where it did not, the import fails with what the call said, and releases
/// what it holds by then: the descriptor, then the image; once Vulkan owns the
/// descriptor, the memory and then the image.
pub proof fn law_an_import_releases_what_it_holds<F>(
    checked: ImportChecked<F>,
    with_fd: ImportFd<F>,
    device: ImportDevice<F>,
    memory: ImportMemory<F>,
    bind: ImportBind<F>,
    reply: Result<(), String>,
    vulkan: bool,
    duplicated: Result<ImportFd<F>, ImportFailure<DmaBuf<F>>>,
    on_device: Result<ImportDevice<F>, ImportFailure<DmaBuf<F>>>,
    imaged: Result<ImportImage<F>, ImportFailure<DmaBuf<F>>>,
    allocated: Result<ImportBind<F>, ImportFailure<DmaBuf<F>>>,
    bound: Result<(ExportedFrame<DmaBuf<F>>, Vec<ImportResource>), ImportFailure<DmaBuf<F>>>,
)
    requires
        call_ensures(ImportChecked::<F>::duplicated, (checked, reply), duplicated),
        call_ensures(ImportFd::<F>::device, (with_fd, vulkan), on_device),
        call_ensures(ImportDevice::<F>::image, (device, reply), imaged),
        call_ensures(ImportMemory::<F>::allocated, (memory, reply), allocated),
        call_ensures(ImportBind::<F>::bound, (bind, reply), bound),
    ensures
        vulkan ==> (on_device matches Ok(next) && next.frame == with_fd.frame),
        !vulkan ==> (on_device matches Err(f) && fails_holding(
            f,
            with_fd.frame,
            ImportResource::Fd,
            None,
            "wgpu device is not on the Vulkan backend"@,
        )),
        reply is Ok ==> {
            &&& duplicated matches Ok(next) && next.frame == checked.frame
            &&& imaged matches Ok(next) && next.frame == device.frame
            &&& allocated matches Ok(next) && next.frame == memory.frame
            &&& bound matches Ok(kept) && kept.0 == bind.frame && kept.1@.len() == 2 && kept.1@[0]
                == ImportResource::Image && kept.1@[1] == ImportResource::Memory
        },
        reply matches Err(why) ==> {
            &&& duplicated matches Err(f) && fails_empty(
                f,
                checked.frame,
                "duplicating the dmabuf fd: "@ + why@,
            )
            &&& imaged matches Err(f) && fails_holding(
                f,
                device.frame,
                ImportResource::Fd,
                None,
                "vkCreateImage (dmabuf): "@ + why@,
            )
            &&& allocated matches Err(f) && fails_holding(
                f,
                memory.frame,
                ImportResource::Fd,
                Some(ImportResource::Image),
                "vkAllocateMemory (import dmabuf): "@ + why@,
            )
            &&& bound matches Err(f) && fails_holding(
                f,
                bind.frame,
                ImportResource::Memory,
                Some(ImportResource::Image),
                "vkBindImageMemory (dmabuf): "@ + why@,
            )
        },
{
}

/// The memory type is the lowest that the device has and that both the image and
/// the descriptor accept. Without one the import fails, holding the descriptor
/// and the image.
pub proof fn law_the_lowest_common_memory_type_is_taken<F>(
    with_image: ImportImage<F>,
    fd: Result<u32, String>,
    image: u32,
    count: u32,
    r: Result<(u32, ImportMemory<F>), ImportFailure<DmaBuf<F>>>,
    j: u32,
)
    requires
        count <= 32,
        call_ensures(ImportImage::<F>::memory_types, (with_image, fd, image, count), r),
    ensures
        fd matches Ok(bits) ==> {
            &&& r matches Ok(next) ==> {
                &&& next.1.frame == with_image.frame
                &&& next.0 < count
                &&& image & (1u32 << next.0) != 0 && bits & (1u32 << next.0) != 0
                &&& j < next.0 ==> image & (1u32 << j) == 0 || bits & (1u32 << j) == 0
            }
            &&& r matches Err(f) ==> {
                &&& j < count ==> image & (1u32 << j) == 0 || bits & (1u32 << j) == 0
                &&& fails_holding(
                    f,
                    with_image.frame,
                    ImportResource::Fd,
                    Some(ImportResource::Image),
                    "no Vulkan memory type accepts this dmabuf"@,
                )
            }
        },
        fd matches Err(why) ==> (r matches Err(f) && fails_holding(
            f,
            with_image.frame,
            ImportResource::Fd,
            Some(ImportResource::Image),
            "vkGetMemoryFdPropertiesKHR: "@ + why@,
        )),
{
    if let Ok(bits) = fd {
        assert(has_bit(image, j as int) == (image & (1u32 << j) != 0));
        assert(has_bit(bits, j as int) == (bits & (1u32 << j) != 0));
        let args = (with_image, fd, image, count);
        if r is Err && j < count {
            assert(args.2 == image && args.3 == count);
            assert(!(has_bit(args.2, j as int) && has_bit(bits, j as int)));
        }
    }
}

/// The lowest common memory type, by itself.
pub proof fn law_the_lowest_common_bit_is_found(
    image: u32,
    fd: u32,
    count: u32,
    r: Option<u32>,
    j: u32,
)
    requires
        count <= 32,
        call_ensures(memory_type, (image, fd, count), r),
    ensures
        r matches Some(i) ==> {
            &&& i < count
            &&& image & (1u32 << i) != 0 && fd & (1u32 << i) != 0
            &&& j < i ==> image & (1u32 << j) == 0 || fd & (1u32 << j) == 0
        },
        r is None && j < count ==> image & (1u32 << j) == 0 || fd & (1u32 << j) == 0,
{
    assert(has_bit(image, j as int) == (image & (1u32 << j) != 0));
    assert(has_bit(fd, j as int) == (fd & (1u32 << j) != 0));
    let args = (image, fd, count);
    if r is None && j < count {
        assert(args.0 == image && args.1 == fd && args.2 == count);
        assert(!(has_bit(args.0, j as int) && has_bit(args.1, j as int)));
    }
}

/// A shared texture's frame hands out its own handle, in BGRA, in the common
/// state. Its import goes on with the frame if and only if the handle opened;
/// otherwise it fails with what went wrong, and gives the frame back.
pub proof fn law_a_shared_texture_is_imported_once_open<H>(
    frame: ExportedFrame<SharedTexture<H>>,
    handle: &H,
    format: u32,
    state: InitialState,
    reply: OpenReply,
    r: Result<ExportedFrame<SharedTexture<H>>, ImportFailure<SharedTexture<H>>>,
)
    requires
        call_ensures(ExportedFrame::<SharedTexture<H>>::shared_handle, (&frame,), handle),
        call_ensures(ExportedFrame::<SharedTexture<H>>::dxgi_format, (&frame,), format),
        call_ensures(ExportedFrame::<SharedTexture<H>>::initial_state, (&frame,), state),
        call_ensures(ExportedFrame::<SharedTexture<H>>::into_wgpu_texture, (frame, reply), r),
    ensures
        *handle == frame@.storage.handle,
        format == 87,
        state == InitialState::Common,
        r is Ok <==> reply is Opened,
        r matches Ok(kept) ==> kept == frame,
        reply is NotDx12 ==> (r matches Err(f) && fails_empty(
            f,
            frame,
            "wgpu device is not on the DX12 backend"@,
        )),
        reply matches OpenReply::Failed(why) ==> (r matches Err(f) && fails_empty(
            f,
            frame,
            "ID3D12Device::OpenSharedHandle failed: "@ + why@,
        )),
        reply is Empty ==> (r matches Err(f) && fails_empty(
            f,
            frame,
            "OpenSharedHandle returned no resource"@,
        )),
{
}

/// An imported shared texture keeps its frame where wgpu will say when it is
/// done. Where it will not, the buffer leaves the pool for good, and is never
/// rendered into.
pub proof fn law_an_untracked_import_retires_its_buffer<H>(
    frame: ExportedFrame<SharedTexture<H>>,
    attached: bool,
    pool: &mut Pool<SharedTexture<H>>,
    r: Option<ExportedFrame<SharedTexture<H>>>,
)
    requires
        old(pool)@.in_use > 0,
        old(pool)@.live > 0,
        call_ensures(ExportedFrame::<SharedTexture<H>>::imported, (frame, attached, pool), r),
    ensures
        attached ==> r == Some(frame) && final(pool)@ == old(pool)@,
        !attached ==> {
            &&& r is None
            &&& final(pool)@.retired == old(pool)@.retired.push(frame@)
            &&& final(pool)@.free == old(pool)@.free
            &&& final(pool)@.published == old(pool)@.published
            &&& final(pool)@.in_use == old(pool)@.in_use - 1
            &&& final(pool)@.live == old(pool)@.live - 1
            &&& final(pool)@.force_render == (old(pool)@.force_render || old(
                pool,
            )@.render_dropped)
            &&& !final(pool)@.render_dropped
            &&& final(pool)@.swap_pending == old(pool)@.swap_pending
            &&& same_flags(old(pool)@, final(pool)@)
        },
{
}

/// An IOSurface's frame hands out its own surface. Its import goes on with the
/// frame if and only if the device is on Metal and the surface was wrapped;
/// otherwise it fails with which of the two it was, and gives the frame back.
pub proof fn law_a_surface_is_imported_once_wrapped<S>(
    frame: ExportedFrame<IoSurface<S>>,
    surface: &S,
    state: InitialState,
    metal: bool,
    wrapped: bool,
    r: Result<ExportedFrame<IoSurface<S>>, ImportFailure<IoSurface<S>>>,
)
    requires
        call_ensures(ExportedFrame::<IoSurface<S>>::io_surface, (&frame,), surface),
        call_ensures(ExportedFrame::<IoSurface<S>>::initial_state, (&frame,), state),
        call_ensures(ExportedFrame::<IoSurface<S>>::into_wgpu_texture, (frame, metal, wrapped), r),
    ensures
        *surface == frame@.storage.surface,
        state == InitialState::Resource,
        r is Ok <==> metal && wrapped,
        r matches Ok(kept) ==> kept == frame,
        !metal ==> (r matches Err(f) && fails_empty(
            f,
            frame,
            "wgpu device is not on the Metal backend"@,
        )),
        metal && !wrapped ==> (r matches Err(f) && fails_empty(
            f,
            frame,
            "newTextureWithDescriptor:iosurface:plane: failed for "@ + decimal(
                frame@.width as nat,
            ) + "x"@ + decimal(frame@.height as nat),
        )),
{
}

/// Only unified memory has shared textures.
pub proof fn law_only_unified_memory_is_shared(unified: bool, r: MetalStorage)
    requires
        call_ensures(metal_storage, (unified,), r),
    ensures
        unified <==> r == MetalStorage::Shared,
        !unified <==> r == MetalStorage::Managed,
{
}

} // verus!
