//! Opaque GPU handles and the trusted wrappers that create and fill
//! them.  Everything the verifier knows about these objects is stated
//! here; each wrapper's contract is backed by the documented behaviour
//! of the corresponding `wgpu` call.

use vstd::prelude::*;

verus! {

#[verifier::external_type_specification]
#[verifier::external_body]
pub struct ExDevice(wgpu::Device);

#[verifier::external_type_specification]
#[verifier::external_body]
pub struct ExQueue(wgpu::Queue);

#[verifier::external_type_specification]
#[verifier::external_body]
pub struct ExBuffer(wgpu::Buffer);

#[verifier::external_type_specification]
#[verifier::external_body]
pub struct ExBindGroup(wgpu::BindGroup);

#[verifier::external_type_specification]
#[verifier::external_body]
pub struct ExBindGroupLayout(wgpu::BindGroupLayout);

#[verifier::external_type_specification]
#[verifier::external_body]
pub struct ExTexture(wgpu::Texture);

#[verifier::external_type_specification]
#[verifier::external_body]
pub struct ExTextureView(wgpu::TextureView);

#[verifier::external_type_specification]
#[verifier::external_body]
pub struct ExRenderPipeline(wgpu::RenderPipeline);

#[verifier::external_type_specification]
pub struct ExSurfaceError(wgpu::SurfaceError);

/// The byte size a GPU buffer was created with.
pub uninterp spec fn buffer_size_s(b: wgpu::Buffer) -> int;

/// The pixel width and height a GPU texture was created with.
pub uninterp spec fn texture_size_s(t: wgpu::Texture) -> (int, int);

/// How a buffer created by the library will be used.
#[derive(Clone, Copy, Debug, PartialEq, Eq, Structural)]
pub enum BufferKind {
    /// A per-object uniform slot, written from the CPU each frame.
    Uniform,
    /// An instance buffer bound as a vertex input, rewritten each frame.
    Instance,
}

/// Relies on `wgpu::Device::create_buffer`: the returned buffer has
/// exactly the byte size named in the descriptor.
#[verifier::external_body]
pub fn create_gpu_buffer(device: &wgpu::Device, size: u64, kind: BufferKind) -> (b: wgpu::Buffer)
    ensures
        buffer_size_s(b) == size as int,
{
    let usage = match kind {
        BufferKind::Uniform => wgpu::BufferUsages::UNIFORM | wgpu::BufferUsages::COPY_DST,
        BufferKind::Instance => wgpu::BufferUsages::VERTEX | wgpu::BufferUsages::COPY_DST,
    };
    device.create_buffer(&wgpu::BufferDescriptor {
        label: None,
        size,
        usage,
        mapped_at_creation: false,
    })
}

/// Relies on `wgpu::Queue::write_buffer`: schedules `data` to be
/// written at the start of the buffer.  The write must fit and must be
/// 4-byte aligned, or `wgpu` rejects it.
#[verifier::external_body]
pub fn queue_write_buffer(queue: &wgpu::Queue, buffer: &wgpu::Buffer, data: &Vec<u8>)
    requires
        data@.len() <= buffer_size_s(*buffer),
        data@.len() % 4 == 0,
{
    queue.write_buffer(buffer, 0, data.as_slice());
}

/// Relies on `wgpu::Device::create_bind_group`: bundles one uniform
/// buffer slot and one texture view under the per-object layout.
#[verifier::external_body]
pub fn create_local_bind_group(
    device: &wgpu::Device,
    layout: &wgpu::BindGroupLayout,
    buffer: &wgpu::Buffer,
    texture_view: &wgpu::TextureView,
) -> (g: wgpu::BindGroup) {
    device.create_bind_group(&wgpu::BindGroupDescriptor {
        label: None,
        layout,
        entries: &[
            wgpu::BindGroupEntry { binding: 0, resource: buffer.as_entire_binding() },
            wgpu::BindGroupEntry {
                binding: 1,
                resource: wgpu::BindingResource::TextureView(texture_view),
            },
        ],
    })
}

/// Relies on `wgpu::Device::create_texture`: the returned depth
/// texture has exactly the extent named in the descriptor, which must
/// not be empty.
#[verifier::external_body]
pub fn create_depth_texture_raw(device: &wgpu::Device, width: u32, height: u32) -> (t: wgpu::Texture)
    requires
        width >= 1,
        height >= 1,
    ensures
        texture_size_s(t) == (width as int, height as int),
{
    device.create_texture(&wgpu::TextureDescriptor {
        label: None,
        size: wgpu::Extent3d { width, height, depth_or_array_layers: 1 },
        mip_level_count: 1,
        sample_count: 1,
        dimension: wgpu::TextureDimension::D2,
        format: wgpu::TextureFormat::Depth32Float,
        usage: wgpu::TextureUsages::RENDER_ATTACHMENT | wgpu::TextureUsages::TEXTURE_BINDING,
    })
}

/// Relies on `wgpu::Texture::create_view`: a full view of the texture.
#[verifier::external_body]
pub fn texture_create_view(texture: &wgpu::Texture) -> (v: wgpu::TextureView) {
    texture.create_view(&wgpu::TextureViewDescriptor::default())
}

/// The frame-acquisition failures, as the library tells them apart.
#[derive(Clone, Copy, Debug, PartialEq, Eq, Structural)]
pub enum SurfaceErrorKind {
    /// Acquiring the next frame timed out.
    Timeout,
    /// The surface no longer matches the window; it must be rebuilt.
    Outdated,
    /// The swap chain was lost and must be recreated.
    Lost,
    /// The GPU has no memory left for another frame.
    OutOfMemory,
}

/// Tell a frame-acquisition failure's variants apart, as the
/// library's own kind.
pub fn surface_error_kind(e: &wgpu::SurfaceError) -> (k: SurfaceErrorKind)
    ensures
        k is Timeout <==> e is Timeout,
        k is Outdated <==> e is Outdated,
        k is Lost <==> e is Lost,
        k is OutOfMemory <==> e is OutOfMemory,
{
    match e {
        wgpu::SurfaceError::Timeout => SurfaceErrorKind::Timeout,
        wgpu::SurfaceError::Outdated => SurfaceErrorKind::Outdated,
        wgpu::SurfaceError::Lost => SurfaceErrorKind::Lost,
        wgpu::SurfaceError::OutOfMemory => SurfaceErrorKind::OutOfMemory,
    }
}

} // verus!
