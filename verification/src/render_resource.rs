//! Device resources as the library sees them: handles that the host's device
//! gave out, and the descriptors from which it makes them.
//!
//! A handle stands for one instance on the device. Two handles are the same
//! instance exactly when they are equal.
use vstd::prelude::*;

verus! {

/// A buffer on the device, with its size in bytes.
#[derive(Clone, Copy, Debug, PartialEq, Eq, Structural)]
pub struct Buffer {
    pub id: u64,
    pub size: u64,
}

/// A sampler on the device.
#[derive(Clone, Copy, Debug, PartialEq, Eq, Structural)]
pub struct Sampler {
    pub id: u64,
}

/// A texture on the device.
#[derive(Clone, Copy, Debug, PartialEq, Eq, Structural)]
pub struct Texture {
    pub id: u64,
}

/// A view of a texture.
#[derive(Clone, Copy, Debug, PartialEq, Eq, Structural)]
pub struct TextureView {
    pub id: u64,
}

/// The layout of one bind group of a pipeline.
#[derive(Clone, Copy, Debug, PartialEq, Eq, Structural)]
pub struct BindGroupLayout {
    pub id: u64,
}

/// A compiled compute pipeline.
#[derive(Clone, Copy, Debug, PartialEq, Eq, Structural)]
pub struct ComputePipeline {
    pub id: u64,
}

/// The number under which the pipeline compiler keeps a queued pipeline.
#[derive(Clone, Copy, Debug, PartialEq, Eq, Structural)]
pub struct CachedComputePipelineId {
    pub id: usize,
}

/// The shader program of a pipeline, as the asset store names it.
#[derive(Clone, Copy, Debug, PartialEq, Eq, Structural)]
pub struct ShaderHandle {
    pub id: u64,
}

/// A function of the host that computes a value from the state of the graph
/// at run time; the host keeps such functions and finds one by this number.
#[derive(Clone, Copy, Debug, PartialEq, Eq, Structural)]
pub struct GraphContextFn {
    pub id: usize,
}

/// The buffer may be mapped for reading.
pub const BUFFER_USAGE_MAP_READ: u32 = 1;

/// The buffer may be mapped for writing.
pub const BUFFER_USAGE_MAP_WRITE: u32 = 2;

/// The buffer may be the source of a copy.
pub const BUFFER_USAGE_COPY_SRC: u32 = 4;

/// The buffer may be the destination of a copy.
pub const BUFFER_USAGE_COPY_DST: u32 = 8;

/// The buffer may be bound as an index buffer.
pub const BUFFER_USAGE_INDEX: u32 = 16;

/// The buffer may be bound as a vertex buffer.
pub const BUFFER_USAGE_VERTEX: u32 = 32;

/// The buffer may be bound as a uniform buffer.
pub const BUFFER_USAGE_UNIFORM: u32 = 64;

/// The buffer may be bound as a storage buffer.
pub const BUFFER_USAGE_STORAGE: u32 = 128;

/// The buffer may hold the arguments of an indirect draw or dispatch.
pub const BUFFER_USAGE_INDIRECT: u32 = 256;

/// The buffer may be the destination of a query resolve.
pub const BUFFER_USAGE_QUERY_RESOLVE: u32 = 512;

/// An optional label by its characters.
pub open spec fn label_view(label: Option<String>) -> Option<Seq<char>> {
    match label {
        Some(text) => Some(text@),
        None => None,
    }
}

/// Whether two labels read the same.
pub fn same_label(a: &Option<String>, b: &Option<String>) -> (same: bool)
    ensures
        same == (label_view(*a) == label_view(*b)),
{
    match (a, b) {
        (Some(x), Some(y)) => *x == *y,
        (None, None) => true,
        _ => false,
    }
}

/// A copy of a label.
pub fn clone_label(label: &Option<String>) -> (copy: Option<String>)
    ensures
        copy == *label,
{
    match label {
        Some(text) => Some(text.clone()),
        None => None,
    }
}

/// What the device needs to make a buffer.
#[derive(Debug)]
pub struct BufferDescriptor {
    pub label: Option<String>,
    pub size: u64,
    /// The allowed usages, one bit each.
    pub usage: u32,
    pub mapped_at_creation: bool,
}

/// A [`BufferDescriptor`] by value.
pub struct BufferDescriptorView {
    pub label: Option<Seq<char>>,
    pub size: u64,
    pub usage: u32,
    pub mapped_at_creation: bool,
}

impl View for BufferDescriptor {
    type V = BufferDescriptorView;

    open spec fn view(&self) -> BufferDescriptorView {
        BufferDescriptorView {
            label: label_view(self.label),
            size: self.size,
            usage: self.usage,
            mapped_at_creation: self.mapped_at_creation,
        }
    }
}

impl Clone for BufferDescriptor {
    fn clone(&self) -> (copy: Self)
        ensures
            copy == *self,
    {
        BufferDescriptor {
            label: clone_label(&self.label),
            size: self.size,
            usage: self.usage,
            mapped_at_creation: self.mapped_at_creation,
        }
    }
}

impl BufferDescriptor {
    /// Value equality: every field reads the same.
    pub fn same(&self, other: &Self) -> (same: bool)
        ensures
            same == (self@ == other@),
    {
        same_label(&self.label, &other.label) && self.size == other.size && self.usage
            == other.usage && self.mapped_at_creation == other.mapped_at_creation
    }
}

/// What the device needs to make a sampler. Modes, filters and comparison
/// functions are held by their numbers, the two level-of-detail clamps by the
/// bits of their values.
#[derive(Debug)]
pub struct SamplerDescriptor {
    pub label: Option<String>,
    pub address_mode_u: u32,
    pub address_mode_v: u32,
    pub address_mode_w: u32,
    pub mag_filter: u32,
    pub min_filter: u32,
    pub mipmap_filter: u32,
    pub lod_min_clamp_bits: u32,
    pub lod_max_clamp_bits: u32,
    pub compare: Option<u32>,
    pub anisotropy_clamp: u16,
    pub border_color: Option<u32>,
}

/// A [`SamplerDescriptor`] by value.
pub struct SamplerDescriptorView {
    pub label: Option<Seq<char>>,
    pub address_mode_u: u32,
    pub address_mode_v: u32,
    pub address_mode_w: u32,
    pub mag_filter: u32,
    pub min_filter: u32,
    pub mipmap_filter: u32,
    pub lod_min_clamp_bits: u32,
    pub lod_max_clamp_bits: u32,
    pub compare: Option<u32>,
    pub anisotropy_clamp: u16,
    pub border_color: Option<u32>,
}

impl View for SamplerDescriptor {
    type V = SamplerDescriptorView;

    open spec fn view(&self) -> SamplerDescriptorView {
        SamplerDescriptorView {
            label: label_view(self.label),
            address_mode_u: self.address_mode_u,
            address_mode_v: self.address_mode_v,
            address_mode_w: self.address_mode_w,
            mag_filter: self.mag_filter,
            min_filter: self.min_filter,
            mipmap_filter: self.mipmap_filter,
            lod_min_clamp_bits: self.lod_min_clamp_bits,
            lod_max_clamp_bits: self.lod_max_clamp_bits,
            compare: self.compare,
            anisotropy_clamp: self.anisotropy_clamp,
            border_color: self.border_color,
        }
    }
}

/// Whether two optional numbers are the same.
pub fn same_code(a: Option<u32>, b: Option<u32>) -> (same: bool)
    ensures
        same == (a == b),
{
    match (a, b) {
        (Some(x), Some(y)) => x == y,
        (None, None) => true,
        _ => false,
    }
}

impl Clone for SamplerDescriptor {
    fn clone(&self) -> (copy: Self)
        ensures
            copy == *self,
    {
        SamplerDescriptor {
            label: clone_label(&self.label),
            address_mode_u: self.address_mode_u,
            address_mode_v: self.address_mode_v,
            address_mode_w: self.address_mode_w,
            mag_filter: self.mag_filter,
            min_filter: self.min_filter,
            mipmap_filter: self.mipmap_filter,
            lod_min_clamp_bits: self.lod_min_clamp_bits,
            lod_max_clamp_bits: self.lod_max_clamp_bits,
            compare: self.compare,
            anisotropy_clamp: self.anisotropy_clamp,
            border_color: self.border_color,
        }
    }
}

impl SamplerDescriptor {
    /// Value equality: every field reads the same.
    pub fn same(&self, other: &Self) -> (same: bool)
        ensures
            same == (self@ == other@),
    {
        same_label(&self.label, &other.label) && self.address_mode_u == other.address_mode_u
            && self.address_mode_v == other.address_mode_v && self.address_mode_w
            == other.address_mode_w && self.mag_filter == other.mag_filter && self.min_filter
            == other.min_filter && self.mipmap_filter == other.mipmap_filter
            && self.lod_min_clamp_bits == other.lod_min_clamp_bits && self.lod_max_clamp_bits
            == other.lod_max_clamp_bits && same_code(self.compare, other.compare)
            && self.anisotropy_clamp == other.anisotropy_clamp && same_code(
            self.border_color,
            other.border_color,
        )
    }
}

/// What the device needs to make a texture. Dimension and formats are held by
/// their numbers.
#[derive(Debug)]
pub struct TextureDescriptor {
    pub label: Option<String>,
    pub width: u32,
    pub height: u32,
    pub depth_or_array_layers: u32,
    pub mip_level_count: u32,
    pub sample_count: u32,
    pub dimension: u32,
    pub format: u32,
    /// The allowed usages, one bit each.
    pub usage: u32,
    pub view_formats: Vec<u32>,
}

/// A [`TextureDescriptor`] by value.
pub struct TextureDescriptorView {
    pub label: Option<Seq<char>>,
    pub width: u32,
    pub height: u32,
    pub depth_or_array_layers: u32,
    pub mip_level_count: u32,
    pub sample_count: u32,
    pub dimension: u32,
    pub format: u32,
    pub usage: u32,
    pub view_formats: Seq<u32>,
}

impl View for TextureDescriptor {
    type V = TextureDescriptorView;

    open spec fn view(&self) -> TextureDescriptorView {
        TextureDescriptorView {
            label: label_view(self.label),
            width: self.width,
            height: self.height,
            depth_or_array_layers: self.depth_or_array_layers,
            mip_level_count: self.mip_level_count,
            sample_count: self.sample_count,
            dimension: self.dimension,
            format: self.format,
            usage: self.usage,
            view_formats: self.view_formats@,
        }
    }
}

/// Whether two lists of numbers are the same.
pub fn same_codes(a: &Vec<u32>, b: &Vec<u32>) -> (same: bool)
    ensures
        same == (a@ == b@),
{
    if a.len() != b.len() {
        return false;
    }
    let mut i: usize = 0;
    while i < a.len()
        invariant
            a.len() == b.len(),
            i <= a.len(),
            forall|j: int| 0 <= j < i ==> a@[j] == b@[j],
        decreases a.len() - i,
    {
        if a[i] != b[i] {
            return false;
        }
        i += 1;
    }
    assert(a@ =~= b@);
    true
}

/// A copy of a list of numbers.
pub fn clone_codes(codes: &Vec<u32>) -> (copy: Vec<u32>)
    ensures
        copy@ == codes@,
{
    let mut copy: Vec<u32> = Vec::new();
    let mut i: usize = 0;
    while i < codes.len()
        invariant
            i <= codes.len(),
            copy@ == codes@.take(i as int),
        decreases codes.len() - i,
    {
        copy.push(codes[i]);
        assert(codes@.take(i + 1) =~= codes@.take(i as int).push(codes@[i as int]));
        i += 1;
    }
    assert(codes@.take(i as int) =~= codes@);
    copy
}

impl Clone for TextureDescriptor {
    fn clone(&self) -> (copy: Self)
        ensures
            copy@ == self@,
    {
        TextureDescriptor {
            label: clone_label(&self.label),
            width: self.width,
            height: self.height,
            depth_or_array_layers: self.depth_or_array_layers,
            mip_level_count: self.mip_level_count,
            sample_count: self.sample_count,
            dimension: self.dimension,
            format: self.format,
            usage: self.usage,
            view_formats: clone_codes(&self.view_formats),
        }
    }
}

impl TextureDescriptor {
    /// Value equality: every field reads the same.
    pub fn same(&self, other: &Self) -> (same: bool)
        ensures
            same == (self@ == other@),
    {
        same_label(&self.label, &other.label) && self.width == other.width && self.height
            == other.height && self.depth_or_array_layers == other.depth_or_array_layers
            && self.mip_level_count == other.mip_level_count && self.sample_count
            == other.sample_count && self.dimension == other.dimension && self.format
            == other.format && self.usage == other.usage && same_codes(
            &self.view_formats,
            &other.view_formats,
        )
    }
}

/// What a binding of a bind group refers to.
#[derive(Clone, Copy, Debug, PartialEq, Eq, Structural)]
pub enum BindingResource {
    /// A whole buffer.
    Buffer(Buffer),
    Sampler(Sampler),
    TextureView(TextureView),
}

/// One binding of a bind group.
#[derive(Clone, Copy, Debug, PartialEq, Eq, Structural)]
pub struct BindGroupEntry {
    pub binding: u32,
    pub resource: BindingResource,
}


/// The device as the host offers it: it makes resources from descriptors.
/// Nothing is known here of what it hands back.
pub trait RenderDevice {
    /// A new buffer.
    fn create_buffer(&self, descriptor: &BufferDescriptor) -> Buffer;

    /// A new sampler.
    fn create_sampler(&self, descriptor: &SamplerDescriptor) -> Sampler;

    /// A new texture.
    fn create_texture(&self, descriptor: &TextureDescriptor) -> Texture;

    /// The default view of a texture.
    fn create_texture_view(&self, texture: &Texture) -> TextureView;
}

/// Whether `buffer` is a buffer that the device made from `descriptor`: it is
/// the instance that the device handed back, and has the size that was asked
/// for.
pub open spec fn buffer_made<D: RenderDevice>(
    render_device: &D,
    descriptor: BufferDescriptor,
    buffer: Buffer,
) -> bool {
    &&& buffer.size == descriptor.size
    &&& exists|made: Buffer| #[trigger]
        call_ensures(D::create_buffer, (render_device, &descriptor), made) && made.id
            == buffer.id
}

/// Has the device make a buffer. The device says which instance it is; its
/// size is the size that the descriptor asks for.
pub fn create_buffer<D: RenderDevice>(render_device: &D, descriptor: &BufferDescriptor) -> (buffer:
    Buffer)
    ensures
        buffer_made(render_device, *descriptor, buffer),
{
    let made = render_device.create_buffer(descriptor);
    Buffer { id: made.id, size: descriptor.size }
}


/// A range of push constants and the shader stages that see it, one bit each.
#[derive(Clone, Copy, Debug, PartialEq, Eq, Structural)]
pub struct PushConstantRange {
    pub stages: u32,
    pub start: u32,
    pub end: u32,
}

/// A definition handed to the shader's preprocessor.
#[derive(Debug)]
pub enum ShaderDefVal {
    Bool(String, bool),
    Int(String, i32),
    UInt(String, u32),
}

/// What the pipeline compiler needs to build a compute pipeline.
#[derive(Debug)]
pub struct ComputePipelineDescriptor {
    pub label: Option<String>,
    /// The layouts that the author declared, by bind group index.
    pub layout: Vec<BindGroupLayout>,
    pub push_constant_ranges: Vec<PushConstantRange>,
    pub shader: ShaderHandle,
    pub shader_defs: Vec<ShaderDefVal>,
    pub entry_point: String,
}

/// A compiled pipeline of either kind.
#[derive(Clone, Copy, Debug, PartialEq, Eq, Structural)]
pub enum Pipeline {
    /// A render pipeline, by the number the device gave it.
    RenderPipeline(u64),
    ComputePipeline(ComputePipeline),
}

/// What the compiler says of a queued pipeline.
#[derive(Debug)]
pub enum CachedPipelineState {
    /// Not compiled yet.
    Queued,
    /// Compiled.
    Ready(Pipeline),
    /// Compilation failed; the message says why.
    Failed(String),
}

/// The pipeline compiler as the host offers it. It takes a descriptor and
/// answers at once with the number of the job; the state of a job is asked
/// for without waiting. Nothing is known here of what it hands back.
pub trait PipelineCache {
    /// Queues a compute pipeline for compilation.
    fn queue_compute_pipeline(
        &self,
        descriptor: &ComputePipelineDescriptor,
    ) -> CachedComputePipelineId;

    /// The state of a queued pipeline.
    fn get_compute_pipeline_state(&self, id: CachedComputePipelineId) -> CachedPipelineState;

    /// The layout of bind group `index` as the compiled pipeline has it.
    fn get_bind_group_layout(&self, pipeline: &ComputePipeline, index: u32) -> BindGroupLayout;
}

} // verus!
