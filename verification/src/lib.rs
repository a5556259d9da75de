//! Graphics device abstraction: the resource and device contracts a backend
//! must satisfy, typed resource handles, and scoped, bounds-checked buffer
//! mappings with verified safety invariants.
//!
//! Client code is generic over a backend: a backend fixes its opaque resource
//! tokens through [`Resources`] and implements the untyped primitives of
//! [`Device`]; the typed convenience methods, the handle system and the
//! mapping wrappers are provided — and verified — once, on top of those
//! primitives.

use vstd::prelude::*;

pub mod attrib;
pub mod draw;
pub mod element;
pub mod handle;
pub mod mapping;
pub mod mock;
pub mod shade;
pub mod tex;

use crate::element::{
    bytes_of_seq, decode_prefix, lemma_bytes_of_seq_len, lemma_bytes_of_seq_push,
    lemma_decode_of_encode, Element,
};
use crate::mapping::{RawMapping, ReadableMapping, RWMapping, WritableMapping};

verus! {

/// Draw vertex count.
pub type VertexCount = u32;

/// Draw number of instances.
pub type InstanceCount = u32;

/// Index of a uniform block.
pub type UniformBlockIndex = u8;

/// Slot for an attribute.
pub type AttributeSlot = u8;

/// Slot for a uniform buffer object.
pub type UniformBufferSlot = u8;

/// Slot a texture can be bound to.
pub type TextureSlot = u8;

/// A type of each index value in the mesh's index buffer.
pub type IndexType = attrib::IntSize;

/// Specifies the access allowed to a buffer mapping.
#[derive(Clone, Copy, PartialEq, Eq, Debug)]
pub enum MapAccess {
    /// Only allow reads.
    Readable,
    /// Only allow writes.
    Writable,
    /// Allow full access.
    RW,
}

/// Features that the device supports.
#[derive(Clone, Copy, Debug)]
pub struct Capabilities {
    /// The shader model the device implements.
    pub shader_model: shade::ShaderModel,
    /// Largest number of simultaneous draw buffers.
    pub max_draw_buffers: usize,
    /// Largest texture edge in texels.
    pub max_texture_size: usize,
    /// Largest number of vertex attributes.
    pub max_vertex_attributes: usize,
    /// Whether array buffers are available.
    pub array_buffer_supported: bool,
    /// Whether fragment outputs can be bound by name.
    pub fragment_output_supported: bool,
    /// Whether immutable storage is available.
    pub immutable_storage_supported: bool,
    /// Whether instanced draws may start at a base instance.
    pub instance_base_supported: bool,
    /// Whether instanced draw calls are available.
    pub instance_call_supported: bool,
    /// Whether per-instance attribute rates are available.
    pub instance_rate_supported: bool,
    /// Whether off-screen render targets are available.
    pub render_targets_supported: bool,
    /// Whether sampler objects are available.
    pub sampler_objects_supported: bool,
    /// Whether uniform blocks are available.
    pub uniform_block_supported: bool,
    /// Whether draws may start at a base vertex.
    pub vertex_base_supported: bool,
}

/// Describes what geometric primitives are created from vertex data.
#[derive(Clone, Copy, PartialEq, Eq, Debug)]
pub enum PrimitiveType {
    /// Each vertex represents a single point.
    Point,
    /// Each pair of vertices represents a single line segment.
    Line,
    /// Every two consecutive vertices represent a connected line segment.
    LineStrip,
    /// Each triplet of vertices represents a single triangle.
    TriangleList,
    /// Every three consecutive vertices represent a connected triangle.
    TriangleStrip,
    /// The first vertex with each later pair of vertices forms a triangle.
    TriangleFan,
}

/// A hint as to how this buffer will be used.
#[derive(Clone, Copy, PartialEq, Eq, Structural, Debug)]
pub enum BufferUsage {
    /// Once uploaded, this buffer will rarely change, but will be read from
    /// often.
    Static,
    /// This buffer will be updated "frequently", and will be read from
    /// multiple times between updates.
    Dynamic,
    /// This buffer always or almost always will be updated after each read.
    Stream,
}

/// An information block that is immutable and associated with each buffer.
#[derive(Clone, Copy, PartialEq, Eq, Structural, Debug)]
pub struct BufferInfo {
    /// Usage hint.
    pub usage: BufferUsage,
    /// Size in bytes.
    pub size: usize,
}

/// Resources pertaining to a specific API. A backend fixes one concrete,
/// trivially copyable, comparable, thread-shareable token type per resource
/// kind.
pub trait Resources: Sized + Clone + PartialEq + core::fmt::Debug {
    /// Token for a buffer object.
    type Buffer: Copy + Clone + core::fmt::Debug + PartialEq + Send + Sync;
    /// Token for an array buffer object.
    type ArrayBuffer: Copy + Clone + core::fmt::Debug + PartialEq + Send + Sync;
    /// Token for a shader.
    type Shader: Copy + Clone + core::fmt::Debug + PartialEq + Send + Sync;
    /// Token for a program.
    type Program: Copy + Clone + core::fmt::Debug + PartialEq + Send + Sync;
    /// Token for a frame buffer object.
    type FrameBuffer: Copy + Clone + core::fmt::Debug + PartialEq + Send + Sync;
    /// Token for a surface.
    type Surface: Copy + Clone + core::fmt::Debug + PartialEq + Send + Sync;
    /// Token for a texture.
    type Texture: Copy + Clone + core::fmt::Debug + PartialEq + Send + Sync;
    /// Token for a sampler.
    type Sampler: Copy + Clone + core::fmt::Debug + PartialEq + Send + Sync;
}

/// The byte image of a typed slice: every element encoded in order. The
/// result holds exactly `size_of::<T>() * slice.len()` bytes.
pub fn as_byte_slice<T: Element>(slice: &[T]) -> (r: Vec<u8>)
    requires
        slice@.len() * T::spec_size() <= usize::MAX,
    ensures
        r@ == bytes_of_seq::<T>(slice@),
        r@.len() == slice@.len() * T::spec_size(),
{
    let n = slice.len();
    let mut out: Vec<u8> = Vec::new();
    let mut i: usize = 0;
    proof {
        assert(slice@.subrange(0, 0) =~= Seq::<T>::empty());
    }
    while i < n
        invariant
            i <= n,
            n == slice@.len(),
            n * T::spec_size() <= usize::MAX,
            out@ == bytes_of_seq::<T>(slice@.subrange(0, i as int)),
            out@.len() == i * T::spec_size(),
        decreases n - i,
    {
        proof {
            assert((i + 1) * T::spec_size() <= n * T::spec_size()) by (nonlinear_arith)
                requires
                    i < n,
            ;
            assert((i + 1) * T::spec_size() == i * T::spec_size() + T::spec_size())
                by (nonlinear_arith);
            lemma_bytes_of_seq_push::<T>(slice@.subrange(0, i as int), slice@[i as int]);
            slice@[i as int].lemma_bytes_len();
            assert(slice@.subrange(0, i + 1) =~= slice@.subrange(0, i as int).push(
                slice@[i as int],
            ));
        }
        slice[i].append_bytes(&mut out);
        i = i + 1;
    }
    proof {
        assert(slice@.subrange(0, n as int) =~= slice@);
    }
    out
}

/// An interface for performing draw calls using a specific graphics API.
///
/// A backend implements the untyped primitives; the typed methods are
/// default methods built purely on top of them. The spec functions are the
/// backend's abstract state: how many unmap calls it has received, which
/// buffer handles are currently valid, and what bytes a valid buffer holds.
pub trait Device: Sized {
    /// The backend's resource token family.
    type Resources: Resources;

    /// The backend's mapped-memory token.
    type Mapper: RawMapping;

    /// The backend's command-buffer representation.
    type CommandBuffer: draw::CommandBuffer<Resources = Self::Resources>;

    /// Abstract count of unmap calls the backend has received.
    spec fn unmaps(&self) -> nat;

    /// Whether a buffer handle is currently valid for this device: issued by
    /// a creation call and not yet deleted.
    spec fn valid_buffer(&self, buf: handle::RawBuffer<Self::Resources>) -> bool;

    /// The bytes currently stored in a buffer; meaningful only while the
    /// handle is valid.
    spec fn buffer_bytes(&self, buf: handle::RawBuffer<Self::Resources>) -> Seq<u8>;

    /// The identity the backend gave a buffer; mapped-memory tokens carry
    /// the identity of the buffer they were mapped from, which ties an
    /// unmap back to its buffer.
    spec fn buffer_id(&self, buf: handle::RawBuffer<Self::Resources>) -> int;

    /// Record of the texture updates the backend has received: the bytes
    /// handed over and the result returned, in order.
    spec fn texture_updates(&self) -> Seq<(Seq<u8>, Result<(), tex::TextureError>)>;

    /// Returns the capabilities available to the specific API implementation.
    fn get_capabilities<'a>(&'a self) -> &'a Capabilities;

    /// Reset all the states to disabled/default; buffer contents and the
    /// unmap count are untouched.
    fn reset_state(&mut self)
        ensures
            final(self).unmaps() == old(self).unmaps(),
            forall|b: handle::RawBuffer<Self::Resources>|
                final(self).valid_buffer(b) == old(self).valid_buffer(b),
            forall|b: handle::RawBuffer<Self::Resources>|
                old(self).valid_buffer(b) ==> final(self).buffer_bytes(b) == old(
                    self,
                ).buffer_bytes(b),
    ;

    /// Submit a command buffer for execution; buffer handles, their bytes
    /// and the unmap count are untouched at this layer.
    fn submit(&mut self, buffer: (&Self::CommandBuffer, &draw::DataBuffer))
        ensures
            final(self).unmaps() == old(self).unmaps(),
            forall|b: handle::RawBuffer<Self::Resources>|
                final(self).valid_buffer(b) == old(self).valid_buffer(b),
            forall|b: handle::RawBuffer<Self::Resources>|
                old(self).valid_buffer(b) ==> final(self).buffer_bytes(b) == old(
                    self,
                ).buffer_bytes(b),
    ;

    /// Create a buffer of `size` bytes, with undetermined contents.
    fn create_buffer_raw(&mut self, size: usize, usage: BufferUsage) -> (r: handle::Buffer<
        Self::Resources,
        (),
    >)
        ensures
            r.info() == (BufferInfo { usage, size }),
            final(self).valid_buffer(r.raw),
            final(self).buffer_bytes(r.raw).len() == size,
            final(self).unmaps() == old(self).unmaps(),
            forall|b: handle::RawBuffer<Self::Resources>|
                old(self).valid_buffer(b) ==> final(self).valid_buffer(b)
                    && final(self).buffer_bytes(b) == old(self).buffer_bytes(b),
    ;

    /// Create a buffer for `num` elements of `T`, with undetermined
    /// contents.
    fn create_buffer<T: Element>(&mut self, num: usize, usage: BufferUsage) -> (r: handle::Buffer<
        Self::Resources,
        T,
    >)
        requires
            num * T::spec_size() <= usize::MAX,
        ensures
            r.info().usage == usage,
            r.info().size == num * T::spec_size(),
            final(self).valid_buffer(r.raw),
            final(self).unmaps() == old(self).unmaps(),
            forall|b: handle::RawBuffer<Self::Resources>|
                old(self).valid_buffer(b) ==> final(self).valid_buffer(b)
                    && final(self).buffer_bytes(b) == old(self).buffer_bytes(b),
    {
        let k = T::size();
        let raw = self.create_buffer_raw(num * k, usage);
        raw.cast::<T>()
    }

    /// Create a buffer holding exactly the given bytes.
    fn create_buffer_static_raw(&mut self, data: &[u8]) -> (r: handle::Buffer<Self::Resources, ()>)
        ensures
            r.info().usage == BufferUsage::Static,
            r.info().size == data@.len(),
            final(self).valid_buffer(r.raw),
            final(self).buffer_bytes(r.raw) == data@,
            final(self).unmaps() == old(self).unmaps(),
            forall|b: handle::RawBuffer<Self::Resources>|
                old(self).valid_buffer(b) ==> final(self).valid_buffer(b)
                    && final(self).buffer_bytes(b) == old(self).buffer_bytes(b),
    ;

    /// Create a buffer holding exactly the given elements.
    fn create_buffer_static<T: Element>(&mut self, data: &[T]) -> (r: handle::Buffer<
        Self::Resources,
        T,
    >)
        requires
            data@.len() * T::spec_size() <= usize::MAX,
        ensures
            r.info().usage == BufferUsage::Static,
            r.info().size == data@.len() * T::spec_size(),
            final(self).valid_buffer(r.raw),
            final(self).buffer_bytes(r.raw) == bytes_of_seq::<T>(data@),
            final(self).unmaps() == old(self).unmaps(),
            forall|b: handle::RawBuffer<Self::Resources>|
                old(self).valid_buffer(b) ==> final(self).valid_buffer(b)
                    && final(self).buffer_bytes(b) == old(self).buffer_bytes(b),
    {
        let bytes = as_byte_slice::<T>(data);
        let raw = self.create_buffer_static_raw(bytes.as_slice());
        raw.cast::<T>()
    }

    /// Create an array buffer, if the backend supports one.
    fn create_array_buffer(&mut self) -> (r: Result<handle::ArrayBuffer<Self::Resources>, ()>)
        ensures
            final(self).unmaps() == old(self).unmaps(),
            forall|b: handle::RawBuffer<Self::Resources>|
                final(self).valid_buffer(b) == old(self).valid_buffer(b),
            forall|b: handle::RawBuffer<Self::Resources>|
                old(self).valid_buffer(b) ==> final(self).buffer_bytes(b) == old(
                    self,
                ).buffer_bytes(b),
    ;

    /// Compile a shader for the given stage.
    fn create_shader(&mut self, stage: shade::Stage, code: &[u8]) -> (r: Result<
        handle::Shader<Self::Resources>,
        shade::CreateShaderError,
    >)
        ensures
            final(self).unmaps() == old(self).unmaps(),
            forall|b: handle::RawBuffer<Self::Resources>|
                final(self).valid_buffer(b) == old(self).valid_buffer(b),
            forall|b: handle::RawBuffer<Self::Resources>|
                old(self).valid_buffer(b) ==> final(self).buffer_bytes(b) == old(
                    self,
                ).buffer_bytes(b),
    ;

    /// Link a program from compiled shaders.
    fn create_program(&mut self, shaders: &[handle::Shader<Self::Resources>], targets: Option<
        &[&str],
    >) -> (r: Result<handle::Program<Self::Resources>, ()>)
        ensures
            final(self).unmaps() == old(self).unmaps(),
            forall|b: handle::RawBuffer<Self::Resources>|
                final(self).valid_buffer(b) == old(self).valid_buffer(b),
            forall|b: handle::RawBuffer<Self::Resources>|
                old(self).valid_buffer(b) ==> final(self).buffer_bytes(b) == old(
                    self,
                ).buffer_bytes(b),
    ;

    /// Create a frame buffer object.
    fn create_frame_buffer(&mut self) -> (r: handle::FrameBuffer<Self::Resources>)
        ensures
            final(self).unmaps() == old(self).unmaps(),
            forall|b: handle::RawBuffer<Self::Resources>|
                final(self).valid_buffer(b) == old(self).valid_buffer(b),
            forall|b: handle::RawBuffer<Self::Resources>|
                old(self).valid_buffer(b) ==> final(self).buffer_bytes(b) == old(
                    self,
                ).buffer_bytes(b),
    ;

    /// Create a render surface.
    fn create_surface(&mut self, info: tex::SurfaceInfo) -> (r: Result<
        handle::Surface<Self::Resources>,
        tex::SurfaceError,
    >)
        ensures
            final(self).unmaps() == old(self).unmaps(),
            forall|b: handle::RawBuffer<Self::Resources>|
                final(self).valid_buffer(b) == old(self).valid_buffer(b),
            forall|b: handle::RawBuffer<Self::Resources>|
                old(self).valid_buffer(b) ==> final(self).buffer_bytes(b) == old(
                    self,
                ).buffer_bytes(b),
    ;

    /// Create a texture.
    fn create_texture(&mut self, info: tex::TextureInfo) -> (r: Result<
        handle::Texture<Self::Resources>,
        tex::TextureError,
    >)
        ensures
            final(self).unmaps() == old(self).unmaps(),
            forall|b: handle::RawBuffer<Self::Resources>|
                final(self).valid_buffer(b) == old(self).valid_buffer(b),
            forall|b: handle::RawBuffer<Self::Resources>|
                old(self).valid_buffer(b) ==> final(self).buffer_bytes(b) == old(
                    self,
                ).buffer_bytes(b),
    ;

    /// Create a sampler.
    fn create_sampler(&mut self, info: tex::SamplerInfo) -> (r: handle::Sampler<Self::Resources>)
        ensures
            final(self).unmaps() == old(self).unmaps(),
            forall|b: handle::RawBuffer<Self::Resources>|
                final(self).valid_buffer(b) == old(self).valid_buffer(b),
            forall|b: handle::RawBuffer<Self::Resources>|
                old(self).valid_buffer(b) ==> final(self).buffer_bytes(b) == old(
                    self,
                ).buffer_bytes(b),
    ;

    /// Return the framebuffer handle for the screen.
    fn get_main_frame_buffer(&self) -> handle::FrameBuffer<Self::Resources>;

    /// Delete a buffer: the handle is invalid afterwards, and no other
    /// buffer is affected, so one delete per token suffices.
    fn delete_buffer_raw(&mut self, buf: handle::Buffer<Self::Resources, ()>)
        ensures
            !final(self).valid_buffer(buf.raw),
            forall|b: handle::RawBuffer<Self::Resources>|
                b.res != buf.raw.res ==> final(self).valid_buffer(b) == old(self).valid_buffer(b)
                    && (old(self).valid_buffer(b) ==> final(self).buffer_bytes(b) == old(self).buffer_bytes(b)),
            final(self).unmaps() == old(self).unmaps(),
    ;

    /// Delete a typed buffer; the handle is invalid afterwards.
    fn delete_buffer<T>(&mut self, buf: handle::Buffer<Self::Resources, T>)
        ensures
            !final(self).valid_buffer(buf.raw),
            forall|b: handle::RawBuffer<Self::Resources>|
                b.res != buf.raw.res ==> final(self).valid_buffer(b) == old(self).valid_buffer(b)
                    && (old(self).valid_buffer(b) ==> final(self).buffer_bytes(b) == old(self).buffer_bytes(b)),
            final(self).unmaps() == old(self).unmaps(),
    {
        self.delete_buffer_raw(buf.cast::<()>());
    }

    /// Delete a shader; the handle is invalid afterwards, and buffers are
    /// untouched.
    fn delete_shader(&mut self, shader: handle::Shader<Self::Resources>)
        ensures
            final(self).unmaps() == old(self).unmaps(),
            forall|b: handle::RawBuffer<Self::Resources>|
                final(self).valid_buffer(b) == old(self).valid_buffer(b),
            forall|b: handle::RawBuffer<Self::Resources>|
                old(self).valid_buffer(b) ==> final(self).buffer_bytes(b) == old(
                    self,
                ).buffer_bytes(b),
    ;

    /// Delete a program; the handle is invalid afterwards, and buffers are
    /// untouched.
    fn delete_program(&mut self, program: handle::Program<Self::Resources>)
        ensures
            final(self).unmaps() == old(self).unmaps(),
            forall|b: handle::RawBuffer<Self::Resources>|
                final(self).valid_buffer(b) == old(self).valid_buffer(b),
            forall|b: handle::RawBuffer<Self::Resources>|
                old(self).valid_buffer(b) ==> final(self).buffer_bytes(b) == old(
                    self,
                ).buffer_bytes(b),
    ;

    /// Delete a surface; the handle is invalid afterwards, and buffers are
    /// untouched.
    fn delete_surface(&mut self, surface: handle::Surface<Self::Resources>)
        ensures
            final(self).unmaps() == old(self).unmaps(),
            forall|b: handle::RawBuffer<Self::Resources>|
                final(self).valid_buffer(b) == old(self).valid_buffer(b),
            forall|b: handle::RawBuffer<Self::Resources>|
                old(self).valid_buffer(b) ==> final(self).buffer_bytes(b) == old(
                    self,
                ).buffer_bytes(b),
    ;

    /// Delete a texture; the handle is invalid afterwards, and buffers are
    /// untouched.
    fn delete_texture(&mut self, texture: handle::Texture<Self::Resources>)
        ensures
            final(self).unmaps() == old(self).unmaps(),
            forall|b: handle::RawBuffer<Self::Resources>|
                final(self).valid_buffer(b) == old(self).valid_buffer(b),
            forall|b: handle::RawBuffer<Self::Resources>|
                old(self).valid_buffer(b) ==> final(self).buffer_bytes(b) == old(
                    self,
                ).buffer_bytes(b),
    ;

    /// Delete a sampler; the handle is invalid afterwards, and buffers are
    /// untouched.
    fn delete_sampler(&mut self, sampler: handle::Sampler<Self::Resources>)
        ensures
            final(self).unmaps() == old(self).unmaps(),
            forall|b: handle::RawBuffer<Self::Resources>|
                final(self).valid_buffer(b) == old(self).valid_buffer(b),
            forall|b: handle::RawBuffer<Self::Resources>|
                old(self).valid_buffer(b) ==> final(self).buffer_bytes(b) == old(
                    self,
                ).buffer_bytes(b),
    ;

    /// Update the information stored in a specific buffer: if the handle is
    /// valid and the data fits, the given bytes replace the buffer's bytes
    /// starting at `offset_bytes`; an update that does not fit is refused
    /// and leaves every buffer as it was.
    fn update_buffer_raw(&mut self, buf: handle::Buffer<Self::Resources, ()>, data: &[u8],
        offset_bytes: usize)
        ensures
            old(self).valid_buffer(buf.raw) && offset_bytes + data@.len() <= buf.info().size
                ==> final(self).buffer_bytes(buf.raw) == element::replace_range(
                old(self).buffer_bytes(buf.raw),
                offset_bytes as int,
                data@,
            ),
            forall|b: handle::RawBuffer<Self::Resources>|
                final(self).valid_buffer(b) == old(self).valid_buffer(b),
            old(self).valid_buffer(buf.raw) && !(offset_bytes + data@.len() <= buf.info().size)
                ==> final(self).buffer_bytes(buf.raw) == old(self).buffer_bytes(buf.raw),
            forall|b: handle::RawBuffer<Self::Resources>|
                old(self).valid_buffer(b) && b.res != buf.raw.res ==> final(self).buffer_bytes(b)
                    == old(self).buffer_bytes(b),
            final(self).unmaps() == old(self).unmaps(),
    ;

    /// Update a typed buffer: the elements are encoded as bytes, and the
    /// element offset becomes a byte offset.
    fn update_buffer<T: Element>(&mut self, buf: handle::Buffer<Self::Resources, T>, data: &[T],
        offset_elements: usize)
        requires
            data@.len() * T::spec_size() <= usize::MAX,
            offset_elements * T::spec_size() <= usize::MAX,
        ensures
            old(self).valid_buffer(buf.raw) && (offset_elements + data@.len()) * T::spec_size()
                <= buf.info().size ==> final(self).buffer_bytes(buf.raw)
                == element::replace_range(
                old(self).buffer_bytes(buf.raw),
                offset_elements * T::spec_size(),
                bytes_of_seq::<T>(data@),
            ),
            forall|b: handle::RawBuffer<Self::Resources>|
                final(self).valid_buffer(b) == old(self).valid_buffer(b),
            old(self).valid_buffer(buf.raw) && !((offset_elements + data@.len()) * T::spec_size()
                <= buf.info().size) ==> final(self).buffer_bytes(buf.raw) == old(
                self,
            ).buffer_bytes(buf.raw),
            forall|b: handle::RawBuffer<Self::Resources>|
                old(self).valid_buffer(b) && b.res != buf.raw.res ==> final(self).buffer_bytes(b)
                    == old(self).buffer_bytes(b),
            final(self).unmaps() == old(self).unmaps(),
    {
        let bytes = as_byte_slice::<T>(data);
        let k = T::size();
        proof {
            assert((offset_elements + data@.len()) * T::spec_size() == offset_elements
                * T::spec_size() + data@.len() * T::spec_size()) by (nonlinear_arith);
        }
        self.update_buffer_raw(buf.cast::<()>(), bytes.as_slice(), offset_elements * k);
    }

    /// Map a valid buffer and return the backend's mapped-memory token; the
    /// token sees exactly the buffer's current bytes.
    fn map_buffer_raw(&mut self, buf: handle::Buffer<Self::Resources, ()>, access: MapAccess) -> (m:
        Self::Mapper)
        requires
            old(self).valid_buffer(buf.raw),
        ensures
            m.contents() == old(self).buffer_bytes(buf.raw),
            m.contents().len() == buf.info().size,
            m.target_id() == final(self).buffer_id(buf.raw),
            final(self).unmaps() == old(self).unmaps(),
            forall|b: handle::RawBuffer<Self::Resources>|
                final(self).valid_buffer(b) == old(self).valid_buffer(b),
    ;

    /// Release a mapped-memory token: it counts as exactly one unmap, and
    /// the token's bytes are written back to the buffer it was mapped from,
    /// so a write made through a mapping is visible after re-mapping.
    fn unmap_buffer_raw(&mut self, token: Self::Mapper)
        ensures
            final(self).unmaps() == old(self).unmaps() + 1,
            forall|b: handle::RawBuffer<Self::Resources>|
                final(self).valid_buffer(b) == old(self).valid_buffer(b),
            forall|b: handle::RawBuffer<Self::Resources>|
                old(self).valid_buffer(b) && old(self).buffer_id(b) == token.target_id()
                    && token.contents().len() == b.info.size ==> final(self).buffer_bytes(b)
                    == token.contents(),
            forall|b: handle::RawBuffer<Self::Resources>|
                old(self).valid_buffer(b) && old(self).buffer_id(b) != token.target_id()
                    ==> final(self).buffer_bytes(b) == old(self).buffer_bytes(b),
    ;

    /// Open a readable mapping session over a valid typed buffer.
    fn map_buffer_readable<'a, T: Element>(&'a mut self, buf: handle::Buffer<Self::Resources, T>)
        -> (m: ReadableMapping<'a, T, Self>)
        requires
            old(self).valid_buffer(buf.raw),
            T::spec_size() > 0,
        ensures
            m.len == buf.spec_len(),
            m.len * T::spec_size() <= m.raw.contents().len(),
            m.raw.contents() == old(self).buffer_bytes(buf.raw),
            m.raw.contents().len() == buf.info().size,
            m.raw.target_id() == (*m.device).buffer_id(buf.raw),
            decode_prefix::<T>(m.raw.contents(), m.len as nat) == decode_prefix::<T>(
                old(self).buffer_bytes(buf.raw),
                buf.spec_len(),
            ),
            (*m.device).unmaps() == old(self).unmaps(),
            forall|b: handle::RawBuffer<Self::Resources>|
                (*m.device).valid_buffer(b) == old(self).valid_buffer(b),
            *final(self) == *final(m.device),
    {
        let length = buf.len();
        let token = self.map_buffer_raw(buf.cast::<()>(), MapAccess::Readable);
        proof {
            lemma_map_len_fits::<T>(buf.info().size as nat);
        }
        ReadableMapping { raw: token, len: length, device: self, phantom_t: core::marker::PhantomData }
    }

    /// Open a writable mapping session over a valid typed buffer.
    fn map_buffer_writable<'a, T: Element>(&'a mut self, buf: handle::Buffer<Self::Resources, T>)
        -> (m: WritableMapping<'a, T, Self>)
        requires
            old(self).valid_buffer(buf.raw),
            T::spec_size() > 0,
        ensures
            m.len == buf.spec_len(),
            m.len * T::spec_size() <= m.raw.contents().len(),
            m.raw.contents() == old(self).buffer_bytes(buf.raw),
            m.raw.contents().len() == buf.info().size,
            m.raw.target_id() == (*m.device).buffer_id(buf.raw),
            decode_prefix::<T>(m.raw.contents(), m.len as nat) == decode_prefix::<T>(
                old(self).buffer_bytes(buf.raw),
                buf.spec_len(),
            ),
            (*m.device).unmaps() == old(self).unmaps(),
            forall|b: handle::RawBuffer<Self::Resources>|
                (*m.device).valid_buffer(b) == old(self).valid_buffer(b),
            *final(self) == *final(m.device),
    {
        let length = buf.len();
        let token = self.map_buffer_raw(buf.cast::<()>(), MapAccess::Writable);
        proof {
            lemma_map_len_fits::<T>(buf.info().size as nat);
        }
        WritableMapping { raw: token, len: length, device: self, phantom_t: core::marker::PhantomData }
    }

    /// Open a read-write mapping session over a valid typed buffer.
    fn map_buffer_rw<'a, T: Element>(&'a mut self, buf: handle::Buffer<Self::Resources, T>) -> (m:
        RWMapping<'a, T, Self>)
        requires
            old(self).valid_buffer(buf.raw),
            T::spec_size() > 0,
        ensures
            m.len == buf.spec_len(),
            m.len * T::spec_size() <= m.raw.contents().len(),
            m.raw.contents() == old(self).buffer_bytes(buf.raw),
            m.raw.contents().len() == buf.info().size,
            m.raw.target_id() == (*m.device).buffer_id(buf.raw),
            decode_prefix::<T>(m.raw.contents(), m.len as nat) == decode_prefix::<T>(
                old(self).buffer_bytes(buf.raw),
                buf.spec_len(),
            ),
            (*m.device).unmaps() == old(self).unmaps(),
            forall|b: handle::RawBuffer<Self::Resources>|
                (*m.device).valid_buffer(b) == old(self).valid_buffer(b),
            *final(self) == *final(m.device),
    {
        let length = buf.len();
        let token = self.map_buffer_raw(buf.cast::<()>(), MapAccess::RW);
        proof {
            lemma_map_len_fits::<T>(buf.info().size as nat);
        }
        RWMapping { raw: token, len: length, device: self, phantom_t: core::marker::PhantomData }
    }

    /// Update the information stored in a texture: the update is recorded —
    /// the bytes handed over and the backend's verdict — and buffers are
    /// untouched.
    fn update_texture_raw(&mut self, texture: &handle::Texture<Self::Resources>,
        img: &tex::ImageInfo, data: &[u8]) -> (r: Result<(), tex::TextureError>)
        ensures
            final(self).texture_updates() == old(self).texture_updates().push((data@, r)),
            final(self).unmaps() == old(self).unmaps(),
            forall|b: handle::RawBuffer<Self::Resources>|
                final(self).valid_buffer(b) == old(self).valid_buffer(b),
            forall|b: handle::RawBuffer<Self::Resources>|
                old(self).valid_buffer(b) ==> final(self).buffer_bytes(b) == old(
                    self,
                ).buffer_bytes(b),
    ;

    /// Update a texture from typed data: the elements are encoded as bytes,
    /// the raw update runs exactly once on them, and its result is returned
    /// verbatim.
    fn update_texture<T: Element>(&mut self, texture: &handle::Texture<Self::Resources>,
        img: &tex::ImageInfo, data: &[T]) -> (r: Result<(), tex::TextureError>)
        requires
            data@.len() * T::spec_size() <= usize::MAX,
        ensures
            final(self).texture_updates() == old(self).texture_updates().push(
                (bytes_of_seq::<T>(data@), r),
            ),
            final(self).unmaps() == old(self).unmaps(),
            forall|b: handle::RawBuffer<Self::Resources>|
                final(self).valid_buffer(b) == old(self).valid_buffer(b),
            forall|b: handle::RawBuffer<Self::Resources>|
                old(self).valid_buffer(b) ==> final(self).buffer_bytes(b) == old(
                    self,
                ).buffer_bytes(b),
    {
        let bytes = as_byte_slice::<T>(data);
        self.update_texture_raw(texture, img, bytes.as_slice())
    }

    /// Generate the mipmap chain of a texture; buffers are untouched.
    fn generate_mipmap(&mut self, texture: &handle::Texture<Self::Resources>)
        ensures
            final(self).unmaps() == old(self).unmaps(),
            forall|b: handle::RawBuffer<Self::Resources>|
                final(self).valid_buffer(b) == old(self).valid_buffer(b),
            forall|b: handle::RawBuffer<Self::Resources>|
                old(self).valid_buffer(b) ==> final(self).buffer_bytes(b) == old(
                    self,
                ).buffer_bytes(b),
    ;
}

/// The whole elements of a buffer of `size` bytes fit in the buffer:
/// `(size / k) * k <= size`.
proof fn lemma_map_len_fits<T: Element>(size: nat)
    ensures
        (size / T::spec_size()) * T::spec_size() <= size,
{
    if T::spec_size() > 0 {
        assert((size / T::spec_size()) * T::spec_size() <= size) by (nonlinear_arith)
            requires
                T::spec_size() > 0,
        ;
    }
}

/// A buffer created from a typed slice and mapped readable yields exactly
/// the elements it was created from; and the mapping session, opened and
/// then closed, issues exactly one unmap call to the backend.
pub fn static_buffer_round_trip<T: Element, D: Device>(device: &mut D, data: &[T]) -> (r: Vec<T>)
    requires
        T::spec_size() > 0,
        data@.len() * T::spec_size() <= usize::MAX,
    ensures
        r@ == data@,
        final(device).unmaps() == old(device).unmaps() + 1,
{
    let buf = device.create_buffer_static::<T>(data);
    proof {
        handle::lemma_typed_buffer_len::<D::Resources, T>(buf, data@.len());
        lemma_bytes_of_seq_len::<T>(data@);
        lemma_decode_of_encode::<T>(data@);
    }
    let m = device.map_buffer_readable::<T>(buf);
    let out = m.to_vec();
    m.unmap();
    out
}

/// Two mapping sessions on the same valid buffer, each opened and then
/// closed, issue exactly two unmap calls to the backend: one per session,
/// never zero and never more.
pub fn two_sessions_unmap_twice<T: Element, D: Device>(
    device: &mut D,
    buf: handle::Buffer<D::Resources, T>,
)
    requires
        T::spec_size() > 0,
        old(device).valid_buffer(buf.raw),
    ensures
        final(device).unmaps() == old(device).unmaps() + 2,
{
    let m1 = device.map_buffer_readable::<T>(buf);
    m1.unmap();
    let m2 = device.map_buffer_readable::<T>(buf);
    m2.unmap();
}

/// A value written through a writable mapping session is visible through a
/// readable mapping session opened on the same buffer afterwards: the write
/// survives the unmap and the re-map.
pub fn write_then_read_back<T: Element, D: Device>(
    device: &mut D,
    buf: handle::Buffer<D::Resources, T>,
    idx: usize,
    val: T,
) -> (r: T)
    requires
        T::spec_size() > 0,
        old(device).valid_buffer(buf.raw),
        idx < buf.spec_len(),
    ensures
        r == val,
        final(device).unmaps() == old(device).unmaps() + 2,
{
    let mut w = device.map_buffer_writable::<T>(buf);
    w.set(idx, val);
    w.unmap();
    let m = device.map_buffer_readable::<T>(buf);
    let r = m.get(idx);
    m.unmap();
    r
}

} // verus!
