//! Typed resource handles: thin, copyable wrappers that pair a backend's
//! opaque resource token with the metadata the device layer needs, plus a
//! phantom element-type tag on buffers that fixes how their bytes are read.

use vstd::prelude::*;
use crate::{BufferInfo, Resources};
use crate::element::Element;
use core::marker::PhantomData;

verus! {

/// An untyped buffer handle: the backend's token plus the buffer's
/// immutable metadata.
#[derive(PartialEq, Debug)]
pub struct RawBuffer<R: Resources> {
    /// The backend's opaque buffer token.
    pub res: R::Buffer,
    /// Usage hint and byte size, fixed at creation.
    pub info: BufferInfo,
}

impl<R: Resources> Clone for RawBuffer<R> {
    fn clone(&self) -> (r: Self)
        ensures
            r == *self,
    {
        RawBuffer { res: self.res, info: self.info }
    }
}

impl<R: Resources> Copy for RawBuffer<R> {

}

impl<R: Resources> RawBuffer<R> {
    /// Wrap a backend token and its metadata into a handle.
    pub fn new(res: R::Buffer, info: BufferInfo) -> (r: RawBuffer<R>)
        ensures
            r.res == res,
            r.info == info,
    {
        RawBuffer { res, info }
    }

    /// The buffer's immutable metadata.
    pub fn get_info(&self) -> (r: BufferInfo)
        ensures
            r == self.info,
    {
        self.info
    }
}

/// A buffer handle tagged with the element type stored in it. The tag takes
/// no space; it only selects the typed operations and the element size.
#[derive(Debug)]
pub struct Buffer<R: Resources, T> {
    /// The untyped handle this one refines.
    pub raw: RawBuffer<R>,
    /// The element-type tag.
    pub phantom_t: PhantomData<T>,
}

impl<R: Resources, T> Clone for Buffer<R, T> {
    fn clone(&self) -> (r: Self)
        ensures
            r == *self,
    {
        Buffer { raw: self.raw, phantom_t: PhantomData }
    }
}

impl<R: Resources, T> Copy for Buffer<R, T> {

}

impl<R: Resources, T> Buffer<R, T> {
    /// Tag an untyped handle with an element type.
    pub fn from_raw(raw: RawBuffer<R>) -> (r: Buffer<R, T>)
        ensures
            r.raw == raw,
    {
        Buffer { raw, phantom_t: PhantomData }
    }

    /// The buffer's immutable metadata.
    pub fn get_info(&self) -> (r: BufferInfo)
        ensures
            r == self.info(),
    {
        self.raw.get_info()
    }

    /// The buffer's immutable metadata.
    pub open spec fn info(&self) -> BufferInfo {
        self.raw.info
    }

    /// The same buffer under another element-type tag.
    pub fn cast<U>(self) -> (r: Buffer<R, U>)
        ensures
            r.raw == self.raw,
    {
        Buffer { raw: self.raw, phantom_t: PhantomData }
    }
}

impl<R: Resources, T: Element> Buffer<R, T> {
    /// How many whole elements of `T` fit in the buffer. Zero-sized element
    /// types divide nothing and have no element count.
    pub open spec fn spec_len(&self) -> nat {
        (self.info().size as nat) / T::spec_size()
    }

    /// Number of elements in the buffer.
    ///
    /// A zero-sized element type admits no element count; such a call is a
    /// client error and is ruled out here.
    pub fn len(&self) -> (r: usize)
        requires
            T::spec_size() > 0,
        ensures
            r == self.spec_len(),
    {
        let size = T::size();
        self.raw.get_info().size / size
    }

    /// Number of elements in the buffer, or `None` exactly when the element
    /// type is zero-sized and an element count would be meaningless.
    pub fn try_len(&self) -> (r: Option<usize>)
        ensures
            match r {
                Some(n) => T::spec_size() > 0 && n == self.spec_len(),
                None => T::spec_size() == 0,
            },
    {
        let size = T::size();
        if size == 0 {
            None
        } else {
            Some(self.raw.get_info().size / size)
        }
    }
}

/// A typed buffer created for `n` elements of `T` reports length `n`; in
/// particular it reports length `0` when `n == 0`.
pub proof fn lemma_typed_buffer_len<R: Resources, T: Element>(buf: Buffer<R, T>, n: nat)
    requires
        T::spec_size() > 0,
        buf.info().size == n * T::spec_size(),
    ensures
        buf.spec_len() == n,
{
    assert((n * T::spec_size()) / T::spec_size() == n) by (nonlinear_arith)
        requires
            T::spec_size() > 0,
    ;
}

/// A handle to an array buffer object.
#[derive(Clone, Copy, PartialEq, Debug)]
pub struct ArrayBuffer<R: Resources> {
    /// The backend's opaque token.
    pub res: R::ArrayBuffer,
}

/// A handle to a compiled shader.
#[derive(Clone, Copy, PartialEq, Debug)]
pub struct Shader<R: Resources> {
    /// The backend's opaque token.
    pub res: R::Shader,
    /// The pipeline stage the shader was compiled for.
    pub stage: crate::shade::Stage,
}

/// A handle to a linked program.
#[derive(Clone, Copy, PartialEq, Debug)]
pub struct Program<R: Resources> {
    /// The backend's opaque token.
    pub res: R::Program,
}

/// A handle to a frame buffer object.
#[derive(Clone, Copy, PartialEq, Debug)]
pub struct FrameBuffer<R: Resources> {
    /// The backend's opaque token.
    pub res: R::FrameBuffer,
}

/// A handle to a render surface.
#[derive(Clone, Copy, PartialEq, Debug)]
pub struct Surface<R: Resources> {
    /// The backend's opaque token.
    pub res: R::Surface,
    /// The surface's immutable description.
    pub info: crate::tex::SurfaceInfo,
}

/// A handle to a texture.
#[derive(Clone, Copy, PartialEq, Debug)]
pub struct Texture<R: Resources> {
    /// The backend's opaque token.
    pub res: R::Texture,
    /// The texture's immutable description.
    pub info: crate::tex::TextureInfo,
}

/// A handle to a sampler.
#[derive(Clone, Copy, PartialEq, Debug)]
pub struct Sampler<R: Resources> {
    /// The backend's opaque token.
    pub res: R::Sampler,
    /// The sampler's immutable description.
    pub info: crate::tex::SamplerInfo,
}

} // verus!
