//! Scoped, typed views onto mapped buffer memory.
//!
//! A backend exposes mapped memory through its [`RawMapping`] token, a flat
//! byte region with no typing and no bounds discipline of its own. The three
//! wrapper types here are the safe entry points: each holds the raw token, a
//! fixed element count, and an exclusive borrow of the owning device, so that
//! no other device operation — including opening a second mapping — can be
//! interleaved while the view is alive. Closing the view with `unmap` hands
//! the token back to the backend exactly once and ends the borrow.

use vstd::prelude::*;
use core::marker::PhantomData;
use crate::Device;
use crate::element::{decode_prefix, replace_range, lemma_decode_prefix_replace, Element};

verus! {

/// Operations a backend's mapped-memory token must support. The region is a
/// flat sequence of bytes; all element typing and bounds checking is done by
/// the wrappers above this trait.
pub trait RawMapping: Sized {
    /// The bytes of the mapped region.
    spec fn contents(&self) -> Seq<u8>;

    /// The backend's identity for the buffer this token was mapped from;
    /// writes through the token never change it.
    spec fn target_id(&self) -> int;

    /// Length of the mapped region in bytes.
    fn byte_len(&self) -> (r: usize)
        ensures
            r == self.contents().len(),
    ;

    /// Read the byte at `i`.
    fn read_byte(&self, i: usize) -> (r: u8)
        requires
            i < self.contents().len(),
        ensures
            r == self.contents()[i as int],
    ;

    /// Overwrite the byte at `i`.
    fn write_byte(&mut self, i: usize, v: u8)
        requires
            i < old(self).contents().len(),
        ensures
            final(self).contents() == old(self).contents().update(i as int, v),
            final(self).target_id() == old(self).target_id(),
    ;
}

/// Copy `count` bytes starting at `base` out of a mapped region.
fn read_region<M: RawMapping>(raw: &M, base: usize, count: usize) -> (r: Vec<u8>)
    requires
        base + count <= raw.contents().len(),
    ensures
        r@ == raw.contents().subrange(base as int, base + count),
{
    let total = raw.byte_len();
    let mut out: Vec<u8> = Vec::new();
    let mut j: usize = 0;
    while j < count
        invariant
            j <= count,
            base + count <= total,
            total == raw.contents().len(),
            out@.len() == j,
            forall|t: int| 0 <= t < j ==> out@[t] == raw.contents()[base + t],
        decreases count - j,
    {
        let b = raw.read_byte(base + j);
        out.push(b);
        j = j + 1;
    }
    proof {
        assert(out@ =~= raw.contents().subrange(base as int, base + count));
    }
    out
}

/// Overwrite the bytes starting at `base` in a mapped region.
fn write_region<M: RawMapping>(raw: &mut M, base: usize, bytes: &Vec<u8>)
    requires
        base + bytes@.len() <= old(raw).contents().len(),
    ensures
        final(raw).contents() == replace_range(old(raw).contents(), base as int, bytes@),
        final(raw).target_id() == old(raw).target_id(),
{
    let total = raw.byte_len();
    let count = bytes.len();
    let mut j: usize = 0;
    while j < count
        invariant
            j <= count,
            count == bytes@.len(),
            base + count <= total,
            total == old(raw).contents().len(),
            raw.contents().len() == old(raw).contents().len(),
            raw.target_id() == old(raw).target_id(),
            forall|p: int|
                0 <= p < raw.contents().len() && !(base <= p < base + j) ==> raw.contents()[p]
                    == old(raw).contents()[p],
            forall|t: int| 0 <= t < j ==> raw.contents()[base + t] == bytes@[t],
        decreases count - j,
    {
        raw.write_byte(base + j, bytes[j]);
        j = j + 1;
    }
    proof {
        assert(raw.contents() =~= replace_range(old(raw).contents(), base as int, bytes@));
    }
}

/// Read element `idx` of a region holding `length` elements of `T`.
fn read_element<M: RawMapping, T: Element>(raw: &M, idx: usize, length: usize) -> (r: T)
    requires
        idx < length,
        length * T::spec_size() <= raw.contents().len(),
    ensures
        r == decode_prefix::<T>(raw.contents(), length as nat)[idx as int],
{
    let k = T::size();
    let total = raw.byte_len();
    proof {
        assert(idx * T::spec_size() + T::spec_size() <= length * T::spec_size())
            by (nonlinear_arith)
            requires
                idx < length,
        ;
    }
    let base = idx * k;
    let bytes = read_region(raw, base, k);
    let r = T::decode(bytes.as_slice(), 0);
    proof {
        assert(bytes@.subrange(0, T::spec_size() as int) =~= raw.contents().subrange(
            idx * T::spec_size(),
            idx * T::spec_size() + T::spec_size(),
        ));
    }
    r
}

/// A handle to a readable map, whose elements can be read one at a time or
/// copied out wholesale.
pub struct ReadableMapping<'a, T: Element, D: 'a + Device> {
    /// The backend's mapped-memory token.
    pub raw: D::Mapper,
    /// Number of elements visible through this view.
    pub len: usize,
    /// Exclusive borrow of the owning device for the session's lifetime.
    pub device: &'a mut D,
    /// The element-type tag.
    pub phantom_t: PhantomData<T>,
}

impl<'a, T: Element, D: Device> ReadableMapping<'a, T, D> {
    /// The view is well-formed: the element type has a size and all `len`
    /// elements lie inside the mapped region.
    pub open spec fn wf(&self) -> bool {
        T::spec_size() > 0 && self.len * T::spec_size() <= self.raw.contents().len()
    }

    /// The elements visible through this view.
    pub open spec fn elements(&self) -> Seq<T> {
        decode_prefix::<T>(self.raw.contents(), self.len as nat)
    }

    /// Number of elements visible through this view.
    pub fn len(&self) -> (r: usize)
        ensures
            r == self.len,
    {
        self.len
    }

    /// Read the element at `idx`.
    pub fn get(&self, idx: usize) -> (r: T)
        requires
            self.wf(),
            idx < self.len,
        ensures
            r == self.elements()[idx as int],
    {
        read_element::<D::Mapper, T>(&self.raw, idx, self.len)
    }

    /// Copy all elements out of the view.
    pub fn to_vec(&self) -> (r: Vec<T>)
        requires
            self.wf(),
        ensures
            r@ == self.elements(),
    {
        copy_out::<D::Mapper, T>(&self.raw, self.len)
    }

    /// End the mapping session: hand the token back to the backend — exactly
    /// one unmap per session — and release the device.
    pub fn unmap(self)
        ensures
            (*final(self.device)).unmaps() == (*old(self.device)).unmaps() + 1,
            forall|b: crate::handle::RawBuffer<D::Resources>|
                (*final(self.device)).valid_buffer(b) == (*old(self.device)).valid_buffer(b),
            forall|b: crate::handle::RawBuffer<D::Resources>|
                (*old(self.device)).valid_buffer(b) && (*old(self.device)).buffer_id(b)
                    == self.raw.target_id() && self.raw.contents().len() == b.info.size ==> (
                *final(self.device)).buffer_bytes(b) == self.raw.contents(),
            forall|b: crate::handle::RawBuffer<D::Resources>|
                (*old(self.device)).valid_buffer(b) && (*old(self.device)).buffer_id(b)
                    != self.raw.target_id() ==> (*final(self.device)).buffer_bytes(b) == (
                *old(self.device)).buffer_bytes(b),
    {
        let ReadableMapping { raw, len: _, device, phantom_t: _ } = self;
        device.unmap_buffer_raw(raw);
    }
}

/// Copy all `length` elements out of a mapped region.
fn copy_out<M: RawMapping, T: Element>(raw: &M, length: usize) -> (r: Vec<T>)
    requires
        length * T::spec_size() <= raw.contents().len(),
    ensures
        r@ == decode_prefix::<T>(raw.contents(), length as nat),
{
    let mut out: Vec<T> = Vec::new();
    let mut i: usize = 0;
    while i < length
        invariant
            i <= length,
            length * T::spec_size() <= raw.contents().len(),
            out@.len() == i,
            forall|t: int| 0 <= t < i ==> out@[t] == decode_prefix::<T>(
                raw.contents(),
                length as nat,
            )[t],
        decreases length - i,
    {
        let x = read_element::<M, T>(raw, i, length);
        out.push(x);
        i = i + 1;
    }
    proof {
        assert(out@ =~= decode_prefix::<T>(raw.contents(), length as nat));
    }
    out
}

/// A handle to a writable map, which only allows setting elements.
pub struct WritableMapping<'a, T: Element, D: 'a + Device> {
    /// The backend's mapped-memory token.
    pub raw: D::Mapper,
    /// Number of elements visible through this view.
    pub len: usize,
    /// Exclusive borrow of the owning device for the session's lifetime.
    pub device: &'a mut D,
    /// The element-type tag.
    pub phantom_t: PhantomData<T>,
}

impl<'a, T: Element, D: Device> WritableMapping<'a, T, D> {
    /// The view is well-formed: the element type has a size and all `len`
    /// elements lie inside the mapped region.
    pub open spec fn wf(&self) -> bool {
        T::spec_size() > 0 && self.len * T::spec_size() <= self.raw.contents().len()
    }

    /// The elements visible through this view.
    pub open spec fn elements(&self) -> Seq<T> {
        decode_prefix::<T>(self.raw.contents(), self.len as nat)
    }

    /// Number of elements visible through this view.
    pub fn len(&self) -> (r: usize)
        ensures
            r == self.len,
    {
        self.len
    }

    /// Set the element at `idx` to `val`. An out-of-range index is a
    /// programming error, not an environmental condition, and is ruled out
    /// here; the write touches exactly the bytes of element `idx`.
    pub fn set(&mut self, idx: usize, val: T)
        requires
            old(self).wf(),
            idx < old(self).len,
        ensures
            final(self).wf(),
            final(self).len == old(self).len,
            final(self).device == old(self).device,
            final(self).raw.contents().len() == old(self).raw.contents().len(),
            final(self).raw.target_id() == old(self).raw.target_id(),
            final(self).elements() == old(self).elements().update(idx as int, val),
    {
        write_element::<D::Mapper, T>(&mut self.raw, idx, self.len, val);
    }

    /// End the mapping session: hand the token back to the backend — exactly
    /// one unmap per session — and release the device.
    pub fn unmap(self)
        ensures
            (*final(self.device)).unmaps() == (*old(self.device)).unmaps() + 1,
            forall|b: crate::handle::RawBuffer<D::Resources>|
                (*final(self.device)).valid_buffer(b) == (*old(self.device)).valid_buffer(b),
            forall|b: crate::handle::RawBuffer<D::Resources>|
                (*old(self.device)).valid_buffer(b) && (*old(self.device)).buffer_id(b)
                    == self.raw.target_id() && self.raw.contents().len() == b.info.size ==> (
                *final(self.device)).buffer_bytes(b) == self.raw.contents(),
            forall|b: crate::handle::RawBuffer<D::Resources>|
                (*old(self.device)).valid_buffer(b) && (*old(self.device)).buffer_id(b)
                    != self.raw.target_id() ==> (*final(self.device)).buffer_bytes(b) == (
                *old(self.device)).buffer_bytes(b),
    {
        let WritableMapping { raw, len: _, device, phantom_t: _ } = self;
        device.unmap_buffer_raw(raw);
    }
}

/// Overwrite element `idx` of a region holding `length` elements of `T`.
fn write_element<M: RawMapping, T: Element>(raw: &mut M, idx: usize, length: usize, val: T)
    requires
        idx < length,
        length * T::spec_size() <= old(raw).contents().len(),
    ensures
        final(raw).contents().len() == old(raw).contents().len(),
        final(raw).target_id() == old(raw).target_id(),
        decode_prefix::<T>(final(raw).contents(), length as nat) == decode_prefix::<T>(
            old(raw).contents(),
            length as nat,
        ).update(idx as int, val),
{
    let k = T::size();
    let total = raw.byte_len();
    proof {
        assert(idx * T::spec_size() + T::spec_size() <= length * T::spec_size())
            by (nonlinear_arith)
            requires
                idx < length,
        ;
        val.lemma_bytes_len();
    }
    let mut bytes: Vec<u8> = Vec::new();
    val.append_bytes(&mut bytes);
    let base = idx * k;
    write_region(raw, base, &bytes);
    proof {
        lemma_decode_prefix_replace::<T>(old(raw).contents(), length as nat, idx as nat, val);
    }
}

/// A handle to a complete readable and writable map.
pub struct RWMapping<'a, T: Element, D: 'a + Device> {
    /// The backend's mapped-memory token.
    pub raw: D::Mapper,
    /// Number of elements visible through this view.
    pub len: usize,
    /// Exclusive borrow of the owning device for the session's lifetime.
    pub device: &'a mut D,
    /// The element-type tag.
    pub phantom_t: PhantomData<T>,
}

impl<'a, T: Element, D: Device> RWMapping<'a, T, D> {
    /// The view is well-formed: the element type has a size and all `len`
    /// elements lie inside the mapped region.
    pub open spec fn wf(&self) -> bool {
        T::spec_size() > 0 && self.len * T::spec_size() <= self.raw.contents().len()
    }

    /// The elements visible through this view.
    pub open spec fn elements(&self) -> Seq<T> {
        decode_prefix::<T>(self.raw.contents(), self.len as nat)
    }

    /// Number of elements visible through this view.
    pub fn len(&self) -> (r: usize)
        ensures
            r == self.len,
    {
        self.len
    }

    /// Read the element at `idx`.
    pub fn get(&self, idx: usize) -> (r: T)
        requires
            self.wf(),
            idx < self.len,
        ensures
            r == self.elements()[idx as int],
    {
        read_element::<D::Mapper, T>(&self.raw, idx, self.len)
    }

    /// Copy all elements out of the view.
    pub fn to_vec(&self) -> (r: Vec<T>)
        requires
            self.wf(),
        ensures
            r@ == self.elements(),
    {
        copy_out::<D::Mapper, T>(&self.raw, self.len)
    }

    /// Set the element at `idx` to `val`; the write touches exactly the
    /// bytes of element `idx`.
    pub fn set(&mut self, idx: usize, val: T)
        requires
            old(self).wf(),
            idx < old(self).len,
        ensures
            final(self).wf(),
            final(self).len == old(self).len,
            final(self).device == old(self).device,
            final(self).raw.contents().len() == old(self).raw.contents().len(),
            final(self).raw.target_id() == old(self).raw.target_id(),
            final(self).elements() == old(self).elements().update(idx as int, val),
    {
        write_element::<D::Mapper, T>(&mut self.raw, idx, self.len, val);
    }

    /// End the mapping session: hand the token back to the backend — exactly
    /// one unmap per session — and release the device.
    pub fn unmap(self)
        ensures
            (*final(self.device)).unmaps() == (*old(self.device)).unmaps() + 1,
            forall|b: crate::handle::RawBuffer<D::Resources>|
                (*final(self.device)).valid_buffer(b) == (*old(self.device)).valid_buffer(b),
            forall|b: crate::handle::RawBuffer<D::Resources>|
                (*old(self.device)).valid_buffer(b) && (*old(self.device)).buffer_id(b)
                    == self.raw.target_id() && self.raw.contents().len() == b.info.size ==> (
                *final(self.device)).buffer_bytes(b) == self.raw.contents(),
            forall|b: crate::handle::RawBuffer<D::Resources>|
                (*old(self.device)).valid_buffer(b) && (*old(self.device)).buffer_id(b)
                    != self.raw.target_id() ==> (*final(self.device)).buffer_bytes(b) == (
                *old(self.device)).buffer_bytes(b),
    {
        let RWMapping { raw, len: _, device, phantom_t: _ } = self;
        device.unmap_buffer_raw(raw);
    }
}

/// A service trait with the mapping-wrapper constructors already
/// implemented, so device back ends do not re-implement wrapper
/// construction.
pub trait MapFactory: Device {
    /// Wrap a raw token and element count into a readable view.
    fn map_readable<'a, T: Element>(&'a mut self, token: Self::Mapper, length: usize) -> (m:
        ReadableMapping<'a, T, Self>)
        requires
            T::spec_size() > 0,
            length * T::spec_size() <= token.contents().len(),
        ensures
            m.raw == token,
            m.len == length,
            *m.device == *old(self),
            *final(self) == *final(m.device),
    ;

    /// Wrap a raw token and element count into a writable view.
    fn map_writable<'a, T: Element>(&'a mut self, token: Self::Mapper, length: usize) -> (m:
        WritableMapping<'a, T, Self>)
        requires
            T::spec_size() > 0,
            length * T::spec_size() <= token.contents().len(),
        ensures
            m.raw == token,
            m.len == length,
            *m.device == *old(self),
            *final(self) == *final(m.device),
    ;

    /// Wrap a raw token and element count into a read-write view.
    fn map_read_write<'a, T: Element>(&'a mut self, token: Self::Mapper, length: usize) -> (m:
        RWMapping<'a, T, Self>)
        requires
            T::spec_size() > 0,
            length * T::spec_size() <= token.contents().len(),
        ensures
            m.raw == token,
            m.len == length,
            *m.device == *old(self),
            *final(self) == *final(m.device),
    ;
}

impl<D: Device> MapFactory for D {
    fn map_readable<'a, T: Element>(&'a mut self, token: Self::Mapper, length: usize) -> (m:
        ReadableMapping<'a, T, Self>) {
        ReadableMapping { raw: token, len: length, device: self, phantom_t: PhantomData }
    }

    fn map_writable<'a, T: Element>(&'a mut self, token: Self::Mapper, length: usize) -> (m:
        WritableMapping<'a, T, Self>) {
        WritableMapping { raw: token, len: length, device: self, phantom_t: PhantomData }
    }

    fn map_read_write<'a, T: Element>(&'a mut self, token: Self::Mapper, length: usize) -> (m:
        RWMapping<'a, T, Self>) {
        RWMapping { raw: token, len: length, device: self, phantom_t: PhantomData }
    }
}

} // verus!
