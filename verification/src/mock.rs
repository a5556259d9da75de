//! A minimal in-memory backend: buffers are byte vectors, every other
//! resource is a bare token. It gives the device contract a verified
//! implementation and lets the mapping machinery be exercised without a
//! native graphics API.

use vstd::prelude::*;
use crate::{BufferInfo, BufferUsage, Capabilities, MapAccess, Resources};
use crate::draw;
use crate::handle;
use crate::mapping::RawMapping;
use crate::shade;
use crate::tex;
use crate::Device;

verus! {

/// The mock resource family: every token is a plain index.
#[derive(Clone, PartialEq, Debug)]
pub struct MockResources;

impl Resources for MockResources {
    type Buffer = usize;

    type ArrayBuffer = usize;

    type Shader = usize;

    type Program = usize;

    type FrameBuffer = usize;

    type Surface = usize;

    type Texture = usize;

    type Sampler = usize;
}

/// The mock command buffer: commands are not encoded at all.
#[derive(Clone, PartialEq, Debug)]
pub struct MockCommandBuffer {
    /// Number of commands recorded.
    pub commands: usize,
}

impl draw::CommandBuffer for MockCommandBuffer {
    type Resources = MockResources;
}

/// The mock mapped-memory token: a private copy of the buffer's bytes,
/// written back on unmap.
#[derive(Clone, PartialEq, Debug)]
pub struct MockMapper {
    /// Which buffer the region was mapped from.
    pub index: usize,
    /// The mapped bytes.
    pub bytes: Vec<u8>,
}

impl RawMapping for MockMapper {
    open spec fn contents(&self) -> Seq<u8> {
        self.bytes@
    }

    open spec fn target_id(&self) -> int {
        self.index as int
    }

    fn byte_len(&self) -> (r: usize) {
        self.bytes.len()
    }

    fn read_byte(&self, i: usize) -> (r: u8) {
        self.bytes[i]
    }

    fn write_byte(&mut self, i: usize, v: u8) {
        self.bytes[i] = v;
    }
}

/// A vector of `n` zero bytes.
fn zero_bytes(n: usize) -> (r: Vec<u8>)
    ensures
        r@.len() == n,
{
    let mut out: Vec<u8> = Vec::new();
    let mut j: usize = 0;
    while j < n
        invariant
            j <= n,
            out@.len() == j,
        decreases n - j,
    {
        out.push(0u8);
        j = j + 1;
    }
    out
}

/// A copy of the given bytes.
fn clone_bytes(v: &Vec<u8>) -> (r: Vec<u8>)
    ensures
        r@ == v@,
{
    let n = v.len();
    let mut out: Vec<u8> = Vec::new();
    let mut j: usize = 0;
    while j < n
        invariant
            j <= n,
            n == v@.len(),
            out@.len() == j,
            forall|t: int| 0 <= t < j ==> out@[t] == v@[t],
        decreases n - j,
    {
        out.push(v[j]);
        j = j + 1;
    }
    proof {
        assert(out@ =~= v@);
    }
    out
}

/// How many slots of a mock store still hold a buffer.
pub open spec fn count_live(s: Seq<Option<Vec<u8>>>) -> nat
    decreases s.len(),
{
    if s.len() == 0 {
        0
    } else {
        count_live(s.drop_last()) + if s.last() is Some {
            1nat
        } else {
            0nat
        }
    }
}

/// The in-memory device. Buffer contents live in `store`; a deleted
/// buffer's slot is cleared and never reused.
pub struct MockDevice {
    /// One slot per buffer ever created; `None` once deleted.
    pub store: Vec<Option<Vec<u8>>>,
    /// The advertised capabilities.
    pub caps: Capabilities,
    /// Runtime count of unmap calls received, saturating at the top.
    pub unmap_calls: u64,
    /// Exact count of unmap calls received.
    pub unmaps_count: Ghost<nat>,
    /// Record of the texture updates received: bytes and verdict, in order.
    pub tex_log: Ghost<Seq<(Seq<u8>, Result<(), tex::TextureError>)>>,
}

impl MockDevice {
    /// The mock's fixed capability set.
    pub fn default_capabilities() -> Capabilities {
        Capabilities {
            shader_model: shade::ShaderModel::Version40,
            max_draw_buffers: 4,
            max_texture_size: 4096,
            max_vertex_attributes: 16,
            array_buffer_supported: true,
            fragment_output_supported: true,
            immutable_storage_supported: false,
            instance_base_supported: false,
            instance_call_supported: false,
            instance_rate_supported: false,
            render_targets_supported: true,
            sampler_objects_supported: true,
            uniform_block_supported: false,
            vertex_base_supported: false,
        }
    }

    /// A fresh device with no buffers and no unmap calls received.
    pub fn new() -> (r: MockDevice)
        ensures
            r.unmaps() == 0,
            r.store@.len() == 0,
            r.texture_updates() == Seq::<(Seq<u8>, Result<(), tex::TextureError>)>::empty(),
    {
        MockDevice {
            store: Vec::new(),
            caps: Self::default_capabilities(),
            unmap_calls: 0,
            unmaps_count: Ghost(0),
            tex_log: Ghost(Seq::empty()),
        }
    }

    /// The bytes a live slot holds; empty for a cleared slot.
    pub open spec fn slot_bytes(&self, i: int) -> Seq<u8> {
        match self.store@[i] {
            Some(v) => v@,
            None => Seq::empty(),
        }
    }

    /// Runtime count of unmap calls received (saturating).
    pub fn unmap_count(&self) -> (r: u64)
        ensures
            r == self.unmap_calls,
    {
        self.unmap_calls
    }

    /// How many buffers are still live.
    pub fn live_buffers(&self) -> (r: usize)
        ensures
            r == count_live(self.store@),
    {
        let n = self.store.len();
        let mut count: usize = 0;
        let mut i: usize = 0;
        while i < n
            invariant
                i <= n,
                n == self.store@.len(),
                count <= i,
                count == count_live(self.store@.subrange(0, i as int)),
            decreases n - i,
        {
            proof {
                let pre = self.store@.subrange(0, i as int);
                let nxt = self.store@.subrange(0, i + 1);
                assert(nxt.drop_last() =~= pre);
                assert(nxt.last() == self.store@[i as int]);
            }
            let slot = &self.store[i];
            match slot {
                Some(_) => {
                    count = count + 1;
                },
                None => {
                },
            }
            i = i + 1;
        }
        proof {
            assert(self.store@.subrange(0, n as int) =~= self.store@);
        }
        count
    }
}

impl Device for MockDevice {
    type Resources = MockResources;

    type Mapper = MockMapper;

    type CommandBuffer = MockCommandBuffer;

    open spec fn unmaps(&self) -> nat {
        self.unmaps_count@
    }

    open spec fn valid_buffer(&self, buf: handle::RawBuffer<MockResources>) -> bool {
        &&& buf.res < self.store@.len()
        &&& self.store@[buf.res as int] is Some
        &&& self.slot_bytes(buf.res as int).len() == buf.info.size
    }

    open spec fn buffer_bytes(&self, buf: handle::RawBuffer<MockResources>) -> Seq<u8> {
        self.slot_bytes(buf.res as int)
    }

    open spec fn buffer_id(&self, buf: handle::RawBuffer<MockResources>) -> int {
        buf.res as int
    }

    open spec fn texture_updates(&self) -> Seq<(Seq<u8>, Result<(), tex::TextureError>)> {
        self.tex_log@
    }

    fn get_capabilities<'a>(&'a self) -> &'a Capabilities {
        &self.caps
    }

    fn reset_state(&mut self) {
    }

    fn submit(&mut self, buffer: (&MockCommandBuffer, &draw::DataBuffer)) {
    }

    fn create_buffer_raw(&mut self, size: usize, usage: BufferUsage) -> (r: handle::Buffer<
        MockResources,
        (),
    >) {
        let bytes = zero_bytes(size);
        let ghost bs = bytes@;
        let id = self.store.len();
        let slot = Some(bytes);
        let ghost slot_g = slot;
        self.store.push(slot);
        proof {
            assert(self.store@[id as int] == slot_g);
            assert(self.slot_bytes(id as int) == bs);
        }
        let r = handle::Buffer::from_raw(handle::RawBuffer::new(id, BufferInfo { usage, size }));
        proof {
            assert(r.raw.res == id);
            assert(self.buffer_bytes(r.raw).len() == size);
            assert(self.valid_buffer(r.raw));
        }
        r
    }

    fn create_buffer_static_raw(&mut self, data: &[u8]) -> (r: handle::Buffer<MockResources, ()>) {
        let mut bytes: Vec<u8> = Vec::new();
        let n = data.len();
        let mut j: usize = 0;
        while j < n
            invariant
                j <= n,
                n == data@.len(),
                bytes@.len() == j,
                forall|t: int| 0 <= t < j ==> bytes@[t] == data@[t],
            decreases n - j,
        {
            bytes.push(data[j]);
            j = j + 1;
        }
        proof {
            assert(bytes@ =~= data@);
        }
        let ghost bs = bytes@;
        let id = self.store.len();
        let slot = Some(bytes);
        let ghost slot_g = slot;
        self.store.push(slot);
        proof {
            assert(self.store@[id as int] == slot_g);
            assert(self.slot_bytes(id as int) == bs);
        }
        handle::Buffer::from_raw(
            handle::RawBuffer::new(id, BufferInfo { usage: BufferUsage::Static, size: n }),
        )
    }

    fn create_array_buffer(&mut self) -> Result<handle::ArrayBuffer<MockResources>, ()> {
        Ok(handle::ArrayBuffer { res: 0 })
    }

    fn create_shader(&mut self, stage: shade::Stage, code: &[u8]) -> Result<
        handle::Shader<MockResources>,
        shade::CreateShaderError,
    > {
        Ok(handle::Shader { res: 0, stage })
    }

    fn create_program(&mut self, shaders: &[handle::Shader<MockResources>], targets: Option<
        &[&str],
    >) -> Result<handle::Program<MockResources>, ()> {
        Ok(handle::Program { res: 0 })
    }

    fn create_frame_buffer(&mut self) -> handle::FrameBuffer<MockResources> {
        handle::FrameBuffer { res: 0 }
    }

    fn create_surface(&mut self, info: tex::SurfaceInfo) -> Result<
        handle::Surface<MockResources>,
        tex::SurfaceError,
    > {
        Ok(handle::Surface { res: 0, info })
    }

    fn create_texture(&mut self, info: tex::TextureInfo) -> Result<
        handle::Texture<MockResources>,
        tex::TextureError,
    > {
        Ok(handle::Texture { res: 0, info })
    }

    fn create_sampler(&mut self, info: tex::SamplerInfo) -> handle::Sampler<MockResources> {
        handle::Sampler { res: 0, info }
    }

    fn get_main_frame_buffer(&self) -> handle::FrameBuffer<MockResources> {
        handle::FrameBuffer { res: 0 }
    }

    fn delete_buffer_raw(&mut self, buf: handle::Buffer<MockResources, ()>) {
        let ghost pre = *self;
        if buf.raw.res < self.store.len() {
            let slot = &mut self.store[buf.raw.res];
            *slot = None;
        }
        proof {
            assert(self.store@.len() == pre.store@.len());
            assert forall|b: handle::RawBuffer<MockResources>|
                b.res != buf.raw.res implies self.valid_buffer(b) == pre.valid_buffer(b) && (
                pre.valid_buffer(b) ==> self.buffer_bytes(b) == pre.buffer_bytes(b)) by {
                if b.res < pre.store@.len() {
                    assert(self.store@[b.res as int] == pre.store@[b.res as int]);
                }
            }
        }
    }

    fn delete_shader(&mut self, shader: handle::Shader<MockResources>) {
    }

    fn delete_program(&mut self, program: handle::Program<MockResources>) {
    }

    fn delete_surface(&mut self, surface: handle::Surface<MockResources>) {
    }

    fn delete_texture(&mut self, texture: handle::Texture<MockResources>) {
    }

    fn delete_sampler(&mut self, sampler: handle::Sampler<MockResources>) {
    }

    fn update_buffer_raw(&mut self, buf: handle::Buffer<MockResources, ()>, data: &[u8],
        offset_bytes: usize) {
        let ghost pre = *self;
        let idx = buf.raw.res;
        let n = data.len();
        if idx < self.store.len() {
            let mut fits = false;
            let ghost mut prebytes = Seq::<u8>::empty();
            let mut nb: Vec<u8> = Vec::new();
            let slot = &self.store[idx];
            match slot {
                Some(v) => {
                    if offset_bytes <= v.len() && n <= v.len() - offset_bytes {
                        fits = true;
                        proof {
                            prebytes = v@;
                        }
                        nb = clone_bytes(v);
                    }
                },
                None => {
                },
            }
            if fits {
                let ghost len0 = prebytes.len();
                let mut j: usize = 0;
                while j < n
                    invariant
                        j <= n,
                        n == data@.len(),
                        nb@.len() == len0,
                        offset_bytes + n <= len0,
                        len0 <= usize::MAX,
                        forall|p: int|
                            0 <= p < len0 && !(offset_bytes <= p < offset_bytes + j) ==> nb@[p]
                                == prebytes[p],
                        forall|t: int| 0 <= t < j ==> nb@[offset_bytes + t] == data@[t],
                    decreases n - j,
                {
                    nb[offset_bytes + j] = data[j];
                    j = j + 1;
                }
                proof {
                    assert(nb@ =~= crate::element::replace_range(
                        prebytes,
                        offset_bytes as int,
                        data@,
                    ));
                }
                let ghost nbg = nb@;
                let slot_out = &mut self.store[idx];
                *slot_out = Some(nb);
                proof {
                    assert(self.slot_bytes(idx as int) == nbg);
                    assert(self.store@.len() == pre.store@.len());
                    assert forall|b: handle::RawBuffer<MockResources>| self.valid_buffer(b)
                        == pre.valid_buffer(b) && (pre.valid_buffer(b) && b.res != idx
                        ==> self.buffer_bytes(b) == pre.buffer_bytes(b)) by {
                        if b.res < pre.store@.len() && b.res != idx {
                            assert(self.store@[b.res as int] == pre.store@[b.res as int]);
                        }
                    }
                }
            }
        }
    }

    fn map_buffer_raw(&mut self, buf: handle::Buffer<MockResources, ()>, access: MapAccess) -> (m:
        MockMapper) {
        let idx = buf.raw.res;
        let slot = &self.store[idx];
        match slot {
            Some(v) => {
                proof {
                    assert(self.store@[idx as int] == Some(*v));
                    assert(self.buffer_bytes(buf.raw) == v@);
                }
                let bytes = clone_bytes(v);
                let mm = MockMapper { index: idx, bytes };
                proof {
                    assert(mm.bytes@ == v@);
                    assert(mm.contents() == v@);
                    assert(mm.contents() == old(self).buffer_bytes(buf.raw));
                }
                mm
            },
            None => {
                proof {
                    assert(false);
                }
                MockMapper { index: idx, bytes: Vec::new() }
            },
        }
    }

    fn unmap_buffer_raw(&mut self, token: MockMapper) {
        let MockMapper { index, bytes } = token;
        let ghost tb = bytes@;
        let ghost pre = *self;
        let mut fits = false;
        if index < self.store.len() {
            let slot = &self.store[index];
            match slot {
                Some(current) => {
                    proof {
                        assert(pre.store@[index as int] == Some(*current));
                    }
                    if current.len() == bytes.len() {
                        fits = true;
                    }
                },
                None => {
                    proof {
                        assert(pre.store@[index as int] is None);
                    }
                },
            }
        }
        if fits {
            let ghost nb = bytes@;
            let slot = &mut self.store[index];
            *slot = Some(bytes);
            proof {
                assert(self.store@.len() == pre.store@.len());
                assert(self.slot_bytes(index as int) == nb);
            }
        }
        proof {
            assert(self.store@.len() == pre.store@.len());
            assert forall|b: handle::RawBuffer<MockResources>|
                b.res != index && b.res < pre.store@.len() implies self.store@[b.res as int]
                == pre.store@[b.res as int] by {}
            assert forall|b: handle::RawBuffer<MockResources>| self.valid_buffer(b)
                == pre.valid_buffer(b) by {
                if b.res < pre.store@.len() && b.res != index {
                    assert(self.store@[b.res as int] == pre.store@[b.res as int]);
                }
            }
            assert forall|b: handle::RawBuffer<MockResources>|
                pre.valid_buffer(b) && pre.buffer_id(b) == index as int && tb.len()
                    == b.info.size implies self.buffer_bytes(b) == tb by {}
            assert forall|b: handle::RawBuffer<MockResources>|
                pre.valid_buffer(b) && pre.buffer_id(b) != index as int
                implies self.buffer_bytes(b) == pre.buffer_bytes(b) by {
                assert(self.store@[b.res as int] == pre.store@[b.res as int]);
            }
        }
        self.unmaps_count = Ghost(self.unmaps_count@ + 1);
        if self.unmap_calls < u64::MAX {
            self.unmap_calls = self.unmap_calls + 1;
        }
    }

    fn update_texture_raw(&mut self, texture: &handle::Texture<MockResources>,
        img: &tex::ImageInfo, data: &[u8]) -> (r: Result<(), tex::TextureError>) {
        self.tex_log = Ghost(self.tex_log@.push((data@, Ok(()))));
        Ok(())
    }

    fn generate_mipmap(&mut self, texture: &handle::Texture<MockResources>) {
    }
}









} // verus!
