use std::marker::PhantomData;
use std::mem;

use device_core::handle::{Buffer, RawBuffer};
use device_core::mapping::MapFactory;
use device_core::mock::{MockCommandBuffer, MockDevice};
use device_core::shade::Stage;
use device_core::draw::DataBuffer;
use device_core::tex::ImageInfo;
use device_core::{
    as_byte_slice, static_buffer_round_trip, two_sessions_unmap_twice, write_then_read_back,
    BufferInfo, BufferUsage, Device, MapAccess, Resources,
};

#[derive(Clone, PartialEq, Debug)]
enum TestResources {}

impl Resources for TestResources {
    type Buffer = ();
    type ArrayBuffer = ();
    type Shader = ();
    type Program = ();
    type FrameBuffer = ();
    type Surface = ();
    type Texture = ();
    type Sampler = ();
}

fn mock_buffer<T>(len: usize) -> Buffer<TestResources, T> {
    Buffer {
        raw: RawBuffer::new(
            (),
            BufferInfo {
                usage: BufferUsage::Static,
                size: mem::size_of::<T>() * len,
            },
        ),
        phantom_t: PhantomData,
    }
}

#[test]
fn test_buffer_len() {
    assert_eq!(mock_buffer::<u8>(8).len(), 8);
    assert_eq!(mock_buffer::<u16>(8).len(), 8);
}

#[test]
fn test_buffer_zero_len() {
    assert!(mock_buffer::<()>(0).try_len().is_none());
}

#[test]
fn zero_sized_element_count_is_rejected() {
    assert!(mock_buffer::<()>(0).try_len().is_none());
    assert!(mock_buffer::<()>(4).try_len().is_none());
    assert_eq!(mock_buffer::<u32>(3).try_len(), Some(3));
}

#[test]
fn created_buffer_reports_length() {
    let mut d = MockDevice::new();
    let buf = d.create_buffer::<u32>(5, BufferUsage::Dynamic);
    assert_eq!(buf.len(), 5);
    assert_eq!(buf.get_info().size, 20);
    assert_eq!(buf.get_info().usage, BufferUsage::Dynamic);
    let empty = d.create_buffer::<u32>(0, BufferUsage::Dynamic);
    assert_eq!(empty.len(), 0);
}

#[test]
fn mapping_sessions_unmap_once_each() {
    let mut d = MockDevice::new();
    let buf = d.create_buffer::<u8>(4, BufferUsage::Dynamic);
    assert_eq!(d.unmap_count(), 0);
    let m = d.map_buffer_readable(buf);
    m.unmap();
    assert_eq!(d.unmap_count(), 1);
    let m2 = d.map_buffer_writable(buf);
    m2.unmap();
    assert_eq!(d.unmap_count(), 2);
    two_sessions_unmap_twice(&mut d, buf);
    assert_eq!(d.unmap_count(), 4);
}

#[test]
fn writable_set_is_visible_after_remap() {
    let mut d = MockDevice::new();
    let buf = d.create_buffer::<u16>(3, BufferUsage::Dynamic);
    let mut w = d.map_buffer_writable(buf);
    w.set(0, 0x1234);
    w.set(2, 0xbeef);
    w.unmap();
    let r = d.map_buffer_readable(buf);
    let items = r.to_vec();
    r.unmap();
    assert_eq!(items, vec![0x1234, 0, 0xbeef]);
}

#[test]
fn write_then_read_back_returns_written_value() {
    let mut d = MockDevice::new();
    let buf = d.create_buffer::<u32>(4, BufferUsage::Dynamic);
    assert_eq!(write_then_read_back(&mut d, buf, 3, 0xdeadbeef), 0xdeadbeef);
    assert_eq!(d.unmap_count(), 2);
}

#[test]
fn rw_mapping_reads_and_writes() {
    let mut d = MockDevice::new();
    let data: Vec<u32> = vec![1, 2, 3];
    let buf = d.create_buffer_static(data.as_slice());
    let mut rw = d.map_buffer_rw(buf);
    assert_eq!(rw.get(1), 2);
    rw.set(1, 42);
    assert_eq!(rw.get(1), 42);
    rw.unmap();
    let r = d.map_buffer_readable(buf);
    let items = r.to_vec();
    r.unmap();
    assert_eq!(items, vec![1, 42, 3]);
}

#[test]
fn byte_slice_has_exact_layout() {
    let data: Vec<u16> = vec![0x0102, 0x0304];
    assert_eq!(as_byte_slice(data.as_slice()), vec![0x02, 0x01, 0x04, 0x03]);
    let wide: Vec<u32> = vec![0x0a0b0c0d];
    assert_eq!(as_byte_slice(wide.as_slice()), vec![0x0d, 0x0c, 0x0b, 0x0a]);
    let empty: Vec<u8> = vec![];
    assert_eq!(as_byte_slice(empty.as_slice()).len(), 0);
    let bytes: Vec<u8> = vec![9, 8];
    assert_eq!(as_byte_slice(bytes.as_slice()), vec![9, 8]);
}

#[test]
fn static_buffer_round_trips() {
    let mut d = MockDevice::new();
    let data: Vec<u32> = vec![5, 6, 7, 8];
    let buf = d.create_buffer_static(data.as_slice());
    assert_eq!(buf.len(), 4);
    assert_eq!(buf.get_info().usage, BufferUsage::Static);
    let m = d.map_buffer_readable(buf);
    assert_eq!(m.get(2), 7);
    let out = m.to_vec();
    m.unmap();
    assert_eq!(out, data);
}

#[test]
fn update_that_does_not_fit_is_refused() {
    let mut d = MockDevice::new();
    let buf = d.create_buffer::<u8>(2, BufferUsage::Dynamic);
    let patch: Vec<u8> = vec![1, 2, 3];
    d.update_buffer(buf, patch.as_slice(), 0);
    let m = d.map_buffer_readable(buf);
    let out = m.to_vec();
    m.unmap();
    assert_eq!(out, vec![0, 0]);
}

#[test]
fn round_trip_helper_returns_data() {
    let mut d = MockDevice::new();
    let data: Vec<u16> = vec![10, 20, 30];
    let out = static_buffer_round_trip(&mut d, data.as_slice());
    assert_eq!(out, data);
    assert_eq!(d.unmap_count(), 1);
}

#[test]
fn single_delete_per_token_suffices() {
    let mut d = MockDevice::new();
    let a = d.create_buffer::<u8>(4, BufferUsage::Static);
    let b = d.create_buffer::<u8>(8, BufferUsage::Dynamic);
    assert_eq!(d.live_buffers(), 2);
    d.delete_buffer(a);
    assert_eq!(d.live_buffers(), 1);
    d.delete_buffer(b);
    assert_eq!(d.live_buffers(), 0);
}

#[test]
fn update_buffer_writes_at_element_offset() {
    let mut d = MockDevice::new();
    let buf = d.create_buffer::<u16>(4, BufferUsage::Dynamic);
    let patch: Vec<u16> = vec![7, 8];
    d.update_buffer(buf, patch.as_slice(), 1);
    let m = d.map_buffer_readable(buf);
    let out = m.to_vec();
    m.unmap();
    assert_eq!(out, vec![0, 7, 8, 0]);
}

#[test]
fn map_factory_wraps_raw_tokens() {
    let mut d = MockDevice::new();
    let buf = d.create_buffer::<u8>(2, BufferUsage::Stream);
    let token = d.map_buffer_raw(buf.cast::<()>(), MapAccess::RW);
    let m = d.map_read_write::<u8>(token, 2);
    assert_eq!(m.len(), 2);
    m.unmap();
    assert_eq!(d.unmap_count(), 1);
}

#[test]
fn device_misc_operations() {
    let mut d = MockDevice::new();
    d.reset_state();
    let cb = MockCommandBuffer { commands: 0 };
    let db = DataBuffer::new();
    d.submit((&cb, &db));
    assert_eq!(d.get_capabilities().max_vertex_attributes, 16);
    let shader = d.create_shader(Stage::Vertex, &[1, 2, 3]).unwrap();
    assert_eq!(shader.stage, Stage::Vertex);
    let _fb = d.get_main_frame_buffer();
    d.delete_shader(shader);
}

#[test]
fn update_texture_returns_backend_verdict() {
    let mut d = MockDevice::new();
    let info = device_core::tex::TextureInfo {
        width: 2,
        height: 2,
        depth: 1,
        levels: 1,
    };
    let texture = d.create_texture(info).unwrap();
    let img = ImageInfo {
        xoffset: 0,
        yoffset: 0,
        zoffset: 0,
        width: 2,
        height: 2,
        depth: 1,
        mipmap: 0,
    };
    let texels: Vec<u32> = vec![1, 2, 3, 4];
    assert_eq!(d.update_texture(&texture, &img, texels.as_slice()), Ok(()));
    d.generate_mipmap(&texture);
    d.delete_texture(texture);
}
