use remagnify::layer_surface::LayerSurface;
use remagnify::pool_buffer::{BufferError, PoolBuffer, FORMAT_ARGB8888};
use remagnify::vector::Vector2D;

const PX: i64 = 256;

fn surface_with_buffers() -> LayerSurface {
    let size = Vector2D::new(1920 * PX, 1080 * PX);
    let mut ls = LayerSurface::new(0, size, 1);
    ls.acknowledge_configure(42);
    let b = PoolBuffer::for_surface(size).unwrap();
    ls.set_buffer(0, b);
    ls.set_buffer(1, b);
    ls
}

#[test]
fn available_buffer_alternates() {
    let mut ls = surface_with_buffers();
    assert!(ls.configured);
    assert_eq!(ls.ack_serial, 42);
    let mut seen = Vec::new();
    for _ in 0..6 {
        let slot = ls.get_available_buffer().unwrap();
        assert_ne!(slot, ls.last_buffer);
        seen.push(slot);
        assert_eq!(ls.send_frame(), Some(slot));
        assert_eq!(ls.last_buffer, slot);
    }
    assert_eq!(seen, vec![1, 0, 1, 0, 1, 0]);
}

#[test]
fn submitted_buffer_is_busy_until_released() {
    let mut ls = surface_with_buffers();
    assert_eq!(ls.send_frame(), Some(1));
    assert!(ls.buffers[1].unwrap().busy);
    assert!(!ls.buffers[0].unwrap().busy);
    assert!(ls.frame_pending);
    assert!(ls.rendered);
    ls.release_buffer(1);
    assert!(!ls.buffers[1].unwrap().busy);
    ls.frame_done();
    assert!(!ls.frame_pending);
    ls.mark_dirty();
    assert!(ls.dirty);
}

#[test]
fn empty_slot_is_not_offered() {
    let size = Vector2D::new(8 * PX, 8 * PX);
    let mut ls = LayerSurface::new(3, size, 2);
    assert_eq!(ls.get_available_buffer(), None);
    ls.acknowledge_configure(1);
    assert_eq!(ls.send_frame(), None);
    assert_eq!(ls.last_buffer, 1);
    assert_eq!(ls.get_available_buffer(), None);
}

#[test]
fn buffer_shapes() {
    let b = PoolBuffer::for_surface(Vector2D::new(1920 * PX, 1080 * PX)).unwrap();
    assert_eq!(b.stride, 7680);
    assert_eq!(b.size, 7680 * 1080);
    assert_eq!(b.format, FORMAT_ARGB8888);
    assert!(!b.busy);
    assert_eq!(PoolBuffer::for_surface(Vector2D::new(0, 1080 * PX)), Err(BufferError::Empty));
    assert_eq!(
        PoolBuffer::for_surface(Vector2D::new(40000 * PX, 40000 * PX)),
        Err(BufferError::TooLarge)
    );
    let c = PoolBuffer::new(300, 200, 1, 1200).unwrap();
    assert_eq!(c.size, 240000);
    assert_eq!(c.pixel_size, Vector2D::new(300 * PX, 200 * PX));
    assert_eq!(PoolBuffer::new(300, 0, 1, 1200), Err(BufferError::Empty));
    assert_eq!(PoolBuffer::new(300, 200, 1, 0), Err(BufferError::Empty));
    assert_eq!(PoolBuffer::new(65536, 65536, 1, 262144), Err(BufferError::TooLarge));
    let mut d = c;
    d.set_busy(true);
    assert!(d.busy);
}
