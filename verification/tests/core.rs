use pathtracer::camera::effective_height;
use pathtracer::framebuffer::Framebuffer;
use pathtracer::trace::{next_step, SurfaceEvent, TraceStep};

#[test]
fn framebuffer_starts_black() {
    let fb = Framebuffer::new(3, 2).unwrap();
    assert_eq!(fb.width, 3);
    assert_eq!(fb.height, 2);
    assert_eq!(fb.data.len(), 18);
    assert!(fb.data.iter().all(|&b| b == 0));
}

#[test]
fn framebuffer_set_then_get() {
    let mut fb = Framebuffer::new(4, 3).unwrap();
    fb.set_pixel(2, 1, 10, 20, 30);
    assert_eq!(fb.pixel(2, 1), (10, 20, 30));
    assert_eq!(fb.pixel(2, 0), (0, 0, 0));
    assert_eq!(fb.pixel(1, 1), (0, 0, 0));
}

#[test]
fn framebuffer_layout_is_row_major_top_first() {
    let mut fb = Framebuffer::new(2, 2).unwrap();
    fb.set_pixel(0, 0, 1, 2, 3);
    fb.set_pixel(0, 1, 4, 5, 6);
    fb.set_pixel(1, 0, 7, 8, 9);
    fb.set_pixel(1, 1, 10, 11, 12);
    let bytes = fb.into_bytes();
    assert_eq!(bytes, vec![1, 2, 3, 4, 5, 6, 7, 8, 9, 10, 11, 12]);
}

#[test]
fn framebuffer_overwrite_keeps_neighbors() {
    let mut fb = Framebuffer::new(3, 1).unwrap();
    fb.set_pixel(0, 1, 9, 9, 9);
    fb.set_pixel(0, 1, 50, 60, 70);
    let bytes = fb.into_bytes();
    assert_eq!(bytes, vec![0, 0, 0, 50, 60, 70, 0, 0, 0]);
}

#[test]
fn from_pixels_lays_triples_out_in_order() {
    let pixels = vec![(1, 2, 3), (4, 5, 6), (7, 8, 9), (10, 11, 12), (13, 14, 15), (16, 17, 18)];
    let fb = Framebuffer::from_pixels(3, 2, &pixels).unwrap();
    assert_eq!(fb.pixel(0, 2), (7, 8, 9));
    assert_eq!(fb.pixel(1, 0), (10, 11, 12));
    let bytes = fb.into_bytes();
    assert_eq!(
        bytes,
        vec![1, 2, 3, 4, 5, 6, 7, 8, 9, 10, 11, 12, 13, 14, 15, 16, 17, 18]
    );
}

#[test]
fn from_pixels_rejects_wrong_count() {
    let pixels = vec![(1, 2, 3), (4, 5, 6)];
    assert!(Framebuffer::from_pixels(3, 2, &pixels).is_none());
    assert!(Framebuffer::from_pixels(1, 1, &pixels).is_none());
}

#[test]
fn framebuffer_rejects_oversized_dimensions() {
    assert!(Framebuffer::new(usize::MAX, 2).is_none());
    assert!(Framebuffer::new(usize::MAX / 2, usize::MAX / 2).is_none());
}

#[test]
fn framebuffer_zero_dimension_is_empty() {
    let fb = Framebuffer::new(0, 5).unwrap();
    assert!(fb.into_bytes().is_empty());
}

#[test]
fn zero_depth_always_emits_black() {
    assert_eq!(next_step(0, SurfaceEvent::Miss), TraceStep::EmitBlack);
    assert_eq!(next_step(0, SurfaceEvent::Absorbed), TraceStep::EmitBlack);
    assert_eq!(next_step(0, SurfaceEvent::Scattered), TraceStep::EmitBlack);
}

#[test]
fn miss_emits_sky_while_budget_lasts() {
    assert_eq!(next_step(1, SurfaceEvent::Miss), TraceStep::EmitSky);
    assert_eq!(next_step(50, SurfaceEvent::Miss), TraceStep::EmitSky);
}

#[test]
fn absorbed_ray_emits_black() {
    assert_eq!(next_step(1, SurfaceEvent::Absorbed), TraceStep::EmitBlack);
    assert_eq!(next_step(50, SurfaceEvent::Absorbed), TraceStep::EmitBlack);
}

#[test]
fn scattered_ray_bounces() {
    assert_eq!(next_step(1, SurfaceEvent::Scattered), TraceStep::Bounce);
    assert_eq!(next_step(50, SurfaceEvent::Scattered), TraceStep::Bounce);
}

#[test]
fn effective_height_raises_zero_to_one() {
    assert_eq!(effective_height(0), 1);
}

#[test]
fn effective_height_keeps_declared_height() {
    assert_eq!(effective_height(1), 1);
    assert_eq!(effective_height(1080), 1080);
}

#[test]
fn effective_height_is_idempotent() {
    for h in [0usize, 1, 2, 720] {
        let once = effective_height(h);
        assert_eq!(effective_height(once), once);
    }
}
