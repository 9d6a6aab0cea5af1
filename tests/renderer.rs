use pino_wgpu_shape::renderer::{
    DrawCall, RenderError, ShapeRenderer, Upload, DEFAULT_CAPACITY_BYTES,
    DEFAULT_INSTANCE_CAPACITY, MAX_CAPACITY_BYTES,
};

fn quad_draw(n: u32) -> DrawCall {
    DrawCall { first_vertex: 0, vertex_count: 6, first_instance: 0, instance_count: n }
}

#[test]
fn default_capacity_holds_sixty_four_records() {
    assert_eq!(DEFAULT_INSTANCE_CAPACITY, 64);
    assert_eq!(DEFAULT_CAPACITY_BYTES, 64 * 76);
    let r: ShapeRenderer<u32> = ShapeRenderer::new(DEFAULT_CAPACITY_BYTES);
    assert_eq!(r.capacity_bytes(), 4864);
    assert_eq!(r.len(), 0);
}

#[test]
fn draw_takes_everything_queued_in_order() {
    let mut r = ShapeRenderer::new(DEFAULT_CAPACITY_BYTES);
    r.queue('a');
    r.queue('b');
    r.queue('a');
    assert_eq!(r.len(), 3);
    let f = r.draw().unwrap();
    assert_eq!(f.instances, vec!['a', 'b', 'a']);
    assert_eq!(f.draw, Some(quad_draw(3)));
    assert_eq!(f.upload, Some(Upload { offset: 0, size: 228 }));
    assert_eq!(r.len(), 0);
}

#[test]
fn only_instances_since_the_last_draw_are_rendered() {
    let mut r = ShapeRenderer::new(DEFAULT_CAPACITY_BYTES);
    r.queue(1u8);
    r.queue(2u8);
    r.draw().unwrap();
    r.queue(3u8);
    let f = r.draw().unwrap();
    assert_eq!(f.instances, vec![3u8]);
    assert_eq!(f.draw, Some(quad_draw(1)));
    assert_eq!(r.len(), 0);
}

#[test]
fn second_draw_renders_nothing() {
    let mut r = ShapeRenderer::new(DEFAULT_CAPACITY_BYTES);
    for i in 0..5u16 {
        r.queue(i);
    }
    let first = r.draw().unwrap();
    assert_eq!(first.draw, Some(quad_draw(5)));
    let second = r.draw().unwrap();
    assert!(second.instances.is_empty());
    assert_eq!(second.draw, None);
    assert_eq!(second.upload, None);
}

#[test]
fn empty_draw_uploads_and_draws_nothing() {
    let mut r: ShapeRenderer<u8> = ShapeRenderer::new(DEFAULT_CAPACITY_BYTES);
    let f = r.draw().unwrap();
    assert!(f.instances.is_empty());
    assert_eq!(f.upload, None);
    assert_eq!(f.draw, None);
}

#[test]
fn over_capacity_is_refused_and_keeps_the_queue() {
    let mut r = ShapeRenderer::new(DEFAULT_CAPACITY_BYTES);
    for i in 0..65u32 {
        r.queue(i);
    }
    assert_eq!(r.draw().err(), Some(RenderError::CapacityExceeded));
    assert_eq!(r.len(), 65);
    assert_eq!(r.draw().err(), Some(RenderError::CapacityExceeded));
    r.clear();
    assert_eq!(r.len(), 0);
    for i in 0..64u32 {
        r.queue(i);
    }
    let f = r.draw().unwrap();
    assert_eq!(f.upload, Some(Upload { offset: 0, size: 4864 }));
    assert_eq!(f.draw, Some(quad_draw(64)));
}

#[test]
fn exact_fit_is_drawn() {
    let mut r = ShapeRenderer::new(2 * 76);
    r.queue(());
    r.queue(());
    let f = r.draw().unwrap();
    assert_eq!(f.upload, Some(Upload { offset: 0, size: 152 }));
    assert_eq!(f.draw, Some(quad_draw(2)));
}

#[test]
fn one_byte_short_is_refused() {
    let mut r = ShapeRenderer::new(2 * 76 - 1);
    r.queue(());
    r.queue(());
    assert_eq!(r.draw().err(), Some(RenderError::CapacityExceeded));
    assert_eq!(r.len(), 2);
}

#[test]
fn zero_capacity_draws_only_empty_frames() {
    let mut r = ShapeRenderer::new(0);
    assert!(r.draw().is_ok());
    r.queue(7i64);
    assert_eq!(r.draw().err(), Some(RenderError::CapacityExceeded));
}

#[test]
fn draw_range_is_whole_quad_over_all_instances() {
    for n in [1u32, 2, 17, 64] {
        let mut r = ShapeRenderer::new(DEFAULT_CAPACITY_BYTES);
        for i in 0..n {
            r.queue(i);
        }
        let f = r.draw().unwrap();
        let c = f.draw.unwrap();
        assert_eq!((c.first_vertex, c.vertex_count), (0, 6));
        assert_eq!((c.first_instance, c.instance_count), (0, n));
        assert_eq!(f.upload, Some(Upload { offset: 0, size: n as u64 * 76 }));
    }
}

#[test]
fn largest_capacity_is_accepted() {
    let mut r: ShapeRenderer<u8> = ShapeRenderer::new(MAX_CAPACITY_BYTES);
    assert_eq!(r.capacity_bytes(), 4294967295 * 76);
    r.queue(9);
    let f = r.draw().unwrap();
    assert_eq!(f.draw, Some(quad_draw(1)));
}
