use pino_wgpu_shape::geometry::{quad_template, QuadCorner, QUAD_VERTEX_COUNT};

#[test]
fn quad_has_six_vertices() {
    let q = quad_template();
    assert_eq!(q.len(), 6);
    assert_eq!(QUAD_VERTEX_COUNT, 6);
}

#[test]
fn quad_corners_in_draw_order() {
    let c = |x: i8, y: i8| QuadCorner { x, y };
    assert_eq!(
        quad_template(),
        vec![c(-1, 1), c(-1, -1), c(1, -1), c(-1, 1), c(1, -1), c(1, 1)]
    );
}

#[test]
fn quad_triangles_run_counter_clockwise() {
    let q = quad_template();
    for t in q.chunks(3) {
        let (a, b, c) = (t[0], t[1], t[2]);
        let area2 = (b.x as i32 - a.x as i32) * (c.y as i32 - a.y as i32)
            - (b.y as i32 - a.y as i32) * (c.x as i32 - a.x as i32);
        assert_eq!(area2, 4);
    }
}
