use split_cameras::{
    minimap_config, zoom_config, zoom_scale, Frac, ViewportRect, FAR_PLANE, NEAR_PLANE,
    WORLD_SIZE,
};

fn value(f: Frac) -> f64 {
    f.num as f64 / f.den as f64
}

#[test]
fn zoom_viewport_covers_window() {
    let (viewport, _) = zoom_config(800, 600);
    assert_eq!(viewport, ViewportRect { x: 0, y: 0, width: 800, height: 600 });
}

#[test]
fn zoom_scale_is_world_over_width_times_three_tenths() {
    let s = zoom_scale(800);
    assert_eq!(s, Frac { num: 300000, den: 8000 });
    assert_eq!(value(s), WORLD_SIZE as f64 / 800.0 * 0.3);
    let s = zoom_scale(2560);
    assert_eq!(value(s), 100000.0 / 2560.0 * 0.3);
}

#[test]
fn zoom_projection_box() {
    let (_, projection) = zoom_config(800, 600);
    assert_eq!(projection.near, NEAR_PLANE);
    assert_eq!(projection.far, FAR_PLANE);
    assert_eq!(value(projection.width), 30000.0);
    assert_eq!(value(projection.height), 22500.0);
    let (_, projection) = zoom_config(2560, 1440);
    assert_eq!(value(projection.width), 30000.0);
    assert_eq!(value(projection.height), 16875.0);
}

#[test]
fn zoom_config_largest_window() {
    let (viewport, projection) = zoom_config(u32::MAX, u32::MAX);
    assert_eq!(viewport.width, u32::MAX);
    assert_eq!(projection.width.num, u32::MAX as u64 * 300000);
    assert_eq!(projection.width.den, u32::MAX as u64 * 10);
}

#[test]
fn minimap_corner_square() {
    let (viewport, _) = minimap_config(800, 600);
    assert_eq!(viewport, ViewportRect { x: 640, y: 0, width: 160, height: 160 });
    let (viewport, _) = minimap_config(1000, 100);
    assert_eq!(viewport, ViewportRect { x: 800, y: 0, width: 200, height: 200 });
}

#[test]
fn minimap_side_rounds_down() {
    let (viewport, _) = minimap_config(7, 7);
    assert_eq!(viewport, ViewportRect { x: 6, y: 0, width: 1, height: 1 });
    let (viewport, _) = minimap_config(0, 0);
    assert_eq!(viewport, ViewportRect { x: 0, y: 0, width: 0, height: 0 });
    let (viewport, _) = minimap_config(u32::MAX, 1);
    assert_eq!(viewport.width, 858993459);
    assert_eq!(viewport.x, u32::MAX - 858993459);
}

#[test]
fn minimap_shows_whole_world() {
    for w in [1u32, 800, 2560] {
        let (_, projection) = minimap_config(w, 600);
        assert_eq!(value(projection.width), 100000.0);
        assert_eq!(value(projection.height), 100000.0);
        assert_eq!(projection.near, 0);
        assert_eq!(projection.far, 1500);
    }
}
