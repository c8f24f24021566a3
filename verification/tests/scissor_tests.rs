use egui_glium::scissor::{
    clip_to_pixels, clip_to_scissor, scale_edge, ClipRect, PixelRect, Scissor, SurfaceSize,
};

const ONE: i32 = 256;

fn surface() -> SurfaceSize {
    SurfaceSize { width: 800, height: 600 }
}

fn rect(min_x: i32, min_y: i32, max_x: i32, max_y: i32) -> ClipRect {
    ClipRect { min_x: min_x * ONE, min_y: min_y * ONE, max_x: max_x * ONE, max_y: max_y * ONE }
}

#[test]
fn edge_at_scale_one_is_the_point() {
    assert_eq!(scale_edge(10 * ONE, 256, 800), 10);
    assert_eq!(scale_edge(0, 256, 800), 0);
    assert_eq!(scale_edge(800 * ONE, 256, 800), 800);
}

#[test]
fn edge_rounds_to_nearest_with_halves_up() {
    // 1.5 points at scale 1 is 1.5 pixels.
    assert_eq!(scale_edge(384, 256, 800), 2);
    assert_eq!(scale_edge(383, 256, 800), 1);
    // 1.25 points at scale 1.5 is 1.875 pixels.
    assert_eq!(scale_edge(320, 384, 800), 2);
    // 0.25 points at scale 1 is 0.25 pixels.
    assert_eq!(scale_edge(64, 256, 800), 0);
}

#[test]
fn edge_is_clamped_to_the_surface() {
    assert_eq!(scale_edge(-5 * ONE, 256, 800), 0);
    assert_eq!(scale_edge(i32::MIN, u32::MAX, 800), 0);
    assert_eq!(scale_edge(1000 * ONE, 256, 800), 800);
    assert_eq!(scale_edge(i32::MAX, u32::MAX, 800), 800);
    assert_eq!(scale_edge(i32::MAX, u32::MAX, u32::MAX), u32::MAX);
    assert_eq!(scale_edge(5 * ONE, 256, 0), 0);
}

#[test]
fn edge_with_scale_zero_is_zero() {
    assert_eq!(scale_edge(500 * ONE, 0, 800), 0);
}

#[test]
fn doubling_the_scale_doubles_the_edge() {
    assert_eq!(scale_edge(100 * ONE, 256, 800), 100);
    assert_eq!(scale_edge(100 * ONE, 512, 800), 200);
    // 0.75 points: 1 pixel at scale 1 (0.75), 2 at scale 2 (1.5).
    assert_eq!(scale_edge(192, 256, 800), 1);
    assert_eq!(scale_edge(192, 512, 800), 2);
    // 0.5 points: 1 pixel at scale 1 (0.5 rounds up), 1 at scale 2: off by one.
    assert_eq!(scale_edge(128, 256, 800), 1);
    assert_eq!(scale_edge(128, 512, 800), 1);
}

#[test]
fn doubling_the_scale_stops_at_the_surface_edge() {
    assert_eq!(scale_edge(500 * ONE, 256, 800), 500);
    assert_eq!(scale_edge(500 * ONE, 512, 800), 800);
}

#[test]
fn larger_scale_never_lowers_an_edge() {
    let mut last = 0;
    for scale in [0u32, 1, 100, 256, 300, 512, 5000, u32::MAX] {
        let edge = scale_edge(37 * ONE + 77, scale, 10_000);
        assert!(edge >= last);
        last = edge;
    }
}

#[test]
fn full_surface_clip_gives_full_surface_scissor() {
    let s = clip_to_scissor(&rect(0, 0, 800, 600), 256, surface());
    assert_eq!(s, Some(Scissor { left: 0, bottom: 0, width: 800, height: 600 }));
}

#[test]
fn scissor_is_measured_from_the_bottom() {
    let s = clip_to_scissor(&rect(10, 20, 110, 70), 256, surface());
    assert_eq!(s, Some(Scissor { left: 10, bottom: 530, width: 100, height: 50 }));
}

#[test]
fn scissor_at_scale_two() {
    let big = SurfaceSize { width: 1600, height: 1200 };
    let s = clip_to_scissor(&rect(10, 20, 110, 70), 512, big);
    assert_eq!(s, Some(Scissor { left: 20, bottom: 1060, width: 200, height: 100 }));
}

#[test]
fn clip_larger_than_surface_is_cut() {
    let s = clip_to_scissor(&rect(-50, -50, 5000, 5000), 256, surface());
    assert_eq!(s, Some(Scissor { left: 0, bottom: 0, width: 800, height: 600 }));
    let everything = ClipRect { min_x: i32::MIN, min_y: i32::MIN, max_x: i32::MAX, max_y: i32::MAX };
    let s = clip_to_scissor(&everything, 640, surface());
    assert_eq!(s, Some(Scissor { left: 0, bottom: 0, width: 800, height: 600 }));
}

#[test]
fn zero_area_clip_gives_no_scissor() {
    assert_eq!(clip_to_scissor(&rect(10, 10, 10, 50), 256, surface()), None);
    assert_eq!(clip_to_scissor(&rect(10, 10, 50, 10), 256, surface()), None);
    assert_eq!(clip_to_scissor(&rect(0, 0, 0, 0), 256, surface()), None);
}

#[test]
fn inverted_clip_gives_no_scissor() {
    assert_eq!(clip_to_scissor(&rect(50, 10, 20, 40), 256, surface()), None);
    let r = clip_to_pixels(&rect(50, 10, 20, 40), 256, surface());
    assert_eq!(r, PixelRect { min_x: 50, min_y: 10, max_x: 50, max_y: 40 });
}

#[test]
fn clip_outside_the_surface_gives_no_scissor() {
    assert_eq!(clip_to_scissor(&rect(900, 10, 1000, 40), 256, surface()), None);
    assert_eq!(clip_to_scissor(&rect(-100, 10, -10, 40), 256, surface()), None);
}

#[test]
fn clip_thinner_than_a_pixel_may_vanish() {
    // From 10.1 to 10.3 points: both edges round to pixel 10.
    let thin = ClipRect { min_x: 2586, min_y: 0, max_x: 2637, max_y: 600 * ONE };
    assert_eq!(clip_to_scissor(&thin, 256, surface()), None);
}

#[test]
fn clip_on_an_empty_surface_gives_no_scissor() {
    let none = SurfaceSize { width: 0, height: 0 };
    assert_eq!(clip_to_scissor(&rect(0, 0, 800, 600), 256, none), None);
}

#[test]
fn pixel_rect_to_scissor_checks_the_surface() {
    let r = PixelRect { min_x: 1, min_y: 2, max_x: 3, max_y: 5 };
    assert!(!r.is_empty());
    assert_eq!(
        r.to_scissor(SurfaceSize { width: 10, height: 10 }),
        Some(Scissor { left: 1, bottom: 5, width: 2, height: 3 })
    );
    assert_eq!(r.to_scissor(SurfaceSize { width: 10, height: 4 }), None);
    assert_eq!(r.to_scissor(SurfaceSize { width: 2, height: 10 }), None);
    let backwards = PixelRect { min_x: 4, min_y: 2, max_x: 3, max_y: 5 };
    assert!(backwards.is_empty());
    assert_eq!(backwards.to_scissor(SurfaceSize { width: 10, height: 10 }), None);
}
