use egui_glium::table::{NativeTexture, Painter, TextureAction, TextureError, TexturesDelta};
use egui_glium::texture::{
    premultiply, AlphaMode, Filter, ImagePatch, Rgba, TextureId, TextureOptions, WrapMode,
};

fn options() -> TextureOptions {
    TextureOptions { magnification: Filter::Linear, minification: Filter::Linear, wrap: WrapMode::Clamp }
}

fn grey(v: u8) -> Rgba {
    Rgba { r: v, g: v, b: v, a: 255 }
}

fn whole(width: usize, height: usize, pixels: Vec<Rgba>) -> ImagePatch {
    ImagePatch { pos: None, width, height, pixels, alpha: AlphaMode::Premultiplied, options: options() }
}

fn part(x: usize, y: usize, width: usize, height: usize, pixels: Vec<Rgba>) -> ImagePatch {
    ImagePatch { pos: Some((x, y)), width, height, pixels, alpha: AlphaMode::Premultiplied, options: options() }
}

fn numbered(count: usize) -> Vec<Rgba> {
    (0..count).map(|i| grey(i as u8)).collect()
}

#[test]
fn premultiply_scales_colour_by_alpha() {
    let p = premultiply(Rgba { r: 255, g: 128, b: 10, a: 128 });
    assert_eq!(p, Rgba { r: 128, g: 64, b: 5, a: 128 });
}

#[test]
fn premultiply_keeps_opaque_and_clears_transparent() {
    let opaque = Rgba { r: 12, g: 200, b: 255, a: 255 };
    assert_eq!(premultiply(opaque), opaque);
    assert_eq!(premultiply(Rgba { r: 12, g: 200, b: 255, a: 0 }), Rgba { r: 0, g: 0, b: 0, a: 0 });
}

#[test]
fn gpu_pixels_follow_the_alpha_mode() {
    let px = vec![Rgba { r: 200, g: 100, b: 50, a: 51 }];
    let mut patch = whole(1, 1, px.clone());
    assert_eq!(patch.gpu_pixels(), px);
    patch.alpha = AlphaMode::Straight;
    assert_eq!(patch.gpu_pixels(), vec![Rgba { r: 40, g: 20, b: 10, a: 51 }]);
}

#[test]
fn patch_completeness() {
    assert!(whole(2, 3, numbered(6)).is_complete());
    assert!(!whole(2, 3, numbered(5)).is_complete());
    assert!(whole(0, 7, vec![]).is_complete());
    assert!(!whole(usize::MAX, 2, vec![]).is_complete());
}

#[test]
fn new_painter_is_empty() {
    let p = Painter::new(2048);
    assert_eq!(p.max_texture_side(), 2048);
    assert!(p.texture(TextureId::Managed(0)).is_none());
    assert!(p.native_texture(TextureId::User(0)).is_none());
}

#[test]
fn first_whole_image_allocates() {
    let mut p = Painter::new(2048);
    let r = p.set_texture(TextureId::Managed(7), &whole(4, 2, numbered(8)));
    assert_eq!(r, Ok(TextureAction::Allocate { id: 7, width: 4, height: 2 }));
    let t = p.texture(TextureId::Managed(7)).unwrap();
    assert_eq!((t.width(), t.height()), (4, 2));
    assert_eq!(t.options(), options());
    assert_eq!(t.pixel(0, 0), Some(grey(0)));
    assert_eq!(t.pixel(3, 0), Some(grey(3)));
    assert_eq!(t.pixel(0, 1), Some(grey(4)));
    assert_eq!(t.pixel(3, 1), Some(grey(7)));
    assert_eq!(t.pixel(4, 0), None);
    assert_eq!(t.pixel(0, 2), None);
}

#[test]
fn whole_image_of_same_size_uploads_in_place() {
    let mut p = Painter::new(2048);
    p.set_texture(TextureId::Managed(1), &whole(2, 2, numbered(4))).unwrap();
    let r = p.set_texture(TextureId::Managed(1), &whole(2, 2, vec![grey(9); 4]));
    assert_eq!(r, Ok(TextureAction::Upload { id: 1, x: 0, y: 0, width: 2, height: 2 }));
    let t = p.texture(TextureId::Managed(1)).unwrap();
    assert_eq!(t.pixel(1, 1), Some(grey(9)));
    assert_eq!(t.pixel(0, 0), Some(grey(9)));
}

#[test]
fn whole_image_of_other_size_reallocates() {
    let mut p = Painter::new(2048);
    p.set_texture(TextureId::Managed(1), &whole(2, 2, numbered(4))).unwrap();
    let r = p.set_texture(TextureId::Managed(1), &whole(3, 1, numbered(3)));
    assert_eq!(r, Ok(TextureAction::Allocate { id: 1, width: 3, height: 1 }));
    let t = p.texture(TextureId::Managed(1)).unwrap();
    assert_eq!((t.width(), t.height()), (3, 1));
    assert_eq!(t.pixel(2, 0), Some(grey(2)));
}

#[test]
fn partial_update_keeps_pixels_outside() {
    let mut p = Painter::new(2048);
    p.set_texture(TextureId::Managed(3), &whole(4, 4, numbered(16))).unwrap();
    let new = vec![grey(100), grey(101), grey(102), grey(103)];
    let r = p.set_texture(TextureId::Managed(3), &part(0, 0, 2, 2, new));
    assert_eq!(r, Ok(TextureAction::Upload { id: 3, x: 0, y: 0, width: 2, height: 2 }));
    let t = p.texture(TextureId::Managed(3)).unwrap();
    let mut kept = 0;
    let mut updated = 0;
    for row in 0..4 {
        for col in 0..4 {
            let got = t.pixel(col, row).unwrap();
            if col < 2 && row < 2 {
                assert_eq!(got, grey(100 + (row * 2 + col) as u8));
                updated += 1;
            } else {
                assert_eq!(got, grey((row * 4 + col) as u8));
                kept += 1;
            }
        }
    }
    assert_eq!((kept, updated), (12, 4));
}

#[test]
fn partial_update_in_the_middle() {
    let mut p = Painter::new(2048);
    p.set_texture(TextureId::Managed(3), &whole(5, 4, numbered(20))).unwrap();
    let new: Vec<Rgba> = (0..6).map(|i| grey(200 + i)).collect();
    let r = p.set_texture(TextureId::Managed(3), &part(2, 1, 3, 2, new));
    assert_eq!(r, Ok(TextureAction::Upload { id: 3, x: 2, y: 1, width: 3, height: 2 }));
    let t = p.texture(TextureId::Managed(3)).unwrap();
    let expect: [u8; 20] = [
        0, 1, 2, 3, 4, //
        5, 6, 200, 201, 202, //
        10, 11, 203, 204, 205, //
        15, 16, 17, 18, 19,
    ];
    for row in 0..4 {
        for col in 0..5 {
            assert_eq!(t.pixel(col, row), Some(grey(expect[row * 5 + col])));
        }
    }
}

#[test]
fn straight_alpha_patch_is_stored_premultiplied() {
    let mut p = Painter::new(16);
    let mut patch = whole(1, 1, vec![Rgba { r: 255, g: 0, b: 100, a: 128 }]);
    patch.alpha = AlphaMode::Straight;
    p.set_texture(TextureId::Managed(0), &patch).unwrap();
    let t = p.texture(TextureId::Managed(0)).unwrap();
    assert_eq!(t.pixel(0, 0), Some(Rgba { r: 128, g: 0, b: 50, a: 128 }));
}

#[test]
fn set_on_native_id_is_a_fault() {
    let mut p = Painter::new(2048);
    let r = p.set_texture(TextureId::User(0), &whole(1, 1, numbered(1)));
    assert_eq!(r, Err(TextureError::NativeId));
}

#[test]
fn patch_with_wrong_pixel_count_is_a_fault() {
    let mut p = Painter::new(2048);
    let r = p.set_texture(TextureId::Managed(0), &whole(2, 2, numbered(3)));
    assert_eq!(r, Err(TextureError::PixelCountMismatch));
    assert!(p.texture(TextureId::Managed(0)).is_none());
}

#[test]
fn image_beyond_the_device_limit_is_a_fault() {
    let mut p = Painter::new(4);
    assert_eq!(p.set_texture(TextureId::Managed(0), &whole(5, 1, numbered(5))), Err(TextureError::TooLarge));
    assert_eq!(p.set_texture(TextureId::Managed(0), &whole(1, 5, numbered(5))), Err(TextureError::TooLarge));
    assert_eq!(
        p.set_texture(TextureId::Managed(0), &whole(4, 4, numbered(16))),
        Ok(TextureAction::Allocate { id: 0, width: 4, height: 4 })
    );
}

#[test]
fn partial_update_of_unknown_id_is_a_fault() {
    let mut p = Painter::new(2048);
    let r = p.set_texture(TextureId::Managed(5), &part(0, 0, 1, 1, numbered(1)));
    assert_eq!(r, Err(TextureError::UnknownTexture));
    assert!(p.texture(TextureId::Managed(5)).is_none());
}

#[test]
fn partial_update_beyond_the_texture_is_a_fault() {
    let mut p = Painter::new(2048);
    p.set_texture(TextureId::Managed(5), &whole(4, 4, numbered(16))).unwrap();
    assert_eq!(p.set_texture(TextureId::Managed(5), &part(3, 0, 2, 1, numbered(2))), Err(TextureError::OutOfBounds));
    assert_eq!(p.set_texture(TextureId::Managed(5), &part(0, 4, 1, 1, numbered(1))), Err(TextureError::OutOfBounds));
    assert_eq!(
        p.set_texture(TextureId::Managed(5), &part(usize::MAX, 0, 1, 1, numbered(1))),
        Err(TextureError::OutOfBounds)
    );
    let t = p.texture(TextureId::Managed(5)).unwrap();
    for i in 0..16 {
        assert_eq!(t.pixel(i % 4, i / 4), Some(grey(i as u8)));
    }
}

#[test]
fn free_removes_the_texture() {
    let mut p = Painter::new(2048);
    p.set_texture(TextureId::Managed(2), &whole(1, 1, numbered(1))).unwrap();
    assert_eq!(p.free_texture(TextureId::Managed(2)), Ok(TextureAction::Release { id: 2 }));
    assert!(p.texture(TextureId::Managed(2)).is_none());
}

#[test]
fn second_free_is_reported_and_changes_nothing() {
    let mut p = Painter::new(2048);
    p.set_texture(TextureId::Managed(2), &whole(1, 1, numbered(1))).unwrap();
    p.set_texture(TextureId::Managed(3), &whole(1, 1, vec![grey(50)])).unwrap();
    assert_eq!(p.free_texture(TextureId::Managed(2)), Ok(TextureAction::Release { id: 2 }));
    assert_eq!(p.free_texture(TextureId::Managed(2)), Err(TextureError::UnknownTexture));
    assert!(p.texture(TextureId::Managed(2)).is_none());
    assert_eq!(p.texture(TextureId::Managed(3)).unwrap().pixel(0, 0), Some(grey(50)));
}

#[test]
fn free_of_native_id_through_the_delta_is_a_fault() {
    let mut p = Painter::new(2048);
    let id = p.register_native_texture(99, options()).unwrap();
    assert_eq!(p.free_texture(id), Err(TextureError::NativeId));
    assert_eq!(p.native_texture(id), Some(NativeTexture { handle: 99, options: options() }));
}

#[test]
fn native_ids_are_fresh() {
    let mut p = Painter::new(2048);
    let a = p.register_native_texture(99, options()).unwrap();
    let b = p.register_native_texture(99, options()).unwrap();
    assert_eq!(a, TextureId::User(0));
    assert_eq!(b, TextureId::User(1));
    assert!(p.free_native_texture(a));
    assert!(!p.free_native_texture(a));
    assert_eq!(p.native_texture(a), None);
    assert_eq!(p.native_texture(b), Some(NativeTexture { handle: 99, options: options() }));
    let c = p.register_native_texture(5, options()).unwrap();
    assert_eq!(c, TextureId::User(2));
}

#[test]
fn free_native_leaves_managed_ids_alone() {
    let mut p = Painter::new(2048);
    p.set_texture(TextureId::Managed(0), &whole(1, 1, numbered(1))).unwrap();
    assert!(!p.free_native_texture(TextureId::Managed(0)));
    assert!(p.texture(TextureId::Managed(0)).is_some());
}

#[test]
fn delta_reports_one_entry_per_operation() {
    let mut p = Painter::new(2048);
    let mut d = TexturesDelta::new();
    assert!(d.is_empty());
    d.set.push((TextureId::Managed(1), whole(2, 2, numbered(4))));
    d.set.push((TextureId::Managed(1), part(1, 1, 1, 1, vec![grey(77)])));
    d.set.push((TextureId::Managed(2), part(0, 0, 1, 1, vec![grey(1)])));
    d.set.push((TextureId::Managed(4), whole(1, 1, vec![grey(4)])));
    d.free.push(TextureId::Managed(4));
    d.free.push(TextureId::Managed(9));
    d.free.push(TextureId::User(0));
    assert!(!d.is_empty());
    let out = p.apply_texture_delta(&d);
    assert_eq!(
        out,
        vec![
            Ok(TextureAction::Allocate { id: 1, width: 2, height: 2 }),
            Ok(TextureAction::Upload { id: 1, x: 1, y: 1, width: 1, height: 1 }),
            Err(TextureError::UnknownTexture),
            Ok(TextureAction::Allocate { id: 4, width: 1, height: 1 }),
            Ok(TextureAction::Release { id: 4 }),
            Err(TextureError::UnknownTexture),
            Err(TextureError::NativeId),
        ]
    );
    let t = p.texture(TextureId::Managed(1)).unwrap();
    assert_eq!(t.pixel(1, 1), Some(grey(77)));
    assert_eq!(t.pixel(0, 1), Some(grey(2)));
    assert!(p.texture(TextureId::Managed(2)).is_none());
    assert!(p.texture(TextureId::Managed(4)).is_none());
}

#[test]
fn deltas_applied_in_turn_equal_their_operations_in_one_row() {
    let first = vec![(TextureId::Managed(1), whole(2, 1, numbered(2)))];
    let second = vec![(TextureId::Managed(1), part(1, 0, 1, 1, vec![grey(60)]))];

    let mut in_turn = Painter::new(64);
    in_turn.apply_texture_delta(&TexturesDelta { set: first.clone(), free: vec![] });
    in_turn.apply_texture_delta(&TexturesDelta { set: second.clone(), free: vec![] });

    let mut at_once = Painter::new(64);
    let mut all = first;
    all.extend(second);
    at_once.apply_texture_delta(&TexturesDelta { set: all, free: vec![] });

    for col in 0..2 {
        assert_eq!(
            in_turn.texture(TextureId::Managed(1)).unwrap().pixel(col, 0),
            at_once.texture(TextureId::Managed(1)).unwrap().pixel(col, 0)
        );
    }
    assert_eq!(at_once.texture(TextureId::Managed(1)).unwrap().pixel(1, 0), Some(grey(60)));
}

#[test]
fn append_puts_the_newer_delta_behind() {
    let mut d = TexturesDelta::new();
    d.set.push((TextureId::Managed(1), whole(1, 1, vec![grey(1)])));
    d.free.push(TextureId::Managed(8));
    let mut newer = TexturesDelta::new();
    newer.set.push((TextureId::Managed(2), whole(1, 1, vec![grey(2)])));
    newer.free.push(TextureId::Managed(9));
    d.append(newer);
    let ids: Vec<TextureId> = d.set.iter().map(|e| e.0).collect();
    assert_eq!(ids, vec![TextureId::Managed(1), TextureId::Managed(2)]);
    assert_eq!(d.free, vec![TextureId::Managed(8), TextureId::Managed(9)]);
}
