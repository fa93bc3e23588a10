use camera_overlay::geometry::{Geometry, Rect};

#[test]
fn zero_rectangle_is_all_zero() {
    assert_eq!(Rect::zero(), Rect { x: 0, y: 0, width: 0, height: 0 });
}

#[test]
fn rectangles_and_geometries_compare_by_their_fields() {
    assert_eq!(
        Geometry { x: 180, y: 160, width: 240, height: 240 },
        Geometry { x: 180, y: 160, width: 240, height: 240 }
    );
    assert_ne!(
        Geometry { x: 180, y: 160, width: 240, height: 240 },
        Geometry { x: 180, y: 140, width: 240, height: 240 }
    );
    assert_ne!(Rect { x: 1, y: 0, width: 0, height: 0 }, Rect::zero());
}
