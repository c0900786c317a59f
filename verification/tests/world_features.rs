//! World-space strokes and the index that finds them.

use terra_app::world_features::{
    BoundsChange, FeatureIndex, StrokeId, WorldBounds, WorldFeatures, WorldStroke,
};

fn around(x_m: f64, z_m: f64, radius_m: f64) -> WorldBounds {
    WorldBounds {
        min_x_bits: (x_m - radius_m).to_bits(),
        min_z_bits: (z_m - radius_m).to_bits(),
        max_x_bits: (x_m + radius_m).to_bits(),
        max_z_bits: (z_m + radius_m).to_bits(),
    }
}

fn moved_by(bounds: WorldBounds, dx_m: f64, dz_m: f64) -> WorldBounds {
    let shifted = |bits: u64, by: f64| (f64::from_bits(bits) + by).to_bits();
    WorldBounds {
        min_x_bits: shifted(bounds.min_x_bits, dx_m),
        min_z_bits: shifted(bounds.min_z_bits, dz_m),
        max_x_bits: shifted(bounds.max_x_bits, dx_m),
        max_z_bits: shifted(bounds.max_z_bits, dz_m),
    }
}

fn empty() -> WorldFeatures {
    WorldFeatures::of_document(Vec::new())
}

#[test]
fn infinite_sculpt_edit_actions_leave_no_stale_index_entry() {
    let stroke = StrokeId(7);
    let mut features = empty();
    features.stamp(stroke, around(-40.0, 10.0, 5.0));
    let old = features.index.bounds(stroke).unwrap();
    assert!(features.move_stroke(stroke, moved_by(old, 100.0, -25.0)));
    let moved = features.index.bounds(stroke).unwrap();
    assert_eq!(
        f64::from_bits(moved.min_x_bits),
        f64::from_bits(old.min_x_bits) + 100.0
    );
    assert_eq!(
        f64::from_bits(moved.min_z_bits),
        f64::from_bits(old.min_z_bits) - 25.0
    );

    assert!(features.set_enabled(stroke, false));
    assert!(features.index.bounds(stroke).is_none());
    assert!(features.set_enabled(stroke, true));
    assert!(features.index.bounds(stroke).is_some());
    let before = features.strokes.clone();
    assert!(features.delete(stroke));
    assert!(features.index.bounds(stroke).is_none());
    let after = features.strokes.clone();
    let undone = WorldFeatures::of_document(before);
    assert_eq!(
        undone.index.bounds(stroke),
        Some(moved),
        "undo restores the same stable feature identity and bounds"
    );
    let redone = WorldFeatures::of_document(after);
    assert!(redone.index.bounds(stroke).is_none());
}

#[test]
fn a_stroke_that_is_drawn_on_keeps_its_identity() {
    let stroke = StrokeId(1);
    let other = StrokeId(2);
    let mut features = empty();
    features.stamp(stroke, around(-300.25, -5.0, 20.0));
    features.stamp(other, around(0.0, 0.0, 1.0));
    features.stamp(stroke, around(300.75, 8.0, 20.0));
    assert_eq!(features.strokes.len(), 2);
    assert_eq!(features.strokes[0].id, stroke);
    assert_eq!(
        features.index.bounds(stroke),
        Some(around(300.75, 8.0, 20.0))
    );
    assert_eq!(features.index.bounds(other), Some(around(0.0, 0.0, 1.0)));
}

#[test]
fn unknown_strokes_change_nothing() {
    let mut features = empty();
    features.stamp(StrokeId(1), around(1.0, 2.0, 3.0));
    assert!(!features.delete(StrokeId(2)));
    assert!(!features.set_enabled(StrokeId(2), false));
    assert!(!features.move_stroke(StrokeId(2), around(0.0, 0.0, 1.0)));
    assert_eq!(features.strokes.len(), 1);
    assert!(features.index.bounds(StrokeId(1)).is_some());
    assert!(features.index.bounds(StrokeId(2)).is_none());
}

#[test]
fn the_index_holds_the_strokes_that_are_on() {
    let bounds = around(1.0, 1.0, 1.0);
    let stroke = |id: u128, enabled: bool| WorldStroke {
        id: StrokeId(id),
        enabled,
        bounds,
    };
    let mut index = FeatureIndex::rebuild_authored_feature_index(&[
        stroke(1, true),
        stroke(2, false),
        stroke(3, true),
    ]);
    assert_eq!(index.bounds(StrokeId(1)), Some(bounds));
    assert_eq!(index.bounds(StrokeId(2)), None);
    assert_eq!(index.bounds(StrokeId(3)), Some(bounds));
    let elsewhere = around(9.0, 9.0, 1.0);
    index.apply_sculpt_bounds_change(BoundsChange {
        stroke: StrokeId(1),
        bounds: Some(elsewhere),
    });
    index.apply_sculpt_bounds_change(BoundsChange {
        stroke: StrokeId(3),
        bounds: None,
    });
    assert_eq!(index.bounds(StrokeId(1)), Some(elsewhere));
    assert_eq!(index.bounds(StrokeId(3)), None);
    assert_eq!(index.entries.len(), 1);
}
