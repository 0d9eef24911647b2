use magviz::drag::DragState;
use magviz::projection::PlotProjection;
use magviz::rat::Rat;
use magviz::scene::default_scale;

/// Exact rational carrying the same real value as the finite double `x`.
fn rat_of_f64(x: f64) -> Rat {
    assert!(x.is_finite());
    let mut num: f64 = x;
    let mut den: i64 = 1;
    while num.fract() != 0.0 {
        num *= 2.0;
        den *= 2;
        assert!(den > 0, "value has too many fractional bits");
    }
    Rat::new(num as i64, den)
}

fn approx(r: Rat) -> f64 {
    r.num as f64 / r.den as f64
}

#[test]
fn rational_addition_is_exact() {
    let a = Rat::new(1, 3);
    let b = Rat::new(1, 6);
    let sum = a.checked_add(b).unwrap();
    assert!(sum.same_value(&Rat::new(1, 2)));
}

#[test]
fn rational_addition_reduces() {
    // 1/2 + 1/2 = 1; the stored pair is reduced, so huge denominators do
    // not accumulate over repeated composition.
    let one = Rat::new(1, 2).checked_add(Rat::new(1, 2)).unwrap();
    assert_eq!(one.num, 1);
    assert_eq!(one.den, 1);
}

#[test]
fn rational_negation_and_division() {
    let x = Rat::new(250, 1).neg().checked_div_int(1000).unwrap();
    assert!(x.same_value(&Rat::new(-1, 4)));
}

#[test]
fn projection_composition_is_componentwise() {
    let a = PlotProjection::new(Rat::new(1, 3), Rat::new(1, 6), Rat::new(3, 4));
    let b = PlotProjection::new(Rat::new(1, 4), Rat::new(-1, 5), Rat::new(0, 1));
    let c = a.add(b).unwrap();
    assert!(c.yaw.same_value(&a.yaw.checked_add(b.yaw).unwrap()));
    assert!(c.pitch.same_value(&a.pitch.checked_add(b.pitch).unwrap()));
    assert!(c.scale.same_value(&a.scale.checked_add(b.scale).unwrap()));
    assert!(c.yaw.same_value(&Rat::new(7, 12)));
    assert!(c.pitch.same_value(&Rat::new(-1, 30)));
    assert!(c.scale.same_value(&Rat::new(3, 4)));
}

#[test]
fn same_view_compares_denoted_values() {
    let a = PlotProjection::new(Rat::new(1, 3), Rat::new(1, 6), Rat::new(3, 4));
    let b = PlotProjection::new(Rat::new(2, 6), Rat::new(2, 12), Rat::new(6, 8));
    assert!(a.same_view(&b));
    let c = PlotProjection::new(Rat::new(1, 3), Rat::new(1, 5), Rat::new(3, 4));
    assert!(!a.same_view(&c));
}

#[test]
fn default_scale_is_three_quarters() {
    let s = default_scale();
    assert_eq!(s.num, 3);
    assert_eq!(s.den, 4);
}

#[test]
fn drag_mapping_is_exact() {
    // A horizontal drag of 250 px over a 1000 px wide widget changes yaw by
    // exactly -250/1000 relative to the snapshot; a vertical drag of -100 px
    // over 500 px height changes pitch by exactly -1/5; scale is untouched.
    let start = PlotProjection::new(Rat::new(1, 3), Rat::new(1, 6), Rat::new(3, 4));
    let mut drag = DragState::Idle;
    drag.begin(start);
    let moved = drag
        .update(Rat::new(250, 1), Rat::new(-100, 1), 1000, 500)
        .unwrap();
    assert!(moved.yaw.same_value(&Rat::new(1, 3).checked_add(Rat::new(-1, 4)).unwrap()));
    assert!(moved.pitch.same_value(&Rat::new(1, 6).checked_add(Rat::new(-1, 5)).unwrap()));
    assert!(moved.scale.same_value(&Rat::new(3, 4)));
}

#[test]
fn drag_rotation_scenario() {
    // Start at {yaw = pi/3, pitch = pi/6, scale = 0.75} on a 1000 x 500
    // widget and drag by (+250, -100): yaw ends at pi/3 - 0.25 (exactly,
    // since 1/4 is dyadic), pitch at pi/6 - 0.2, scale stays 0.75.
    let start = PlotProjection::new(
        rat_of_f64(std::f64::consts::FRAC_PI_3),
        rat_of_f64(std::f64::consts::FRAC_PI_6),
        Rat::new(3, 4),
    );
    let mut drag = DragState::Idle;
    drag.begin(start);
    let moved = drag
        .update(Rat::new(250, 1), Rat::new(-100, 1), 1000, 500)
        .unwrap();

    let expected_yaw = rat_of_f64(std::f64::consts::FRAC_PI_3 - 0.25);
    assert!(moved.yaw.same_value(&expected_yaw));

    let expected_pitch = rat_of_f64(std::f64::consts::FRAC_PI_6)
        .checked_add(Rat::new(-1, 5))
        .unwrap();
    assert!(moved.pitch.same_value(&expected_pitch));
    assert!((approx(moved.pitch) - (std::f64::consts::FRAC_PI_6 - 0.2)).abs() < 1e-12);

    assert!(moved.scale.same_value(&Rat::new(3, 4)));
}

#[test]
fn drag_end_then_new_drag_resnapshots() {
    let first = PlotProjection::new(Rat::new(0, 1), Rat::new(0, 1), Rat::new(3, 4));
    let mut drag = DragState::Idle;
    drag.begin(first);
    let after_first = drag.update(Rat::new(100, 1), Rat::new(0, 1), 1000, 500).unwrap();
    drag.end();

    // The next drag is relative to the projection where the last one ended,
    // not to the first snapshot.
    drag.begin(after_first);
    let after_second = drag.update(Rat::new(100, 1), Rat::new(0, 1), 1000, 500).unwrap();
    assert!(after_second.yaw.same_value(&Rat::new(-1, 5)));
}
