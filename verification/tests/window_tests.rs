use magviz::point::Point;
use magviz::point::PointCloud;
use magviz::projection::PlotProjection;
use magviz::rat::Rat;
use magviz::window::handle_len;
use magviz::window::handle_point;
use magviz::window::preview_buffer;
use magviz::window::side_plot_width;
use magviz::window::Plane;
use magviz::window::Window;

fn pt(x: u64, y: u64, z: u64) -> Point {
    Point { x, y, z }
}

fn test_window() -> Window {
    let points = vec![pt(1, 2, 3), pt(4, 5, 6)];
    let projection = PlotProjection::new(Rat::new(1, 3), Rat::new(1, 6), Rat::new(3, 4));
    Window::new(points, projection)
}

#[test]
fn cow_append_leaves_other_handles_unchanged() {
    let mut w = test_window();
    let before = w.points_handle();
    assert_eq!(handle_len(&before), 2);

    w.add_point(pt(7, 8, 9));

    // The window sees the appended sequence; the earlier handle still sees
    // exactly the sequence it observed before the append.
    assert_eq!(w.point_count(), 3);
    assert_eq!(handle_len(&before), 2);
    assert_eq!(handle_point(&before, 0), pt(1, 2, 3));
    assert_eq!(handle_point(&before, 1), pt(4, 5, 6));

    let after = w.points_handle();
    assert_eq!(handle_point(&after, 2), pt(7, 8, 9));
}

#[test]
fn cow_append_through_sole_handle_extends_it() {
    let mut w = test_window();
    w.add_point(pt(7, 8, 9));
    w.add_point(pt(10, 11, 12));
    assert_eq!(w.point_count(), 4);
    let h = w.points_handle();
    assert_eq!(handle_point(&h, 3), pt(10, 11, 12));
}

#[test]
fn side_plots_select_coordinate_pairs() {
    let w = test_window();
    assert_eq!(w.side_plot_values(Plane::Xy), vec![(1, 2), (4, 5)]);
    assert_eq!(w.side_plot_values(Plane::Yz), vec![(2, 3), (5, 6)]);
    assert_eq!(w.side_plot_values(Plane::Xz), vec![(1, 3), (4, 6)]);
}

#[test]
fn side_plot_width_is_capped_at_300() {
    assert_eq!(side_plot_width(120), 120);
    assert_eq!(side_plot_width(300), 300);
    assert_eq!(side_plot_width(1500), 300);
}

#[test]
fn window_defaults() {
    let w = test_window();
    assert!(w.show_2d_projections);
    assert!(!w.show_bitmap_preview);
    assert_eq!(w.name(), "hello there!");
    let _ = PointCloud::iter();
}

#[test]
fn preview_buffer_is_three_bytes_per_pixel() {
    let buf = preview_buffer(4, 3);
    assert_eq!(buf.len(), 36);
    assert!(buf.iter().all(|&b| b == 0));
}

#[test]
fn window_drag_updates_projection_from_snapshot() {
    let mut w = test_window();
    w.on_drag_begin();
    assert!(w.on_drag_update(Rat::new(500, 1), Rat::new(0, 1), 1000, 500));
    // yaw = 1/3 - 500/1000 = -1/6; pitch and scale unchanged.
    assert!(w.projection.yaw.same_value(&Rat::new(-1, 6)));
    assert!(w.projection.pitch.same_value(&Rat::new(1, 6)));
    assert!(w.projection.scale.same_value(&Rat::new(3, 4)));

    // A later update in the same drag is still relative to the snapshot,
    // not to the intermediate projection.
    assert!(w.on_drag_update(Rat::new(1000, 1), Rat::new(0, 1), 1000, 500));
    assert!(w.projection.yaw.same_value(&Rat::new(1, 3).checked_add(Rat::new(-1, 1)).unwrap()));
    w.on_drag_end();
}

#[test]
fn export_snapshot_is_unaffected_by_later_edits() {
    // An export worker receives a value copy of the projection and its own
    // point handle; projection edits and appends made afterwards are
    // visible in later frames but not through what the worker holds.
    let mut w = test_window();
    let snapshot = w.projection;
    let handle = w.points_handle();

    w.on_drag_begin();
    assert!(w.on_drag_update(Rat::new(500, 1), Rat::new(0, 1), 1000, 500));
    w.on_drag_end();
    w.add_point(pt(9, 9, 9));

    assert!(snapshot.yaw.same_value(&Rat::new(1, 3)));
    assert!(snapshot.pitch.same_value(&Rat::new(1, 6)));
    assert_eq!(handle_len(&handle), 2);
    assert!(!w.projection.yaw.same_value(&snapshot.yaw));
}
