use magviz::backend::bitmap_pixels;
use magviz::backend::Color;
use magviz::backend::EguiBackend;
use magviz::backend::HAlign;
use magviz::backend::ScreenAlign;
use magviz::backend::Shape;
use magviz::backend::Stroke;
use magviz::backend::VAlign;
use magviz::widget::PlottersWidget;
use magviz::widget::Sensitivity;
use magviz::window::rgb_pixels;

fn red_stroke() -> Stroke {
    Stroke { width: 1, color: Color::rgb(255, 0, 0) }
}

#[test]
fn shapes_are_delivered_in_issue_order() {
    let mut b = EguiBackend::new(100, 50, 10, 20);
    b.draw_line((0, 0), (5, 5), red_stroke());
    b.draw_circle((1, 2), 7, red_stroke(), true);
    b.draw_rect((0, 0), (100, 50), red_stroke(), false);
    let (shapes, _) = b.present();
    assert_eq!(shapes.len(), 3);
    assert!(matches!(shapes[0], Shape::Line { .. }));
    assert!(matches!(shapes[1], Shape::CircleFilled { .. }));
    assert!(matches!(shapes[2], Shape::RectStroked { .. }));
    match &shapes[1] {
        Shape::CircleFilled { center, radius, fill } => {
            // The screen transform translated by the widget's corner.
            assert_eq!(*center, (11, 22));
            assert_eq!(*radius, 7);
            assert_eq!(*fill, Color::rgb(255, 0, 0));
        }
        _ => unreachable!(),
    }
}

#[test]
fn present_flushes_and_rotates_textures() {
    let mut b = EguiBackend::new(64, 64, 0, 0);
    b.record_bitmap((3, 4), 8, 8, 42);
    let (shapes, freed) = b.present();
    assert_eq!(shapes.len(), 1);
    match &shapes[0] {
        Shape::Mesh { texture, min, max } => {
            assert_eq!(*texture, 42);
            assert_eq!(*min, (3, 4));
            assert_eq!(*max, (11, 12));
        }
        _ => unreachable!(),
    }
    // Nothing falls due at the first present; the texture allocated in this
    // pass is freed one present later.
    assert!(freed.is_empty());
    let (shapes2, freed2) = b.present();
    assert!(shapes2.is_empty());
    assert_eq!(freed2, vec![42]);
    let (_, freed3) = b.present();
    assert!(freed3.is_empty());
}

#[test]
fn pixel_is_a_unit_rect() {
    let mut b = EguiBackend::new(10, 10, 100, 200);
    b.draw_pixel((4, 5), Color::rgb(0, 0, 0));
    let (shapes, _) = b.present();
    match &shapes[0] {
        Shape::RectFilled { min, max, .. } => {
            assert_eq!(*min, (104, 205));
            assert_eq!(*max, (105, 206));
        }
        _ => unreachable!(),
    }
}

#[test]
fn path_points_are_transformed_in_order() {
    let mut b = EguiBackend::new(10, 10, 1, 1);
    b.draw_path(&vec![(0, 0), (2, 3), (4, 4)], red_stroke());
    let (shapes, _) = b.present();
    match &shapes[0] {
        Shape::Path { points, .. } => {
            assert_eq!(points.as_slice(), &[(1, 1), (3, 4), (5, 5)]);
        }
        _ => unreachable!(),
    }
}

#[test]
fn text_anchor_maps_to_host_alignment() {
    let mut b = EguiBackend::new(10, 10, 0, 0);
    b.draw_text("label", Color::rgb(0, 0, 0), (1, 1), HAlign::Right, VAlign::Center);
    let (shapes, _) = b.present();
    match &shapes[0] {
        Shape::Text { h, v, text, .. } => {
            assert_eq!(*h, ScreenAlign::Max);
            assert_eq!(*v, ScreenAlign::Center);
            assert_eq!(text, "label");
        }
        _ => unreachable!(),
    }
}

#[test]
fn premultiplied_applies_opacity_linearly() {
    // The legend background is white at 75% opacity; composited, its
    // channels scale linearly.
    let c = magviz::scene::legend_background();
    assert_eq!(c, Color { r: 255, g: 255, b: 255, a: 191 });
    let p = c.premultiplied();
    assert_eq!(p, Color { r: 191, g: 191, b: 191, a: 191 });
    assert_eq!(magviz::scene::red(), Color { r: 255, g: 0, b: 0, a: 255 });
    assert_eq!(magviz::scene::black(), Color { r: 0, g: 0, b: 0, a: 255 });
    assert_eq!(magviz::scene::white(), Color { r: 255, g: 255, b: 255, a: 255 });
}

#[test]
fn bitmap_pixels_expand_rgba_chunks() {
    let bytes = vec![1u8, 2, 3, 9, 4, 5, 6, 9];
    let px = bitmap_pixels(&bytes);
    assert_eq!(px.len(), 2);
    assert_eq!(px[0], Color { r: 1, g: 2, b: 3, a: 255 });
    assert_eq!(px[1], Color { r: 4, g: 5, b: 6, a: 255 });
}

#[test]
fn rgb_pixels_expand_rgb_chunks() {
    let bytes = vec![1u8, 2, 3, 4, 5, 6, 7];
    let px = rgb_pixels(&bytes);
    assert_eq!(px.len(), 2);
    assert_eq!(px[0], Color { r: 1, g: 2, b: 3, a: 255 });
    assert_eq!(px[1], Color { r: 4, g: 5, b: 6, a: 255 });
}

#[test]
fn widget_sizing_follows_overrides_and_minimum() {
    let w = PlottersWidget::new();
    assert_eq!(w.resolve_size((500, 30)), (500, 64));
    let w = PlottersWidget::new().width(200).height(100);
    assert_eq!(w.resolve_size((500, 400)), (200, 100));
    let w = PlottersWidget::new().min_size((10, 10)).sense(Sensitivity::ClickAndDrag);
    assert_eq!(w.resolve_size((5, 700)), (10, 700));
    assert_eq!(w.sense, Sensitivity::ClickAndDrag);
}
