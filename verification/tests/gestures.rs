use musettir::color::Rgb;
use musettir::image::ImageInfo;
use musettir::models::Model;

fn model_with_image() -> Model {
    let mut m = Model::new();
    m.set_pixbuf(ImageInfo {
        width: 640,
        height: 480,
    });
    m
}

#[test]
fn new_model_has_empty_defaults() {
    let m = Model::new();
    assert!(m.current_image_path.is_none());
    assert!(m.current_pixbuf.is_none());
    assert!(m.rectangles.is_empty());
    assert!(m.drawing_rectangle.is_none());
    assert!(!m.is_drawing);
    assert_eq!(m.current_color, Rgb { r: 255, g: 0, b: 0 });
}

#[test]
fn update_tracks_signed_pointer_deltas() {
    let mut m = model_with_image();
    m.start_drawing(10, 10);
    m.update_drawing(25, 40);
    let r = m.drawing_rectangle.unwrap();
    assert_eq!(r.x, 10);
    assert_eq!(r.y, 10);
    assert_eq!(r.width, 15);
    assert_eq!(r.height, 30);

    m.update_drawing(4, 7);
    let r = m.drawing_rectangle.unwrap();
    assert_eq!(r.width, -6);
    assert_eq!(r.height, -3);
}

#[test]
fn start_without_image_is_ignored() {
    let mut m = Model::new();
    m.start_drawing(10, 10);
    assert!(!m.is_drawing);
    assert!(m.drawing_rectangle.is_none());
}

#[test]
fn start_during_gesture_keeps_anchor() {
    let mut m = model_with_image();
    m.start_drawing(10, 10);
    m.start_drawing(200, 200);
    let r = m.drawing_rectangle.unwrap();
    assert_eq!(r.x, 10);
    assert_eq!(r.y, 10);
}

#[test]
fn update_without_gesture_is_ignored() {
    let mut m = model_with_image();
    m.update_drawing(50, 50);
    assert!(m.drawing_rectangle.is_none());
    assert!(m.rectangles.is_empty());
}

#[test]
fn small_drag_is_discarded() {
    let mut m = model_with_image();
    m.start_drawing(10, 10);
    m.update_drawing(20, 14);
    m.finish_drawing();
    assert!(m.rectangles.is_empty());
    assert!(!m.is_drawing);
    assert!(m.drawing_rectangle.is_none());
}

#[test]
fn large_drag_commits_one_rectangle() {
    let mut m = model_with_image();
    m.start_drawing(10, 10);
    m.update_drawing(50, 60);
    m.finish_drawing();
    assert_eq!(m.rectangles.len(), 1);
    let r = m.rectangles[0];
    assert_eq!(r.x, 10);
    assert_eq!(r.y, 10);
    assert_eq!(r.width, 40);
    assert_eq!(r.height, 50);
    assert!(!m.is_drawing);
    assert!(m.drawing_rectangle.is_none());
}

#[test]
fn drag_of_exactly_the_threshold_is_discarded() {
    let mut m = model_with_image();
    m.start_drawing(10, 10);
    m.update_drawing(15, 60);
    m.finish_drawing();
    assert!(m.rectangles.is_empty());

    m.start_drawing(10, 10);
    m.update_drawing(60, 5);
    m.finish_drawing();
    assert!(m.rectangles.is_empty());

    m.start_drawing(10, 10);
    m.update_drawing(16, 16);
    m.finish_drawing();
    assert_eq!(m.rectangles.len(), 1);
    assert_eq!(m.rectangles[0].width, 6);
    assert_eq!(m.rectangles[0].height, 6);
}

#[test]
fn committed_color_is_the_one_at_gesture_start() {
    let mut m = model_with_image();
    let blue = Rgb { r: 0, g: 0, b: 255 };
    let green = Rgb { r: 0, g: 255, b: 0 };
    m.set_color(blue);
    m.start_drawing(0, 0);
    m.set_color(green);
    m.update_drawing(100, 100);
    m.finish_drawing();
    assert_eq!(m.rectangles.len(), 1);
    assert_eq!(m.rectangles[0].color, blue);
    assert_eq!(m.current_color, green);
}

#[test]
fn set_color_leaves_in_progress_rectangle_alone() {
    let mut m = model_with_image();
    let blue = Rgb { r: 0, g: 0, b: 255 };
    let green = Rgb { r: 0, g: 255, b: 0 };
    m.set_color(blue);
    m.start_drawing(5, 5);
    m.update_drawing(30, 30);
    m.set_color(green);
    let r = m.drawing_rectangle.unwrap();
    assert_eq!(r.color, blue);
    assert_eq!(r.x, 5);
    assert_eq!(r.width, 25);
}

#[test]
fn negative_drag_commits_unnormalized_extents() {
    let mut m = model_with_image();
    m.start_drawing(10, 10);
    m.update_drawing(-10, 40);
    m.finish_drawing();
    assert_eq!(m.rectangles.len(), 1);
    let r = m.rectangles[0];
    assert_eq!(r.x, 10);
    assert_eq!(r.width, -20);
    assert_eq!(r.height, 30);
    let (nx, ny, nw, nh) = r.normalized();
    assert_eq!(nx, -10);
    assert_eq!(ny, 10);
    assert_eq!(nw, 20);
    assert_eq!(nh, 30);
    assert_eq!(nx + nw, 10);
}

#[test]
fn finish_without_gesture_is_harmless() {
    let mut m = model_with_image();
    m.finish_drawing();
    assert!(m.rectangles.is_empty());
    assert!(!m.is_drawing);
}
