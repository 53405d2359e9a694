use musettir::color::Rgb;
use musettir::image::ImageInfo;
use musettir::models::{LoadError, Model};

fn model_with_two_rectangles() -> Model {
    let mut m = Model::new();
    m.set_pixbuf(ImageInfo {
        width: 320,
        height: 200,
    });
    m.set_image_path(String::from("first.png"));
    m.start_drawing(0, 0);
    m.update_drawing(20, 20);
    m.finish_drawing();
    m.start_drawing(30, 30);
    m.update_drawing(60, 70);
    m.finish_drawing();
    assert_eq!(m.rectangles.len(), 2);
    m
}

#[test]
fn successful_load_replaces_image_and_clears_rectangles() {
    let mut m = model_with_two_rectangles();
    let decoded = ImageInfo {
        width: 800,
        height: 600,
    };
    let res = m.load_image(String::from("second.png"), Some(decoded));
    assert!(res.is_ok());
    assert_eq!(m.current_pixbuf, Some(decoded));
    assert_eq!(m.current_image_path.as_deref(), Some("second.png"));
    assert!(m.rectangles.is_empty());
    assert_eq!(m.current_color, Rgb { r: 255, g: 0, b: 0 });
}

#[test]
fn failed_load_leaves_state_untouched() {
    let mut m = model_with_two_rectangles();
    let before_path = m.current_image_path.clone();
    let before_pixbuf = m.current_pixbuf;
    let before_rects = m.rectangles.clone();
    let res = m.load_image(String::from("missing.png"), None);
    assert_eq!(res, Err(LoadError::Unreadable));
    assert_eq!(m.current_image_path, before_path);
    assert_eq!(m.current_pixbuf, before_pixbuf);
    assert_eq!(m.rectangles.len(), before_rects.len());
    for (a, b) in m.rectangles.iter().zip(before_rects.iter()) {
        assert_eq!(a, b);
    }
}

#[test]
fn setters_record_path_and_pixbuf() {
    let mut m = Model::new();
    m.set_image_path(String::from("photo.jpg"));
    assert_eq!(m.current_image_path.as_deref(), Some("photo.jpg"));
    m.set_pixbuf(ImageInfo {
        width: 12,
        height: 34,
    });
    assert_eq!(
        m.current_pixbuf,
        Some(ImageInfo {
            width: 12,
            height: 34
        })
    );
}

#[test]
fn resize_shrinks_oversized_image_to_fit() {
    let img = ImageInfo {
        width: 1600,
        height: 800,
    };
    let r = img.resize_to_fit(800);
    assert_eq!(r.width, 800);
    assert_eq!(r.height, 400);

    let tall = ImageInfo {
        width: 500,
        height: 1000,
    };
    let r = tall.resize_to_fit(800);
    assert_eq!(r.width, 400);
    assert_eq!(r.height, 800);
}

#[test]
fn resize_never_upscales() {
    let img = ImageInfo {
        width: 400,
        height: 300,
    };
    let r = img.resize_to_fit(800);
    assert_eq!(r.width, 400);
    assert_eq!(r.height, 300);

    let exact = ImageInfo {
        width: 800,
        height: 800,
    };
    let r = exact.resize_to_fit(800);
    assert_eq!(r.width, 800);
    assert_eq!(r.height, 800);
}
