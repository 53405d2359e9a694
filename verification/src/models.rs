use vstd::prelude::*;

use crate::color::Rgb;
use crate::image::ImageInfo;

verus! {

/// Pointer coordinates accepted by the gesture operations, in either
/// direction along each axis.  The bound keeps every coordinate
/// difference far inside the range of `i64`.
pub const MAX_COORD: i64 = 1073741824;

/// A drag must exceed this extent, in magnitude, on both axes before
/// its rectangle is committed; smaller drags are discarded.
pub const MIN_DRAG: i64 = 5;

/// A coordinate a gesture may carry.
pub open spec fn coord_in_range(x: int) -> bool {
    -(MAX_COORD as int) <= x <= MAX_COORD as int
}

/// A width or height reachable as the difference of two coordinates.
pub open spec fn extent_in_range(w: int) -> bool {
    -2 * (MAX_COORD as int) <= w <= 2 * (MAX_COORD as int)
}

/// Whether one side of a drag is large enough to commit.
pub open spec fn exceeds_min_drag(w: int) -> bool {
    w > MIN_DRAG as int || w < -(MIN_DRAG as int)
}

/// A rectangular annotation.  `x, y` is the corner where the gesture
/// started; `width` and `height` are signed offsets to the opposite
/// corner, negative when the drag went up or left.  The color is the
/// one selected when the gesture started.
#[derive(Clone, Copy, Debug, PartialEq, Eq, Structural)]
pub struct Rectangle {
    pub x: i64,
    pub y: i64,
    pub width: i64,
    pub height: i64,
    pub color: Rgb,
}

/// The mathematical value of a [`Rectangle`].
pub struct RectView {
    pub x: int,
    pub y: int,
    pub width: int,
    pub height: int,
    pub color: Rgb,
}

impl View for Rectangle {
    type V = RectView;

    open spec fn view(&self) -> RectView {
        RectView {
            x: self.x as int,
            y: self.y as int,
            width: self.width as int,
            height: self.height as int,
            color: self.color,
        }
    }
}

impl RectView {
    /// Coordinates within gesture range, extents within the range of
    /// a coordinate difference.
    pub open spec fn wf(self) -> bool {
        &&& coord_in_range(self.x)
        &&& coord_in_range(self.y)
        &&& extent_in_range(self.width)
        &&& extent_in_range(self.height)
    }

    /// Leftmost edge, whatever the sign of `width`.
    pub open spec fn norm_x(self) -> int {
        if self.width < 0 {
            self.x + self.width
        } else {
            self.x
        }
    }

    /// Topmost edge, whatever the sign of `height`.
    pub open spec fn norm_y(self) -> int {
        if self.height < 0 {
            self.y + self.height
        } else {
            self.y
        }
    }

    /// Magnitude of `width`.
    pub open spec fn norm_width(self) -> int {
        if self.width < 0 {
            -self.width
        } else {
            self.width
        }
    }

    /// Magnitude of `height`.
    pub open spec fn norm_height(self) -> int {
        if self.height < 0 {
            -self.height
        } else {
            self.height
        }
    }
}

impl Rectangle {
    /// The same region with nonnegative extents: the corner returned
    /// first is the top-left one, and the returned width and height
    /// are the magnitudes of the stored ones.  Drawing primitives
    /// that do not accept negative extents can be handed this form.
    pub fn normalized(&self) -> (r: (i64, i64, i64, i64))
        requires
            self@.wf(),
        ensures
            r.0 == self@.norm_x(),
            r.1 == self@.norm_y(),
            r.2 == self@.norm_width(),
            r.3 == self@.norm_height(),
    {
        let nx: i64 = if self.width < 0 {
            self.x + self.width
        } else {
            self.x
        };
        let ny: i64 = if self.height < 0 {
            self.y + self.height
        } else {
            self.y
        };
        let nw: i64 = if self.width < 0 {
            -self.width
        } else {
            self.width
        };
        let nh: i64 = if self.height < 0 {
            -self.height
        } else {
            self.height
        };
        (nx, ny, nw, nh)
    }
}

/// The kinds of failure a file load can report.
#[derive(Clone, Copy, Debug, PartialEq, Eq, Structural)]
pub enum LoadError {
    /// The file is missing, is not a raster image, or failed to
    /// decode.
    Unreadable,
}

/// The annotation state: the loaded image (if any), the committed
/// rectangles in commit order, the rectangle of the gesture in
/// progress (if any), and the color future gestures will use.
#[derive(Clone)]
pub struct Model {
    pub current_image_path: Option<String>,
    pub current_pixbuf: Option<ImageInfo>,
    pub rectangles: Vec<Rectangle>,
    pub drawing_rectangle: Option<Rectangle>,
    pub is_drawing: bool,
    pub current_color: Rgb,
}

/// The mathematical value of a [`Model`].
#[verifier::ext_equal]
pub struct ModelView {
    pub current_image_path: Option<Seq<char>>,
    pub current_pixbuf: Option<ImageInfo>,
    pub rectangles: Seq<RectView>,
    pub drawing_rectangle: Option<RectView>,
    pub is_drawing: bool,
    pub current_color: Rgb,
}

impl View for Model {
    type V = ModelView;

    open spec fn view(&self) -> ModelView {
        ModelView {
            current_image_path: match self.current_image_path {
                Some(p) => Some(p@),
                None => None,
            },
            current_pixbuf: self.current_pixbuf,
            rectangles: self.rectangles@.map_values(|r: Rectangle| r@),
            drawing_rectangle: match self.drawing_rectangle {
                Some(r) => Some(r@),
                None => None,
            },
            is_drawing: self.is_drawing,
            current_color: self.current_color,
        }
    }
}

impl ModelView {
    /// The state invariant.
    ///
    /// A gesture is in progress exactly when an in-progress rectangle
    /// exists, and only while an image is loaded.  Every stored
    /// rectangle stays within coordinate range, and every committed
    /// one exceeded the minimum drag on both axes.
    pub open spec fn wf(self) -> bool {
        &&& self.is_drawing <==> self.drawing_rectangle is Some
        &&& self.is_drawing ==> self.current_pixbuf is Some
        &&& self.drawing_rectangle matches Some(r) ==> r.wf()
        &&& forall|i: int|
            0 <= i < self.rectangles.len() ==> {
                &&& (#[trigger] self.rectangles[i]).wf()
                &&& exceeds_min_drag(self.rectangles[i].width)
                &&& exceeds_min_drag(self.rectangles[i].height)
            }
        &&& self.current_pixbuf matches Some(img) ==> img.wf()
    }
}

/// The state at startup: nothing loaded, nothing drawn, red selected.
pub open spec fn init_view() -> ModelView {
    ModelView {
        current_image_path: None,
        current_pixbuf: None,
        rectangles: Seq::empty(),
        drawing_rectangle: None,
        is_drawing: false,
        current_color: Rgb { r: 255, g: 0, b: 0 },
    }
}

/// Starting a gesture at `(x, y)`: a no-op unless an image is loaded
/// and no gesture is active; otherwise an in-progress rectangle of
/// zero extent appears there, in the currently selected color.
pub open spec fn start_drawing_spec(v: ModelView, x: int, y: int) -> ModelView {
    if v.current_pixbuf is None || v.is_drawing {
        v
    } else {
        ModelView {
            drawing_rectangle: Some(
                RectView { x, y, width: 0, height: 0, color: v.current_color },
            ),
            is_drawing: true,
            ..v
        }
    }
}

/// Dragging to `(x, y)`: a no-op unless a gesture is active;
/// otherwise the in-progress extents become the signed offsets from
/// the gesture's anchor, not normalized.
pub open spec fn update_drawing_spec(v: ModelView, x: int, y: int) -> ModelView {
    match v.drawing_rectangle {
        Some(r) => if v.is_drawing {
            ModelView {
                drawing_rectangle: Some(
                    RectView { width: x - r.x, height: y - r.y, ..r },
                ),
                ..v
            }
        } else {
            v
        },
        None => v,
    }
}

/// Releasing: the in-progress rectangle is consumed; it is appended
/// to the committed list exactly when both extents exceed the
/// minimum drag, and the gesture ends either way.
pub open spec fn finish_drawing_spec(v: ModelView) -> ModelView {
    match v.drawing_rectangle {
        Some(r) => ModelView {
            rectangles: if exceeds_min_drag(r.width) && exceeds_min_drag(r.height) {
                v.rectangles.push(r)
            } else {
                v.rectangles
            },
            drawing_rectangle: None,
            is_drawing: false,
            ..v
        },
        None => ModelView { is_drawing: false, ..v },
    }
}

/// Selecting a color affects only future gestures: the in-progress
/// rectangle and the committed ones keep theirs.
pub open spec fn set_color_spec(v: ModelView, color: Rgb) -> ModelView {
    ModelView { current_color: color, ..v }
}

/// Recording where the image came from.
pub open spec fn set_image_path_spec(v: ModelView, path: Seq<char>) -> ModelView {
    ModelView { current_image_path: Some(path), ..v }
}

/// Replacing the decoded image.
pub open spec fn set_pixbuf_spec(v: ModelView, pixbuf: ImageInfo) -> ModelView {
    ModelView { current_pixbuf: Some(pixbuf), ..v }
}

/// Loading a file: on a successful decode the image and its path are
/// replaced and the committed rectangles are cleared; on a failed
/// decode nothing changes.  The selected color survives either way.
pub open spec fn load_image_spec(
    v: ModelView,
    path: Seq<char>,
    decoded: Option<ImageInfo>,
) -> ModelView {
    match decoded {
        Some(img) => ModelView {
            current_image_path: Some(path),
            current_pixbuf: Some(img),
            rectangles: Seq::empty(),
            ..v
        },
        None => v,
    }
}

impl Model {
    /// The state at startup.
    pub fn new() -> (m: Model)
        ensures
            m@ == init_view(),
            m@.wf(),
    {
        let m = Model {
            current_image_path: None,
            current_pixbuf: None,
            rectangles: Vec::new(),
            drawing_rectangle: None,
            is_drawing: false,
            current_color: Rgb::red(),
        };
        proof {
            assert(m@ =~= init_view());
        }
        m
    }

    /// Records where the image came from.
    pub fn set_image_path(&mut self, path: String)
        ensures
            final(self)@ == set_image_path_spec(old(self)@, path@),
            old(self)@.wf() ==> final(self)@.wf(),
    {
        self.current_image_path = Some(path);
        proof {
            assert(self@ =~= set_image_path_spec(old(self)@, path@));
        }
    }

    /// Replaces the decoded image.
    pub fn set_pixbuf(&mut self, pixbuf: ImageInfo)
        requires
            pixbuf.wf(),
        ensures
            final(self)@ == set_pixbuf_spec(old(self)@, pixbuf),
            old(self)@.wf() ==> final(self)@.wf(),
    {
        self.current_pixbuf = Some(pixbuf);
        proof {
            assert(self@ =~= set_pixbuf_spec(old(self)@, pixbuf));
        }
    }

    /// Starts a gesture at `(x, y)`.  A no-op unless an image is
    /// loaded and no gesture is already active.
    pub fn start_drawing(&mut self, x: i64, y: i64)
        requires
            old(self)@.wf(),
            coord_in_range(x as int),
            coord_in_range(y as int),
        ensures
            final(self)@ == start_drawing_spec(old(self)@, x as int, y as int),
            final(self)@.wf(),
    {
        if self.current_pixbuf.is_some() && !self.is_drawing {
            self.is_drawing = true;
            self.drawing_rectangle = Some(
                Rectangle { x, y, width: 0, height: 0, color: self.current_color },
            );
        }
        proof {
            assert(self@ =~= start_drawing_spec(old(self)@, x as int, y as int));
        }
    }

    /// Drags the active gesture to `(x, y)`, recomputing the
    /// in-progress extents as signed offsets from the anchor.  A
    /// no-op unless a gesture is active.
    pub fn update_drawing(&mut self, x: i64, y: i64)
        requires
            old(self)@.wf(),
            coord_in_range(x as int),
            coord_in_range(y as int),
        ensures
            final(self)@ == update_drawing_spec(old(self)@, x as int, y as int),
            final(self)@.wf(),
    {
        if self.is_drawing {
            if let Some(rect) = self.drawing_rectangle {
                self.drawing_rectangle = Some(
                    Rectangle {
                        x: rect.x,
                        y: rect.y,
                        width: x - rect.x,
                        height: y - rect.y,
                        color: rect.color,
                    },
                );
            }
        }
        proof {
            assert(self@ =~= update_drawing_spec(old(self)@, x as int, y as int));
        }
    }

    /// Ends the active gesture, committing its rectangle exactly when
    /// both extents exceed the minimum drag.  A no-op when no gesture
    /// is active.
    pub fn finish_drawing(&mut self)
        requires
            old(self)@.wf(),
        ensures
            final(self)@ == finish_drawing_spec(old(self)@),
            final(self)@.wf(),
    {
        let taken = self.drawing_rectangle;
        self.drawing_rectangle = None;
        self.is_drawing = false;
        if let Some(rect) = taken {
            if (rect.width > MIN_DRAG || rect.width < -MIN_DRAG) && (rect.height > MIN_DRAG
                || rect.height < -MIN_DRAG) {
                self.rectangles.push(rect);
                proof {
                    assert(self.rectangles@.map_values(|r: Rectangle| r@) =~= old(
                        self,
                    ).rectangles@.map_values(|r: Rectangle| r@).push(rect@));
                }
            }
        }
        proof {
            assert(self@ =~= finish_drawing_spec(old(self)@));
        }
    }

    /// Selects the color for future gestures.  The in-progress
    /// rectangle, if any, keeps the color it started with.
    pub fn set_color(&mut self, color: Rgb)
        ensures
            final(self)@ == set_color_spec(old(self)@, color),
            final(self)@.drawing_rectangle == old(self)@.drawing_rectangle,
            final(self)@.rectangles == old(self)@.rectangles,
            old(self)@.wf() ==> final(self)@.wf(),
    {
        self.current_color = color;
        proof {
            assert(self@ =~= set_color_spec(old(self)@, color));
        }
    }

    /// Applies the outcome of decoding the file at `path`: the host
    /// shell attempts the decode and passes its result as `decoded`.
    /// On success the image and its path are replaced and the
    /// committed rectangles are cleared; on failure the whole state
    /// is left as it was and the unreadable error is returned.
    pub fn load_image(&mut self, path: String, decoded: Option<ImageInfo>) -> (res: Result<
        (),
        LoadError,
    >)
        requires
            old(self)@.wf(),
            decoded matches Some(img) ==> img.wf(),
        ensures
            final(self)@ == load_image_spec(old(self)@, path@, decoded),
            final(self)@.wf(),
            res is Ok <==> decoded is Some,
            res matches Err(e) ==> e == LoadError::Unreadable,
            decoded is None ==> final(self)@ == old(self)@,
            decoded matches Some(img) ==> {
                &&& final(self)@.current_pixbuf == Some(img)
                &&& final(self)@.current_image_path == Some(path@)
                &&& final(self)@.rectangles.len() == 0
                &&& final(self)@.current_color == old(self)@.current_color
            },
    {
        match decoded {
            Some(img) => {
                self.current_image_path = Some(path);
                self.current_pixbuf = Some(img);
                self.rectangles = Vec::new();
                proof {
                    assert(self@ =~= load_image_spec(old(self)@, path@, decoded));
                }
                Ok(())
            },
            None => Err(LoadError::Unreadable),
        }
    }
}

/// Law: however a gesture starts and wherever it is dragged, the
/// in-progress rectangle anchors at the starting point and its
/// extents are exactly the signed offsets of the latest drag point
/// from that anchor, in the color selected when the gesture began.
pub proof fn lemma_gesture_tracks_pointer(v: ModelView, x0: int, y0: int, x1: int, y1: int)
    requires
        v.wf(),
        !v.is_drawing,
        v.current_pixbuf is Some,
    ensures
        update_drawing_spec(start_drawing_spec(v, x0, y0), x1, y1).drawing_rectangle == Some(
            RectView {
                x: x0,
                y: y0,
                width: x1 - x0,
                height: y1 - y0,
                color: v.current_color,
            },
        ),
{
}

/// Law: releasing a drag from `(x0, y0)` to `(x1, y1)` leaves the
/// committed list unchanged when either extent stays within the
/// minimum drag, and otherwise appends exactly one rectangle, whose
/// color is the one selected when the gesture began even when the
/// selection changed during the gesture.
pub proof fn lemma_finish_commits_iff_large_enough(
    v: ModelView,
    x0: int,
    y0: int,
    x1: int,
    y1: int,
    late: Rgb,
)
    requires
        v.wf(),
        !v.is_drawing,
        v.current_pixbuf is Some,
    ensures
        ({
            let dragged = update_drawing_spec(start_drawing_spec(v, x0, y0), x1, y1);
            let done = finish_drawing_spec(set_color_spec(dragged, late));
            &&& !(exceeds_min_drag(x1 - x0) && exceeds_min_drag(y1 - y0)) ==> done.rectangles
                == v.rectangles
            &&& exceeds_min_drag(x1 - x0) && exceeds_min_drag(y1 - y0) ==> done.rectangles
                == v.rectangles.push(
                RectView {
                    x: x0,
                    y: y0,
                    width: x1 - x0,
                    height: y1 - y0,
                    color: v.current_color,
                },
            )
            &&& done.drawing_rectangle is None
            &&& !done.is_drawing
        }),
{
}

} // verus!
