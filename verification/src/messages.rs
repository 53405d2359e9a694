use vstd::prelude::*;

use crate::color::Rgb;
use crate::image::ImageInfo;
use crate::models::{
    coord_in_range, finish_drawing_spec, load_image_spec, set_color_spec, start_drawing_spec,
    update_drawing_spec, Model, ModelView,
};

verus! {

/// An event the host shell delivers to the controller.
///
/// Pointer positions come from press, motion and release callbacks;
/// the motion event says whether the primary button was still held.
/// A file chosen by the user arrives after the shell has attempted
/// the decode, as the path together with the decode's outcome.
pub enum Event {
    PointerDown(i64, i64),
    PointerMove(i64, i64, bool),
    PointerUp,
    ColorPicked(Rgb),
    ImageLoaded(String, Option<ImageInfo>),
}

/// The coordinates an event may carry, and the well-formedness of a
/// decoded image it reports.
pub open spec fn event_wf(e: Event) -> bool {
    match e {
        Event::PointerDown(x, y) => coord_in_range(x as int) && coord_in_range(y as int),
        Event::PointerMove(x, y, _) => coord_in_range(x as int) && coord_in_range(y as int),
        Event::PointerUp => true,
        Event::ColorPicked(_) => true,
        Event::ImageLoaded(_, decoded) => match decoded {
            Some(img) => img.wf(),
            None => true,
        },
    }
}

/// The state transition each event causes.
///
/// A press starts a gesture (a no-op while one is active or no image
/// is loaded); motion with the button held drags it, and motion
/// without the button is ignored, protecting against stray events
/// after a missed release; a release ends it.  A color pick selects
/// the color for future gestures, and a load outcome replaces or
/// preserves the image as [`load_image_spec`] says.
pub open spec fn step_spec(v: ModelView, e: Event) -> ModelView {
    match e {
        Event::PointerDown(x, y) => start_drawing_spec(v, x as int, y as int),
        Event::PointerMove(x, y, held) => if held {
            update_drawing_spec(v, x as int, y as int)
        } else {
            v
        },
        Event::PointerUp => finish_drawing_spec(v),
        Event::ColorPicked(color) => set_color_spec(v, color),
        Event::ImageLoaded(path, decoded) => load_image_spec(v, path@, decoded),
    }
}

/// Whether the event asks the host shell to repaint: after a drag of
/// an active gesture, after a release, and after a successful load.
pub open spec fn redraw_spec(v: ModelView, e: Event) -> bool {
    match e {
        Event::PointerDown(_, _) => false,
        Event::PointerMove(_, _, held) => held && v.is_drawing,
        Event::PointerUp => true,
        Event::ColorPicked(_) => false,
        Event::ImageLoaded(_, decoded) => decoded is Some,
    }
}

/// Applies one event to the annotation state and reports whether the
/// host shell should repaint.
pub fn handle_event(m: &mut Model, e: Event) -> (redraw: bool)
    requires
        old(m)@.wf(),
        event_wf(e),
    ensures
        final(m)@ == step_spec(old(m)@, e),
        final(m)@.wf(),
        redraw == redraw_spec(old(m)@, e),
{
    match e {
        Event::PointerDown(x, y) => {
            m.start_drawing(x, y);
            false
        },
        Event::PointerMove(x, y, held) => {
            let was_drawing = m.is_drawing;
            if held {
                m.update_drawing(x, y);
            }
            held && was_drawing
        },
        Event::PointerUp => {
            m.finish_drawing();
            true
        },
        Event::ColorPicked(color) => {
            m.set_color(color);
            false
        },
        Event::ImageLoaded(path, decoded) => {
            let res = m.load_image(path, decoded);
            res.is_ok()
        },
    }
}

} // verus!
