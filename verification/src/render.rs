use vstd::prelude::*;

use crate::color::Rgb;
use crate::models::{Model, ModelView, RectView, Rectangle};

verus! {

/// One drawing operation for the host shell's 2D surface.  A scene
/// is an ordered list of these; the shell performs them first to
/// last, so later commands paint on top of earlier ones.
#[derive(Clone, Copy, Debug, PartialEq, Eq, Structural)]
pub enum DrawCmd {
    /// Fill the whole surface with `color`.
    FillBackground { color: Rgb },
    /// Paint the loaded image with its top-left corner at the origin,
    /// unscaled: scaling already happened at load time.
    PaintImage,
    /// Stroke the rectangle's outline at `line_width`, then fill the
    /// same path, both fully opaque in the rectangle's stored color.
    StrokeFillRect { rect: Rectangle, line_width: u8 },
    /// Stroke the rectangle's outline only, at `line_width`, in the
    /// rectangle's stored color.
    StrokeRect { rect: Rectangle, line_width: u8 },
}

/// The mathematical value of a [`DrawCmd`].
pub enum CmdView {
    FillBackground { color: Rgb },
    PaintImage,
    StrokeFillRect { rect: RectView, line_width: int },
    StrokeRect { rect: RectView, line_width: int },
}

impl View for DrawCmd {
    type V = CmdView;

    open spec fn view(&self) -> CmdView {
        match *self {
            DrawCmd::FillBackground { color } => CmdView::FillBackground { color },
            DrawCmd::PaintImage => CmdView::PaintImage,
            DrawCmd::StrokeFillRect { rect, line_width } => CmdView::StrokeFillRect {
                rect: rect@,
                line_width: line_width as int,
            },
            DrawCmd::StrokeRect { rect, line_width } => CmdView::StrokeRect {
                rect: rect@,
                line_width: line_width as int,
            },
        }
    }
}

/// The values of a list of commands.
pub open spec fn cmd_views(cmds: Seq<DrawCmd>) -> Seq<CmdView> {
    cmds.map_values(|c: DrawCmd| c@)
}

/// The stroke-then-fill commands for the committed rectangles, in
/// commit order, each at stroke width 3.
pub open spec fn committed_cmds(rects: Seq<RectView>) -> Seq<CmdView> {
    rects.map_values(|r: RectView| CmdView::StrokeFillRect { rect: r, line_width: 3 })
}

/// The full scene for a state: a white background; the image, when
/// one is loaded, at the origin; every committed rectangle in commit
/// order; and on top of everything the in-progress rectangle, when
/// one exists, as an outline at stroke width 2.
pub open spec fn render_spec(v: ModelView) -> Seq<CmdView> {
    seq![CmdView::FillBackground { color: Rgb { r: 255, g: 255, b: 255 } }] + (
    if v.current_pixbuf is Some {
        seq![CmdView::PaintImage]
    } else {
        Seq::<CmdView>::empty()
    }) + committed_cmds(v.rectangles) + (match v.drawing_rectangle {
        Some(r) => seq![CmdView::StrokeRect { rect: r, line_width: 2 }],
        None => Seq::<CmdView>::empty(),
    })
}

/// Produces the scene for the state, exactly as [`render_spec`]
/// lists it.  The state is only read; drawing the commands is the
/// host shell's part.
pub fn render_commands(m: &Model) -> (cmds: Vec<DrawCmd>)
    ensures
        cmd_views(cmds@) == render_spec(m@),
{
    let ghost prefix: Seq<CmdView> = seq![
        CmdView::FillBackground { color: Rgb { r: 255, g: 255, b: 255 } },
    ] + (if m@.current_pixbuf is Some {
        seq![CmdView::PaintImage]
    } else {
        Seq::<CmdView>::empty()
    });
    let mut cmds: Vec<DrawCmd> = Vec::new();
    cmds.push(DrawCmd::FillBackground { color: Rgb::white() });
    if m.current_pixbuf.is_some() {
        cmds.push(DrawCmd::PaintImage);
    }
    proof {
        assert(cmd_views(cmds@) =~= prefix + committed_cmds(m@.rectangles.take(0)));
    }
    let n = m.rectangles.len();
    let mut i: usize = 0;
    while i < n
        invariant
            n == m.rectangles.len(),
            0 <= i <= n,
            cmd_views(cmds@) == prefix + committed_cmds(m@.rectangles.take(i as int)),
        decreases n - i,
    {
        let rect = m.rectangles[i];
        let ghost pre = cmds@;
        cmds.push(DrawCmd::StrokeFillRect { rect, line_width: 3 });
        proof {
            let s = m@.rectangles;
            let k = i as int;
            let lhs = cmd_views(cmds@);
            let rhs = prefix + committed_cmds(s.take(k + 1));
            assert(s[k] == rect@);
            assert(cmd_views(pre).len() == pre.len());
            assert(committed_cmds(s.take(k)).len() == k);
            assert(pre.len() == prefix.len() + k);
            assert forall|j: int| 0 <= j < lhs.len() implies lhs[j] == rhs[j] by {
                if j < prefix.len() {
                    assert(lhs[j] == cmd_views(pre)[j]);
                } else if j < pre.len() {
                    assert(lhs[j] == cmd_views(pre)[j]);
                    assert(cmd_views(pre)[j] == committed_cmds(s.take(k))[j - prefix.len()]);
                    assert(s.take(k)[j - prefix.len()] == s.take(k + 1)[j - prefix.len()]);
                } else {
                    assert(lhs[j] == (DrawCmd::StrokeFillRect { rect, line_width: 3 })@);
                    assert(s.take(k + 1)[k] == s[k]);
                    assert(rhs[j] == committed_cmds(s.take(k + 1))[k]);
                }
            }
            assert(lhs =~= rhs);
        }
        i = i + 1;
    }
    proof {
        assert(m@.rectangles.take(n as int) =~= m@.rectangles);
    }
    if let Some(rect) = m.drawing_rectangle {
        cmds.push(DrawCmd::StrokeRect { rect, line_width: 2 });
    }
    proof {
        assert(cmd_views(cmds@) =~= render_spec(m@));
    }
    cmds
}

} // verus!
