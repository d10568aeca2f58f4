//! The drawable surface, seen as its dimensions and its clear operation.
//!
//! The real surface and the GPU context it yields belong to the host; the
//! scene only ever reads the surface's size and asks for it to be cleared.
//! `Canvas` therefore models the surface by its current dimensions, which
//! the host reports when it acquires the surface, and `clear` describes the
//! clearing as commands for the host to replay.

use vstd::prelude::*;

use crate::gl::GlCommand;

verus! {

/// A drawable surface, by its current pixel dimensions (in coordinate units).
#[derive(Clone, Copy, Debug, PartialEq, Eq, Structural)]
pub struct Canvas {
    pub width: i64,
    pub height: i64,
}

/// The commands that fill the surface with the fixed background color
/// (opaque yellow) and reset the color buffer.
pub open spec fn clear_seq() -> Seq<GlCommand> {
    seq![
        GlCommand::SetClearColor { red: 255, green: 255, blue: 0, alpha: 255 },
        GlCommand::Clear,
    ]
}

impl Canvas {
    /// Dimensions never go negative; the host reports unsigned pixel counts.
    pub open spec fn wf(&self) -> bool {
        0 <= self.width && 0 <= self.height
    }

    /// Takes the surface the host resolved, by its reported dimensions.
    pub fn initialize(width: i64, height: i64) -> (canvas: Canvas)
        requires
            0 <= width,
            0 <= height,
        ensures
            canvas == (Canvas { width, height }),
            canvas.wf(),
    {
        Canvas { width, height }
    }

    /// The surface's current size on each axis.
    pub fn dimensions(&self) -> (size: (i64, i64))
        ensures
            size.0 == self.width,
            size.1 == self.height,
    {
        (self.width, self.height)
    }

    /// The commands that discard the previous frame's pixels.  They must be
    /// replayed at the start of every draw cycle, before any sprite renders.
    pub fn clear(&self) -> (commands: Vec<GlCommand>)
        ensures
            commands@ == clear_seq(),
    {
        let mut commands: Vec<GlCommand> = Vec::new();
        commands.push(GlCommand::SetClearColor { red: 255, green: 255, blue: 0, alpha: 255 });
        commands.push(GlCommand::Clear);
        proof {
            assert(commands@ =~= clear_seq());
        }
        commands
    }
}

} // verus!
