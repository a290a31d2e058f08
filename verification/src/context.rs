//! The drawing surface the dispatcher drives.
//!
//! The capability set (path construction, transforms, paint, text) is
//! modeled as data: a [`Context`] records every operation it receives, in
//! order, as a [`DrawOp`].  An unverified backend replays the record
//! against a concrete rasterizer; a test can count and inspect the record
//! directly.

use crate::color::Color;
use crate::stroke::LineCap;
use crate::text::{FontSlant, FontWeight};
use vstd::prelude::*;

verus! {

/// One primitive operation of the drawing surface.
///
/// Coordinates, sizes and angles are IEEE-754 binary64 bit patterns, as
/// parsed from the document.  The backend that replays the record is the
/// one to turn them into numbers: it normalizes color channels from their
/// 8-bit form, and converts `Arc` angles from degrees to radians.
#[derive(Debug, Clone, PartialEq)]
pub enum DrawOp {
    Save,
    Restore,
    Fill,
    Stroke,
    ClosePath,
    MoveTo { x: u64, y: u64 },
    LineTo { x: u64, y: u64 },
    Translate { x: u64, y: u64 },
    Scale { x: u64, y: u64 },
    SetSourceRgba { color: Color },
    Rectangle { x: u64, y: u64, width: u64, height: u64 },
    Arc { xc: u64, yc: u64, radius: u64, start: u64, end: u64 },
    CurveTo { x1: u64, y1: u64, x2: u64, y2: u64, x3: u64, y3: u64 },
    SetLineWidth { width: u64 },
    SetLineCap { cap: LineCap },
    SelectFontFace { family: String, slant: FontSlant, weight: FontWeight },
    SetFontSize { size: u64 },
    ShowText { text: String },
}

/// A recording drawing surface: the operations received so far, in order.
#[derive(Debug, PartialEq)]
pub struct Context {
    pub ops: Vec<DrawOp>,
}

impl Context {
    /// A surface that has received nothing yet.
    pub fn new() -> (c: Context)
        ensures
            c.ops@ == Seq::<DrawOp>::empty(),
    {
        Context { ops: Vec::new() }
    }

    pub fn save(&mut self)
        ensures
            final(self).ops@ == old(self).ops@.push(DrawOp::Save),
    {
        self.ops.push(DrawOp::Save);
    }

    pub fn restore(&mut self)
        ensures
            final(self).ops@ == old(self).ops@.push(DrawOp::Restore),
    {
        self.ops.push(DrawOp::Restore);
    }

    pub fn fill(&mut self)
        ensures
            final(self).ops@ == old(self).ops@.push(DrawOp::Fill),
    {
        self.ops.push(DrawOp::Fill);
    }

    pub fn stroke(&mut self)
        ensures
            final(self).ops@ == old(self).ops@.push(DrawOp::Stroke),
    {
        self.ops.push(DrawOp::Stroke);
    }

    pub fn close_path(&mut self)
        ensures
            final(self).ops@ == old(self).ops@.push(DrawOp::ClosePath),
    {
        self.ops.push(DrawOp::ClosePath);
    }

    pub fn move_to(&mut self, x: u64, y: u64)
        ensures
            final(self).ops@ == old(self).ops@.push(DrawOp::MoveTo { x, y }),
    {
        self.ops.push(DrawOp::MoveTo { x, y });
    }

    pub fn line_to(&mut self, x: u64, y: u64)
        ensures
            final(self).ops@ == old(self).ops@.push(DrawOp::LineTo { x, y }),
    {
        self.ops.push(DrawOp::LineTo { x, y });
    }

    pub fn translate(&mut self, x: u64, y: u64)
        ensures
            final(self).ops@ == old(self).ops@.push(DrawOp::Translate { x, y }),
    {
        self.ops.push(DrawOp::Translate { x, y });
    }

    pub fn scale(&mut self, x: u64, y: u64)
        ensures
            final(self).ops@ == old(self).ops@.push(DrawOp::Scale { x, y }),
    {
        self.ops.push(DrawOp::Scale { x, y });
    }

    pub fn set_source_rgba(&mut self, color: Color)
        ensures
            final(self).ops@ == old(self).ops@.push(DrawOp::SetSourceRgba { color }),
    {
        self.ops.push(DrawOp::SetSourceRgba { color });
    }

    pub fn rectangle(&mut self, x: u64, y: u64, width: u64, height: u64)
        ensures
            final(self).ops@ == old(self).ops@.push(DrawOp::Rectangle { x, y, width, height }),
    {
        self.ops.push(DrawOp::Rectangle { x, y, width, height });
    }

    pub fn arc(&mut self, xc: u64, yc: u64, radius: u64, start: u64, end: u64)
        ensures
            final(self).ops@ == old(self).ops@.push(DrawOp::Arc { xc, yc, radius, start, end }),
    {
        self.ops.push(DrawOp::Arc { xc, yc, radius, start, end });
    }

    pub fn curve_to(&mut self, x1: u64, y1: u64, x2: u64, y2: u64, x3: u64, y3: u64)
        ensures
            final(self).ops@ == old(self).ops@.push(DrawOp::CurveTo { x1, y1, x2, y2, x3, y3 }),
    {
        self.ops.push(DrawOp::CurveTo { x1, y1, x2, y2, x3, y3 });
    }

    pub fn set_line_width(&mut self, width: u64)
        ensures
            final(self).ops@ == old(self).ops@.push(DrawOp::SetLineWidth { width }),
    {
        self.ops.push(DrawOp::SetLineWidth { width });
    }

    pub fn set_line_cap(&mut self, cap: LineCap)
        ensures
            final(self).ops@ == old(self).ops@.push(DrawOp::SetLineCap { cap }),
    {
        self.ops.push(DrawOp::SetLineCap { cap });
    }

    pub fn select_font_face(&mut self, family: String, slant: FontSlant, weight: FontWeight)
        ensures
            final(self).ops@ == old(self).ops@.push(
                DrawOp::SelectFontFace { family, slant, weight },
            ),
    {
        self.ops.push(DrawOp::SelectFontFace { family, slant, weight });
    }

    pub fn set_font_size(&mut self, size: u64)
        ensures
            final(self).ops@ == old(self).ops@.push(DrawOp::SetFontSize { size }),
    {
        self.ops.push(DrawOp::SetFontSize { size });
    }

    pub fn show_text(&mut self, text: String)
        ensures
            final(self).ops@ == old(self).ops@.push(DrawOp::ShowText { text }),
    {
        self.ops.push(DrawOp::ShowText { text });
    }
}

} // verus!
