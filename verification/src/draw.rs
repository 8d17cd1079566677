//! What painting a widget produces: a list of drawing operations that the
//! display side carries out in order.
use vstd::prelude::*;
use crate::geometry::{Color, Graphics, Point, Size};

verus! {

/// The bitmap images bundled with the desktop.
#[derive(Clone, Copy, Debug, PartialEq, Eq, Structural)]
pub enum Asset {
    /// The desktop wallpaper.
    Desktop,
    /// The icon shown for each file on the desktop.
    File,
    /// The close button of a window's title bar.
    Close,
    /// The maximize button of a window's title bar.
    Maximize,
    /// The minimize button of a window's title bar.
    Minimize,
    /// The menu button of the desktop bar.
    Menu,
}

/// One drawing step. Every step names the drawing area (`graphic`) it is
/// drawn into; coordinates inside a step are relative to that area.
#[derive(Debug, PartialEq, Eq)]
pub enum DrawOp {
    /// A rectangle at `origin` of `size`, filled with `color`.
    FillRect { graphic: Graphics, origin: Point, size: Size, color: Color },
    /// A bitmap image whose top-left corner is at `origin`.
    Image { graphic: Graphics, origin: Point, image: Asset },
    /// A line of text in the 10x20 monospace font, with its top at `origin`.
    Title { graphic: Graphics, origin: Point, text: String, color: Color },
    /// A text edit box covering the whole area, holding `text` in `color`.
    TextEdit { graphic: Graphics, text: String, color: Color },
    /// A button covering the whole area and showing `text`; how a button
    /// looks is left to the display.
    Button { graphic: Graphics, text: String },
}

} // verus!
