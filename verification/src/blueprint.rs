//! The floor plan that is drawn: rooms, in the order in which they are painted.

use vstd::prelude::*;

verus! {

/// Horizontal distance, in canvas units, from a room's left edge to the anchor of its label.
pub const LABEL_OFFSET_X: u16 = 10;

/// Vertical distance, in canvas units, from a room's top edge to the anchor of its label.
pub const LABEL_OFFSET_Y: u16 = 20;

/// One rectangular room.
///
/// Every number is held as the decimal text that is written into the drawing, so that
/// the renderer copies characters and never rounds. `label_x` and `label_y` are the
/// texts of `x` plus [`LABEL_OFFSET_X`] and of `y` plus [`LABEL_OFFSET_Y`]; whoever
/// builds a room does that sum on the numbers it has.
pub struct Room {
    /// Label drawn inside the room, copied into the drawing as it is.
    pub name: String,
    /// Left edge.
    pub x: String,
    /// Top edge.
    pub y: String,
    pub width: String,
    pub height: String,
    /// Horizontal anchor of the label.
    pub label_x: String,
    /// Vertical anchor of the label.
    pub label_y: String,
}

/// What a [`Room`] is to the contracts: its seven texts as character sequences.
pub ghost struct RoomView {
    pub name: Seq<char>,
    pub x: Seq<char>,
    pub y: Seq<char>,
    pub width: Seq<char>,
    pub height: Seq<char>,
    pub label_x: Seq<char>,
    pub label_y: Seq<char>,
}

impl View for Room {
    type V = RoomView;

    open spec fn view(&self) -> RoomView {
        RoomView {
            name: self.name@,
            x: self.x@,
            y: self.y@,
            width: self.width@,
            height: self.height@,
            label_x: self.label_x@,
            label_y: self.label_y@,
        }
    }
}

/// A floor plan: its rooms, first painted first.
pub struct Blueprint {
    pub rooms: Vec<Room>,
}

impl View for Blueprint {
    type V = Seq<RoomView>;

    open spec fn view(&self) -> Seq<RoomView> {
        self.rooms@.map_values(|room: Room| room@)
    }
}

} // verus!
