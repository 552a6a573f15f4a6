pub mod blueprint;
pub mod laws;
pub mod svg;

pub use blueprint::{Blueprint, Room, RoomView, LABEL_OFFSET_X, LABEL_OFFSET_Y};
pub use svg::{rect_element, render_blueprint, text_element, CLOSING_TAG, OPENING_TAG};
