//! The drawing: a fixed canvas that holds, for each room and in the rooms' order, an
//! outlined rectangle followed by a label.

use crate::blueprint::{Blueprint, Room, RoomView};
use vstd::prelude::*;

verus! {

/// Opening tag of every drawing: a canvas of 1000 by 800 units.
pub const OPENING_TAG: &'static str = "<svg width=\"1000\" height=\"800\" xmlns=\"http://www.w3.org/2000/svg\">";

/// Closing tag of every drawing.
pub const CLOSING_TAG: &'static str = "</svg>";

/// The rectangle of one room: its corner and size as attributes, no fill, a black
/// outline two units wide.
pub open spec fn rect_markup(room: RoomView) -> Seq<char> {
    "<rect x=\""@ + room.x + "\" y=\""@ + room.y + "\" width=\""@ + room.width
        + "\" height=\""@ + room.height
        + "\"\n               fill=\"none\" stroke=\"black\" stroke-width=\"2\"/>"@
}

/// The label of one room: anchored at the label position, 14 units high, its content
/// the room's name character for character.
pub open spec fn text_markup(room: RoomView) -> Seq<char> {
    "<text x=\""@ + room.label_x + "\" y=\""@ + room.label_y + "\" font-size=\"14\">"@
        + room.name + "</text>"@
}

/// The elements of a drawing in document order: two per room, the rectangle of room
/// `i` at `2 * i` and its label directly behind it.
pub open spec fn elements(rooms: Seq<RoomView>) -> Seq<Seq<char>> {
    Seq::new(
        2 * rooms.len(),
        |k: int|
            if k % 2 == 0 {
                rect_markup(rooms[k / 2])
            } else {
                text_markup(rooms[k / 2])
            },
    )
}

/// The whole drawing of `rooms`: the elements, one after the other, between the
/// opening and the closing tag.
pub open spec fn document(rooms: Seq<RoomView>) -> Seq<char> {
    OPENING_TAG@ + elements(rooms).flatten() + CLOSING_TAG@
}

/// Writes the rectangle of `room`.
pub fn rect_element(room: &Room) -> (markup: String)
    ensures
        markup@ == rect_markup(room@),
{
    let mut markup = String::from_str("<rect x=\"");
    markup.append(room.x.as_str());
    markup.append("\" y=\"");
    markup.append(room.y.as_str());
    markup.append("\" width=\"");
    markup.append(room.width.as_str());
    markup.append("\" height=\"");
    markup.append(room.height.as_str());
    markup.append("\"\n               fill=\"none\" stroke=\"black\" stroke-width=\"2\"/>");
    markup
}

/// Writes the label of `room`.
pub fn text_element(room: &Room) -> (markup: String)
    ensures
        markup@ == text_markup(room@),
{
    let mut markup = String::from_str("<text x=\"");
    markup.append(room.label_x.as_str());
    markup.append("\" y=\"");
    markup.append(room.label_y.as_str());
    markup.append("\" font-size=\"14\">");
    markup.append(room.name.as_str());
    markup.append("</text>");
    markup
}

/// One more room adds its rectangle and its label behind the elements that are there.
proof fn lemma_elements_push(rooms: Seq<RoomView>, room: RoomView)
    ensures
        elements(rooms.push(room)).flatten() == elements(rooms).flatten() + rect_markup(room)
            + text_markup(room),
{
    let grown = elements(rooms).push(rect_markup(room)).push(text_markup(room));
    assert(elements(rooms.push(room)) =~= grown);
    elements(rooms).lemma_flatten_push(rect_markup(room));
    elements(rooms).push(rect_markup(room)).lemma_flatten_push(text_markup(room));
}

/// Draws `blueprint` as one SVG document.
pub fn render_blueprint(blueprint: &Blueprint) -> (svg: String)
    ensures
        svg@ == document(blueprint@),
{
    let mut svg = String::from_str(OPENING_TAG);
    let mut done: usize = 0;
    while done < blueprint.rooms.len()
        invariant
            done <= blueprint.rooms.len(),
            svg@ == OPENING_TAG@ + elements(blueprint@.take(done as int)).flatten(),
        decreases blueprint.rooms.len() - done,
    {
        let room = &blueprint.rooms[done];
        let rect = rect_element(room);
        let text = text_element(room);
        proof {
            assert(blueprint@.take(done + 1) =~= blueprint@.take(done as int).push(room@));
            lemma_elements_push(blueprint@.take(done as int), room@);
        }
        svg.append(rect.as_str());
        svg.append(text.as_str());
        done += 1;
    }
    assert(blueprint@.take(done as int) =~= blueprint@);
    svg.append(CLOSING_TAG);
    svg
}

} // verus!
