//! What holds of every drawing, proved from the definitions in [`crate::svg`].

use crate::blueprint::{Blueprint, RoomView};
use crate::svg::{
    document, elements, rect_markup, render_blueprint, text_markup, CLOSING_TAG, OPENING_TAG,
};
use vstd::prelude::*;
use vstd::seq_lib::lemma_flatten_concat;
use vstd::utf8::encode_utf8;

verus! {

/// A drawing of `n` rooms holds `n` rectangles and `n` labels and no other element, in
/// the rooms' order: the rectangle of room `i` is element `2 * i`, its label is the next.
pub proof fn elements_follow_rooms(rooms: Seq<RoomView>)
    ensures
        elements(rooms).len() == 2 * rooms.len(),
        forall|i: int|
            0 <= i < rooms.len() ==> {
                &&& elements(rooms)[2 * i] == rect_markup(#[trigger] rooms[i])
                &&& elements(rooms)[2 * i + 1] == text_markup(rooms[i])
            },
{
}

/// Drawing keeps the rooms' order: the elements of one list of rooms followed by another
/// are the elements of the first list followed by those of the second.
pub proof fn elements_of_joined_rooms(front: Seq<RoomView>, back: Seq<RoomView>)
    ensures
        elements(front + back) == elements(front) + elements(back),
        elements(front + back).flatten() == elements(front).flatten() + elements(
            back,
        ).flatten(),
{
    assert(elements(front + back) =~= elements(front) + elements(back));
    lemma_flatten_concat(elements(front), elements(back));
}

/// Where a room stands in the drawing: behind the opening tag and the elements of the
/// rooms before it come its rectangle and then its label, and behind these the elements
/// of the rooms after it and the closing tag.
pub proof fn document_places_room(rooms: Seq<RoomView>, i: int)
    requires
        0 <= i < rooms.len(),
    ensures
        document(rooms) == OPENING_TAG@ + elements(rooms.take(i)).flatten() + rect_markup(
            rooms[i],
        ) + text_markup(rooms[i]) + elements(rooms.skip(i + 1)).flatten() + CLOSING_TAG@,
{
    let before = rooms.take(i);
    let after = rooms.skip(i + 1);
    let own = Seq::<Seq<char>>::empty().push(rect_markup(rooms[i])).push(text_markup(rooms[i]));
    assert(rooms =~= before + seq![rooms[i]] + after);
    assert(elements(seq![rooms[i]]) =~= own);
    Seq::<Seq<char>>::empty().lemma_flatten_push(rect_markup(rooms[i]));
    Seq::<Seq<char>>::empty().push(rect_markup(rooms[i])).lemma_flatten_push(
        text_markup(rooms[i]),
    );
    elements_of_joined_rooms(before, seq![rooms[i]]);
    elements_of_joined_rooms(before + seq![rooms[i]], after);
    assert(document(rooms) =~= OPENING_TAG@ + elements(before).flatten() + rect_markup(rooms[i])
        + text_markup(rooms[i]) + elements(after).flatten() + CLOSING_TAG@);
}

/// Every drawing starts with the opening tag and ends with the closing tag, however
/// many rooms there are.
pub proof fn document_keeps_envelope(rooms: Seq<RoomView>)
    ensures
        OPENING_TAG@.is_prefix_of(document(rooms)),
        CLOSING_TAG@.is_suffix_of(document(rooms)),
{
    assert(document(rooms).subrange(0, OPENING_TAG@.len() as int) =~= OPENING_TAG@);
    assert(document(rooms).subrange(
        document(rooms).len() - CLOSING_TAG@.len(),
        document(rooms).len() as int,
    ) =~= CLOSING_TAG@);
}

/// The drawing of no rooms is the envelope alone: the opening tag, then the closing tag.
pub proof fn empty_document_is_envelope()
    ensures
        document(Seq::empty()) == OPENING_TAG@ + CLOSING_TAG@,
{
    assert(elements(Seq::empty()) =~= Seq::empty());
    assert(document(Seq::empty()) =~= OPENING_TAG@ + CLOSING_TAG@);
}

/// Drawing is a function of the rooms: whatever [`render_blueprint`] returns for two
/// blueprints with the same rooms is the same text, and so the same bytes.
pub proof fn rendering_is_deterministic(
    one: Blueprint,
    other: Blueprint,
    first: String,
    second: String,
)
    requires
        one@ == other@,
        call_ensures(render_blueprint, (&one,), first),
        call_ensures(render_blueprint, (&other,), second),
    ensures
        first@ == second@,
        encode_utf8(first@) == encode_utf8(second@),
{
}

} // verus!
