use blueprint_svg::{rect_element, text_element, Room};

fn sample() -> Room {
    Room {
        name: "Pantry".to_string(),
        x: "1".to_string(),
        y: "2".to_string(),
        width: "3".to_string(),
        height: "4".to_string(),
        label_x: "5".to_string(),
        label_y: "6".to_string(),
    }
}

#[test]
fn rect_element_holds_corner_and_size() {
    let markup = rect_element(&sample());
    assert_eq!(
        markup,
        "<rect x=\"1\" y=\"2\" width=\"3\" height=\"4\"\n               fill=\"none\" stroke=\"black\" stroke-width=\"2\"/>"
    );
}

#[test]
fn rect_element_is_an_unfilled_black_outline() {
    let markup = rect_element(&sample());
    assert!(markup.starts_with("<rect "));
    assert!(markup.ends_with(r#"fill="none" stroke="black" stroke-width="2"/>"#));
}

#[test]
fn rect_element_leaves_name_and_label_out() {
    let markup = rect_element(&sample());
    assert!(!markup.contains("Pantry"));
    assert!(!markup.contains('5'));
    assert!(!markup.contains('6'));
}

#[test]
fn text_element_holds_anchor_and_name() {
    let markup = text_element(&sample());
    assert_eq!(markup, r#"<text x="5" y="6" font-size="14">Pantry</text>"#);
}

#[test]
fn text_element_leaves_corner_and_size_out() {
    let markup = text_element(&sample());
    assert!(!markup.contains('2'));
    assert!(!markup.contains('3'));
}

#[test]
fn text_element_keeps_each_field_in_its_place() {
    let mut room = sample();
    room.label_x = "77".to_string();
    assert_eq!(text_element(&room), r#"<text x="77" y="6" font-size="14">Pantry</text>"#);
    room.label_y = "88".to_string();
    assert_eq!(text_element(&room), r#"<text x="77" y="88" font-size="14">Pantry</text>"#);
    room.name = "Larder".to_string();
    assert_eq!(text_element(&room), r#"<text x="77" y="88" font-size="14">Larder</text>"#);
}

#[test]
fn rect_element_keeps_each_field_in_its_place() {
    let mut room = sample();
    room.x = "a".to_string();
    room.y = "b".to_string();
    room.width = "c".to_string();
    room.height = "d".to_string();
    assert!(rect_element(&room).starts_with(r#"<rect x="a" y="b" width="c" height="d""#));
}
