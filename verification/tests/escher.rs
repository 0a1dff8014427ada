use golf::eadk::{Color, Rect};
use golf::escher::components::{BoxContainer, BoxLayout, MarginType};
use golf::escher::text::{
    draw_debug_text, get_char_data, Label, CHARS_COUNT, CHAR_HEIGHT, CHAR_SIZE, CHAR_WIDTH,
};
use golf::escher::{UiEvent, IDLE_COLOR, SELECT_COLOR};
use golf::utils::vec::Vec2;

fn boxed(top: MarginType, bottom: MarginType, left: MarginType, right: MarginType) -> BoxContainer<u8> {
    BoxContainer::new(0u8, top, bottom, left, right)
}

#[test]
fn a_box_asks_for_its_child_and_both_margins() {
    let container = boxed(
        MarginType::Margin(1),
        MarginType::Margin(2),
        MarginType::Margin(3),
        MarginType::Margin(4),
    );
    assert_eq!(container.requested_size(Vec2 { x: 25, y: 10 }), Vec2 { x: 32, y: 13 });
    assert_eq!(container.margin_top, MarginType::Margin(1));
    assert_eq!(container.margin_bottom, MarginType::Margin(2));
    assert_eq!(container.margin_left, MarginType::Margin(3));
    assert_eq!(container.margin_right, MarginType::Margin(4));
}

#[test]
fn a_box_with_a_margin_that_extends_asks_for_the_screen() {
    let container = boxed(
        MarginType::Margin(10),
        MarginType::Extend,
        MarginType::Extend,
        MarginType::Margin(10),
    );
    assert_eq!(container.requested_size(Vec2 { x: 25, y: 10 }), Vec2 { x: 320, y: 240 });
    let container = boxed(
        MarginType::Margin(10),
        MarginType::Margin(10),
        MarginType::Extend,
        MarginType::Extend,
    );
    assert_eq!(container.requested_size(Vec2 { x: 25, y: 10 }), Vec2 { x: 320, y: 30 });
}

#[test]
fn a_child_lies_behind_fixed_margins() {
    let container = boxed(
        MarginType::Margin(1),
        MarginType::Margin(2),
        MarginType::Margin(3),
        MarginType::Margin(4),
    );
    assert_eq!(
        container.layout(Vec2 { x: 25, y: 10 }, false, Vec2 { x: 100, y: 50 }),
        BoxLayout {
            background: Rect { x: 100, y: 50, width: 32, height: 13 },
            color: Color { rgb565: IDLE_COLOR },
            child_offset: Vec2 { x: 103, y: 51 },
        }
    );
}

#[test]
fn a_child_is_pushed_or_centered_by_margins_that_extend() {
    let child = Vec2 { x: 25, y: 10 };
    let origin = Vec2 { x: 0, y: 0 };
    let pushed = boxed(
        MarginType::Extend,
        MarginType::Margin(6),
        MarginType::Extend,
        MarginType::Margin(5),
    );
    let layout = pushed.layout(child, true, origin);
    assert_eq!(layout.child_offset, Vec2 { x: 290, y: 304 });
    assert_eq!(layout.color, Color { rgb565: SELECT_COLOR });
    assert_eq!(layout.background, Rect { x: 0, y: 0, width: 319, height: 239 });
    let centered = boxed(
        MarginType::Extend,
        MarginType::Extend,
        MarginType::Extend,
        MarginType::Extend,
    );
    assert_eq!(centered.layout(child, true, origin).child_offset, Vec2 { x: 147, y: 155 });
    // a child wider than the screen is centered too, rounding towards zero
    assert_eq!(
        centered.layout(Vec2 { x: 325, y: 321 }, true, origin).child_offset,
        Vec2 { x: -2, y: 0 }
    );
    let kept = boxed(
        MarginType::Margin(7),
        MarginType::Extend,
        MarginType::Margin(9),
        MarginType::Extend,
    );
    assert_eq!(kept.layout(child, false, Vec2 { x: -4, y: 5 }).child_offset, Vec2 { x: 5, y: 12 });
    assert_eq!((IDLE_COLOR, SELECT_COLOR), (57083, 48631));
}

#[test]
fn every_character_has_a_glyph() {
    assert_eq!((CHARS_COUNT, CHAR_SIZE, CHAR_WIDTH, CHAR_HEIGHT), (44, 50, 5, 10));
    assert_eq!(get_char_data(&b'a'), (50, 100));
    assert_eq!(get_char_data(&b'A'), (50, 100));
    assert_eq!(get_char_data(&b'z'), (1300, 1350));
    assert_eq!(get_char_data(&b'Z'), (1300, 1350));
    assert_eq!(get_char_data(&b' '), (1350, 1400));
    assert_eq!(get_char_data(&b'.'), (1400, 1450));
    assert_eq!(get_char_data(&b':'), (1450, 1500));
    assert_eq!(get_char_data(&b'0'), (1500, 1550));
    assert_eq!(get_char_data(&b'9'), (1950, 2000));
    assert_eq!(get_char_data(&b'('), (2000, 2050));
    assert_eq!(get_char_data(&b')'), (2050, 2100));
    assert_eq!(get_char_data(&b'/'), (2100, 2150));
    assert_eq!(get_char_data(&b'_'), (2150, 2200));
    assert_eq!(get_char_data(&b'?'), (0, 50));
    assert_eq!(get_char_data(&0), (0, 50));
    assert_eq!(get_char_data(&255), (0, 50));
    for char in 0..=u8::MAX {
        let (start, end) = get_char_data(&char);
        assert_eq!(end, start + CHAR_SIZE);
        assert_eq!(start % CHAR_SIZE, 0);
        assert!(end <= CHARS_COUNT * CHAR_SIZE);
        let lower = (char as char).to_ascii_lowercase() as u8;
        assert_eq!(get_char_data(&lower), (start, end));
    }
}

#[test]
fn debug_text_runs_to_the_right_and_wraps() {
    let (rects, cursor) = draw_debug_text(3, (1, 1));
    assert_eq!(
        rects,
        vec![
            Rect { x: 1, y: 1, width: 5, height: 10 },
            Rect { x: 7, y: 1, width: 5, height: 10 },
            Rect { x: 13, y: 1, width: 5, height: 10 },
        ]
    );
    assert_eq!(cursor, (19, 1));
    let (rects, cursor) = draw_debug_text(0, (49, 12));
    assert!(rects.is_empty());
    assert_eq!(cursor, (49, 12));
    // the character that starts at 308 is drawn; after it the line is full
    let (rects, cursor) = draw_debug_text(2, (308, 23));
    assert_eq!(rects[0], Rect { x: 308, y: 23, width: 5, height: 10 });
    assert_eq!(rects[1], Rect { x: 314, y: 23, width: 5, height: 10 });
    assert_eq!(cursor, (0, 34));
    let (rects, cursor) = draw_debug_text(60, (1, 1));
    assert_eq!(rects.len(), 60);
    assert_eq!(rects[52], Rect { x: 313, y: 1, width: 5, height: 10 });
    assert_eq!(rects[53], Rect { x: 0, y: 12, width: 5, height: 10 });
    assert_eq!(cursor, (42, 12));
}

#[test]
fn a_label_asks_for_the_room_of_its_text() {
    let label = Label { text: b"hello".to_vec(), selected: false };
    assert_eq!(label.requested_size(), Vec2 { x: 25, y: 10 });
    let empty = Label { text: Vec::new(), selected: true };
    assert_eq!(empty.requested_size(), Vec2 { x: 0, y: 10 });
}

#[test]
fn a_label_places_its_characters() {
    let label = Label { text: b"hello".to_vec(), selected: false };
    let offset = Vec2 { x: 10, y: 20 };
    assert_eq!(label.glyph_rect(offset, 0), Some(Rect { x: 10, y: 20, width: 5, height: 10 }));
    assert_eq!(label.glyph_rect(offset, 4), Some(Rect { x: 30, y: 20, width: 5, height: 10 }));
    // off the rows in which labels are drawn
    assert_eq!(label.glyph_rect(Vec2 { x: 10, y: -1 }, 0), None);
    assert_eq!(label.glyph_rect(Vec2 { x: 10, y: 229 }, 0), Some(Rect { x: 10, y: 229, width: 5, height: 10 }));
    assert_eq!(label.glyph_rect(Vec2 { x: 10, y: 230 }, 0), None);
    assert_eq!(label.glyph_rect(Vec2 { x: 10, y: i32::MAX }, 0), None);
    // off the columns in which characters are drawn
    assert_eq!(label.glyph_rect(Vec2 { x: -5, y: 20 }, 0), None);
    assert_eq!(label.glyph_rect(Vec2 { x: -5, y: 20 }, 1), Some(Rect { x: 0, y: 20, width: 5, height: 10 }));
    assert_eq!(label.glyph_rect(Vec2 { x: 230, y: 20 }, 1), Some(Rect { x: 235, y: 20, width: 5, height: 10 }));
    assert_eq!(label.glyph_rect(Vec2 { x: 230, y: 20 }, 2), None);
    assert_eq!(label.glyph_rect(Vec2 { x: i32::MAX, y: 20 }, 4), None);
}

#[test]
fn a_label_passes_events_on_and_keeps_its_selection() {
    let mut label = Label { text: b"ok".to_vec(), selected: false };
    assert_eq!(label.update(UiEvent::Number(4)), UiEvent::Number(4));
    assert_eq!(label.update(UiEvent::Nothing), UiEvent::Nothing);
    assert_eq!(label.update(UiEvent::Okay), UiEvent::Okay);
    assert!(!label.get_selected());
    label.set_selected(true);
    assert!(label.get_selected());
    assert_eq!(label.text, b"ok".to_vec());
    label.set_selected(false);
    assert!(!label.get_selected());
}
