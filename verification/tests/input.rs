use rcore_gui::drivers::virtio_phys_to_virt;
use rcore_gui::input::{decode, keyboard_actions, InputAction, InputEvent, KeyType, Mouse};

#[test]
fn letter_is_typed_and_sent_to_snake() {
    // code 30 is the A key
    assert_eq!(
        decode(InputEvent::Key(30, KeyType::Press)),
        vec![InputAction::PadAddStr(vec!['a']), InputAction::SnakeKey(30)]
    );
}

#[test]
fn enter_types_a_line_break() {
    assert_eq!(
        decode(InputEvent::Key(28, KeyType::Press)),
        vec![InputAction::PadAddStr(vec!['\r', '\n'])]
    );
}

#[test]
fn backspace_sends_delete() {
    assert_eq!(decode(InputEvent::Key(14, KeyType::Press)), vec![InputAction::PadSpecialChar(127)]);
}

#[test]
fn left_click_updates_cursor() {
    assert_eq!(decode(InputEvent::Key(272, KeyType::Press)), vec![InputAction::UpdateCursor]);
    assert_eq!(decode(InputEvent::Key(273, KeyType::Press)), vec![]);
}

#[test]
fn releases_and_mouse_moves_do_nothing() {
    assert_eq!(decode(InputEvent::Key(30, KeyType::Release)), vec![]);
    assert_eq!(decode(InputEvent::Mouse(Mouse::X(5))), vec![]);
    assert_eq!(decode(InputEvent::Mouse(Mouse::ScrollUp)), vec![]);
}

#[test]
fn keys_without_characters_do_nothing() {
    // 1 is ESC, 42 is left shift, 999 is no key
    assert_eq!(decode(InputEvent::Key(1, KeyType::Press)), vec![]);
    assert_eq!(decode(InputEvent::Key(42, KeyType::Press)), vec![]);
    assert_eq!(decode(InputEvent::Key(999, KeyType::Press)), vec![]);
}

#[test]
fn keyboard_actions_follow_the_character() {
    assert_eq!(
        keyboard_actions(14, Some('x')),
        vec![InputAction::PadSpecialChar(127), InputAction::PadAddStr(vec!['x']), InputAction::SnakeKey(14)]
    );
    assert_eq!(keyboard_actions(5, Some('\r')), vec![InputAction::PadAddStr(vec!['\r', '\n'])]);
    assert_eq!(keyboard_actions(5, None), vec![]);
}

#[test]
fn physical_addresses_map_to_themselves() {
    assert_eq!(virtio_phys_to_virt(0x8020_0000), 0x8020_0000);
}
