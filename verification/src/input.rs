//! What the kernel does with an input event: a pressed key is typed into
//! the terminal pad and handed to the snake game, backspace erases, and a
//! left click updates the cursor.
use vstd::prelude::*;

verus! {

/// Whether a key went down or up.
#[derive(Clone, Copy, Debug, PartialEq, Eq, Structural)]
pub enum KeyType {
    Press,
    Release,
}

/// A mouse event.
#[derive(Clone, Copy, Debug, PartialEq, Eq, Structural)]
pub enum Mouse {
    ScrollUp,
    ScrollDown,
    X(usize),
    Y(usize),
}

/// A decoded input event; a key is given by its virtio input code.
#[derive(Clone, Copy, Debug, PartialEq, Eq, Structural)]
pub enum InputEvent {
    Key(usize, KeyType),
    Mouse(Mouse),
}

/// One thing to do in answer to an input event.
#[derive(Debug, PartialEq, Eq)]
pub enum InputAction {
    /// Hand the terminal pad a special character.
    PadSpecialChar(u8),
    /// Type these characters into the terminal pad.
    PadAddStr(Vec<char>),
    /// Hand the key, by its code, to the snake game.
    SnakeKey(usize),
    /// Update the mouse cursor.
    UpdateCursor,
}

/// The virtio input code of the backspace key.
pub const KEY_BACKSPACE: usize = 14;

/// The virtio input code of the left mouse button.
pub const KEY_MOUSE_LEFT: usize = 272;

/// The character that `virtio_input_decoder` gives for the key with input
/// code `code`, or `None` for a key with no character or a code of no key.
pub uninterp spec fn key_char(code: usize) -> Option<char>;

/// Calls `virtio_input_decoder::Key::from_code` and then `Key::to_char`.
/// The contract names the result `key_char(code)` and claims nothing more of
/// it.
#[verifier::external_body]
fn key_to_char(code: usize) -> (r: Option<char>)
    ensures
        r == key_char(code),
{
    match virtio_input_decoder::Key::from_code(code) {
        Ok(key) => key.to_char().ok(),
        Err(_) => None,
    }
}

/// Whether `a` types exactly `s` into the pad.
pub open spec fn adds_str(a: InputAction, s: Seq<char>) -> bool {
    a matches InputAction::PadAddStr(t) && t@ == s
}

/// Whether `acts` is the answer to pressing the key `code` whose character
/// is `ch`: backspace first sends the pad character 127; a carriage return
/// types a carriage return and a line feed; any other character is typed
/// and the key is handed to the snake game.
pub open spec fn keyboard_actions_are(acts: Seq<InputAction>, code: usize, ch: Option<char>) -> bool {
    let lead: int = if code == KEY_BACKSPACE {
        1
    } else {
        0
    };
    &&& code == KEY_BACKSPACE ==> acts.len() >= 1 && acts[0] == InputAction::PadSpecialChar(127)
    &&& match ch {
        None => acts.len() == lead,
        Some(c) => if c == '\r' {
            acts.len() == lead + 1 && adds_str(acts[lead], seq!['\r', '\n'])
        } else {
            acts.len() == lead + 2 && adds_str(acts[lead], seq![c]) && acts[lead + 1]
                == InputAction::SnakeKey(code)
        },
    }
}

/// Pressing a key whose character `c` is not a carriage return types exactly
/// `c` into the pad and then hands the key to the snake game, after the 127
/// that backspace sends first; every such character is answered.
pub proof fn law_character_typed(acts: Seq<InputAction>, code: usize, c: char)
    requires
        keyboard_actions_are(acts, code, Some(c)),
        c != '\r',
    ensures
        acts.len() == (if code == KEY_BACKSPACE {
            3int
        } else {
            2int
        }),
        (acts[acts.len() - 2] matches InputAction::PadAddStr(t) && t@ == seq![c]),
        acts[acts.len() - 1] == InputAction::SnakeKey(code),
        code == KEY_BACKSPACE ==> acts[0] == InputAction::PadSpecialChar(127),
{
}

/// Pressing the carriage return key types a carriage return and a line
/// feed and nothing else; a key with no character types nothing.
pub proof fn law_enter_and_silent_keys(acts: Seq<InputAction>, code: usize, ch: Option<char>)
    requires
        keyboard_actions_are(acts, code, ch),
        ch is None || ch == Some('\r'),
    ensures
        ch is None ==> acts.len() == (if code == KEY_BACKSPACE {
            1int
        } else {
            0int
        }),
        ch == Some('\r') ==> (acts.last() matches InputAction::PadAddStr(t) && t@ == seq!['\r', '\n']),
        ch == Some('\r') ==> acts.len() == (if code == KEY_BACKSPACE {
            2int
        } else {
            1int
        }),
{
}

/// The answer to pressing the key `code`, whose character is `ch`.
pub fn keyboard_actions(code: usize, ch: Option<char>) -> (acts: Vec<InputAction>)
    ensures
        keyboard_actions_are(acts@, code, ch),
        ch is Some && ch->0 != '\r' ==> acts@.len() >= 2 && (acts@[acts@.len() - 2] matches InputAction::PadAddStr(
            t,
        ) && t@ == seq![ch->0]) && acts@[acts@.len() - 1] == InputAction::SnakeKey(code),
{
    let mut acts: Vec<InputAction> = Vec::new();
    if code == KEY_BACKSPACE {
        acts.push(InputAction::PadSpecialChar(127));
    }
    let ghost lead = acts@;
    match ch {
        Some(k) => {
            if k == '\r' {
                let mut s: Vec<char> = Vec::new();
                s.push(k);
                s.push('\n');
                acts.push(InputAction::PadAddStr(s));
                assert(adds_str(acts@[acts@.len() - 1], seq!['\r', '\n'])) by {
                    assert(s@ =~= seq!['\r', '\n']);
                }
            } else {
                let mut s: Vec<char> = Vec::new();
                s.push(k);
                acts.push(InputAction::PadAddStr(s));
                assert(s@ =~= seq![k]);
                acts.push(InputAction::SnakeKey(code));
            }
        },
        None => {},
    }
    acts
}

/// The answer to an input event: a key press is answered as
/// `keyboard_actions` says for its character, followed, for the left mouse
/// button, by a cursor update; releases and mouse events need no action.
pub fn decode(event: InputEvent) -> (acts: Vec<InputAction>)
    ensures
        match event {
            InputEvent::Key(code, KeyType::Press) => if code == KEY_MOUSE_LEFT {
                acts@.len() >= 1 && acts@.last() == InputAction::UpdateCursor
                    && keyboard_actions_are(acts@.drop_last(), code, key_char(code))
            } else {
                keyboard_actions_are(acts@, code, key_char(code))
            },
            _ => acts@.len() == 0,
        },
        event matches InputEvent::Key(code, KeyType::Press) ==> (key_char(code) is Some
            && key_char(code)->0 != '\r' && code != KEY_MOUSE_LEFT ==> acts@.len() >= 2 && (
        acts@[acts@.len() - 2] matches InputAction::PadAddStr(t) && t@ == seq![key_char(code)->0])
            && acts@[acts@.len() - 1] == InputAction::SnakeKey(code)),
{
    match event {
        InputEvent::Key(code, KeyType::Press) => {
            let mut acts = keyboard_actions(code, key_to_char(code));
            if code == KEY_MOUSE_LEFT {
                let ghost before = acts@;
                acts.push(InputAction::UpdateCursor);
                assert(acts@.drop_last() =~= before);
            }
            acts
        },
        _ => Vec::new(),
    }
}

} // verus!
