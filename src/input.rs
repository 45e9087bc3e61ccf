use vstd::prelude::*;
use vstd::string::{StrSliceExecFns, StringSliceAdditionalSpecFns};
use vstd::utf8::encode_utf8_decode_utf8;

verus! {

/// Whether two strings hold the same characters.
pub fn str_eq(a: &str, b: &str) -> (r: bool)
    ensures
        r == (a@ == b@),
{
    let x = a.as_bytes();
    let y = b.as_bytes();
    proof {
        encode_utf8_decode_utf8(a@);
        encode_utf8_decode_utf8(b@);
    }
    if x.len() != y.len() {
        return false;
    }
    let mut i: usize = 0;
    while i < x.len()
        invariant
            x@ == a.spec_bytes(),
            y@ == b.spec_bytes(),
            x@.len() == y@.len(),
            0 <= i <= x@.len(),
            forall|j: int| 0 <= j < i ==> x@[j] == y@[j],
        decreases x@.len() - i,
    {
        if x[i] != y[i] {
            return false;
        }
        i = i + 1;
    }
    proof {
        assert(x@ =~= y@);
    }
    true
}

/// A key on the keyboard, by what it does rather than what it types.
#[derive(Clone, Copy, Debug, PartialEq, Eq, Structural)]
pub enum Key {
    ArrowDown,
    ArrowLeft,
    ArrowRight,
    ArrowUp,
    Escape,
    Tab,
    Backspace,
    Enter,
    Space,
    Insert,
    Delete,
    Home,
    End,
    PageUp,
    PageDown,
    Num0,
    Num1,
    Num2,
    Num3,
    Num4,
    Num5,
    Num6,
    Num7,
    Num8,
    Num9,
    A,
    B,
    C,
    D,
    E,
    F,
    G,
    H,
    I,
    J,
    K,
    L,
    M,
    N,
    O,
    P,
    Q,
    R,
    S,
    T,
    U,
    V,
    W,
    X,
    Y,
    Z,
    F1,
    F2,
    F3,
    F4,
    F5,
    F6,
    F7,
    F8,
    F9,
    F10,
    F11,
    F12,
}

/// The key that a browser key name stands for.
pub open spec fn key_from_name(s: Seq<char>) -> Option<Key> {
    if s == "ArrowDown"@ || s == "Down"@ {
        Some(Key::ArrowDown)
    } else if s == "ArrowLeft"@ || s == "Left"@ {
        Some(Key::ArrowLeft)
    } else if s == "ArrowRight"@ || s == "Right"@ {
        Some(Key::ArrowRight)
    } else if s == "ArrowUp"@ || s == "Up"@ {
        Some(Key::ArrowUp)
    } else if s == "Escape"@ || s == "Esc"@ {
        Some(Key::Escape)
    } else if s == "Tab"@ {
        Some(Key::Tab)
    } else if s == "Backspace"@ {
        Some(Key::Backspace)
    } else if s == "Enter"@ || s == "Return"@ {
        Some(Key::Enter)
    } else if s == "Space"@ || s == " "@ {
        Some(Key::Space)
    } else if s == "Insert"@ {
        Some(Key::Insert)
    } else if s == "Delete"@ {
        Some(Key::Delete)
    } else if s == "Home"@ {
        Some(Key::Home)
    } else if s == "End"@ {
        Some(Key::End)
    } else if s == "PageUp"@ {
        Some(Key::PageUp)
    } else if s == "PageDown"@ {
        Some(Key::PageDown)
    } else if s == "0"@ || s == "Digit0"@ || s == "Numpad0"@ {
        Some(Key::Num0)
    } else if s == "1"@ || s == "Digit1"@ || s == "Numpad1"@ {
        Some(Key::Num1)
    } else if s == "2"@ || s == "Digit2"@ || s == "Numpad2"@ {
        Some(Key::Num2)
    } else if s == "3"@ || s == "Digit3"@ || s == "Numpad3"@ {
        Some(Key::Num3)
    } else if s == "4"@ || s == "Digit4"@ || s == "Numpad4"@ {
        Some(Key::Num4)
    } else if s == "5"@ || s == "Digit5"@ || s == "Numpad5"@ {
        Some(Key::Num5)
    } else if s == "6"@ || s == "Digit6"@ || s == "Numpad6"@ {
        Some(Key::Num6)
    } else if s == "7"@ || s == "Digit7"@ || s == "Numpad7"@ {
        Some(Key::Num7)
    } else if s == "8"@ || s == "Digit8"@ || s == "Numpad8"@ {
        Some(Key::Num8)
    } else if s == "9"@ || s == "Digit9"@ || s == "Numpad9"@ {
        Some(Key::Num9)
    } else if s == "A"@ || s == "a"@ {
        Some(Key::A)
    } else if s == "B"@ || s == "b"@ {
        Some(Key::B)
    } else if s == "C"@ || s == "c"@ {
        Some(Key::C)
    } else if s == "D"@ || s == "d"@ {
        Some(Key::D)
    } else if s == "E"@ || s == "e"@ {
        Some(Key::E)
    } else if s == "F"@ || s == "f"@ {
        Some(Key::F)
    } else if s == "G"@ || s == "g"@ {
        Some(Key::G)
    } else if s == "H"@ || s == "h"@ {
        Some(Key::H)
    } else if s == "I"@ || s == "i"@ {
        Some(Key::I)
    } else if s == "J"@ || s == "j"@ {
        Some(Key::J)
    } else if s == "K"@ || s == "k"@ {
        Some(Key::K)
    } else if s == "L"@ || s == "l"@ {
        Some(Key::L)
    } else if s == "M"@ || s == "m"@ {
        Some(Key::M)
    } else if s == "N"@ || s == "n"@ {
        Some(Key::N)
    } else if s == "O"@ || s == "o"@ {
        Some(Key::O)
    } else if s == "P"@ || s == "p"@ {
        Some(Key::P)
    } else if s == "Q"@ || s == "q"@ {
        Some(Key::Q)
    } else if s == "R"@ || s == "r"@ {
        Some(Key::R)
    } else if s == "S"@ || s == "s"@ {
        Some(Key::S)
    } else if s == "T"@ || s == "t"@ {
        Some(Key::T)
    } else if s == "U"@ || s == "u"@ {
        Some(Key::U)
    } else if s == "V"@ || s == "v"@ {
        Some(Key::V)
    } else if s == "W"@ || s == "w"@ {
        Some(Key::W)
    } else if s == "X"@ || s == "x"@ {
        Some(Key::X)
    } else if s == "Y"@ || s == "y"@ {
        Some(Key::Y)
    } else if s == "Z"@ || s == "z"@ {
        Some(Key::Z)
    } else if s == "F1"@ {
        Some(Key::F1)
    } else if s == "F2"@ {
        Some(Key::F2)
    } else if s == "F3"@ {
        Some(Key::F3)
    } else if s == "F4"@ {
        Some(Key::F4)
    } else if s == "F5"@ {
        Some(Key::F5)
    } else if s == "F6"@ {
        Some(Key::F6)
    } else if s == "F7"@ {
        Some(Key::F7)
    } else if s == "F8"@ {
        Some(Key::F8)
    } else if s == "F9"@ {
        Some(Key::F9)
    } else if s == "F10"@ {
        Some(Key::F10)
    } else if s == "F11"@ {
        Some(Key::F11)
    } else if s == "F12"@ {
        Some(Key::F12)
    } else {
        None
    }
}

/// Browsers report every key as a string; this tells the name of a key apart
/// from text that no key is named by.
pub fn translate_key(key: &str) -> (r: Option<Key>)
    ensures
        r == key_from_name(key@),
{
    if str_eq(key, "ArrowDown") || str_eq(key, "Down") {
        Some(Key::ArrowDown)
    } else if str_eq(key, "ArrowLeft") || str_eq(key, "Left") {
        Some(Key::ArrowLeft)
    } else if str_eq(key, "ArrowRight") || str_eq(key, "Right") {
        Some(Key::ArrowRight)
    } else if str_eq(key, "ArrowUp") || str_eq(key, "Up") {
        Some(Key::ArrowUp)
    } else if str_eq(key, "Escape") || str_eq(key, "Esc") {
        Some(Key::Escape)
    } else if str_eq(key, "Tab") {
        Some(Key::Tab)
    } else if str_eq(key, "Backspace") {
        Some(Key::Backspace)
    } else if str_eq(key, "Enter") || str_eq(key, "Return") {
        Some(Key::Enter)
    } else if str_eq(key, "Space") || str_eq(key, " ") {
        Some(Key::Space)
    } else if str_eq(key, "Insert") {
        Some(Key::Insert)
    } else if str_eq(key, "Delete") {
        Some(Key::Delete)
    } else if str_eq(key, "Home") {
        Some(Key::Home)
    } else if str_eq(key, "End") {
        Some(Key::End)
    } else if str_eq(key, "PageUp") {
        Some(Key::PageUp)
    } else if str_eq(key, "PageDown") {
        Some(Key::PageDown)
    } else if str_eq(key, "0") || str_eq(key, "Digit0") || str_eq(key, "Numpad0") {
        Some(Key::Num0)
    } else if str_eq(key, "1") || str_eq(key, "Digit1") || str_eq(key, "Numpad1") {
        Some(Key::Num1)
    } else if str_eq(key, "2") || str_eq(key, "Digit2") || str_eq(key, "Numpad2") {
        Some(Key::Num2)
    } else if str_eq(key, "3") || str_eq(key, "Digit3") || str_eq(key, "Numpad3") {
        Some(Key::Num3)
    } else if str_eq(key, "4") || str_eq(key, "Digit4") || str_eq(key, "Numpad4") {
        Some(Key::Num4)
    } else if str_eq(key, "5") || str_eq(key, "Digit5") || str_eq(key, "Numpad5") {
        Some(Key::Num5)
    } else if str_eq(key, "6") || str_eq(key, "Digit6") || str_eq(key, "Numpad6") {
        Some(Key::Num6)
    } else if str_eq(key, "7") || str_eq(key, "Digit7") || str_eq(key, "Numpad7") {
        Some(Key::Num7)
    } else if str_eq(key, "8") || str_eq(key, "Digit8") || str_eq(key, "Numpad8") {
        Some(Key::Num8)
    } else if str_eq(key, "9") || str_eq(key, "Digit9") || str_eq(key, "Numpad9") {
        Some(Key::Num9)
    } else if str_eq(key, "A") || str_eq(key, "a") {
        Some(Key::A)
    } else if str_eq(key, "B") || str_eq(key, "b") {
        Some(Key::B)
    } else if str_eq(key, "C") || str_eq(key, "c") {
        Some(Key::C)
    } else if str_eq(key, "D") || str_eq(key, "d") {
        Some(Key::D)
    } else if str_eq(key, "E") || str_eq(key, "e") {
        Some(Key::E)
    } else if str_eq(key, "F") || str_eq(key, "f") {
        Some(Key::F)
    } else if str_eq(key, "G") || str_eq(key, "g") {
        Some(Key::G)
    } else if str_eq(key, "H") || str_eq(key, "h") {
        Some(Key::H)
    } else if str_eq(key, "I") || str_eq(key, "i") {
        Some(Key::I)
    } else if str_eq(key, "J") || str_eq(key, "j") {
        Some(Key::J)
    } else if str_eq(key, "K") || str_eq(key, "k") {
        Some(Key::K)
    } else if str_eq(key, "L") || str_eq(key, "l") {
        Some(Key::L)
    } else if str_eq(key, "M") || str_eq(key, "m") {
        Some(Key::M)
    } else if str_eq(key, "N") || str_eq(key, "n") {
        Some(Key::N)
    } else if str_eq(key, "O") || str_eq(key, "o") {
        Some(Key::O)
    } else if str_eq(key, "P") || str_eq(key, "p") {
        Some(Key::P)
    } else if str_eq(key, "Q") || str_eq(key, "q") {
        Some(Key::Q)
    } else if str_eq(key, "R") || str_eq(key, "r") {
        Some(Key::R)
    } else if str_eq(key, "S") || str_eq(key, "s") {
        Some(Key::S)
    } else if str_eq(key, "T") || str_eq(key, "t") {
        Some(Key::T)
    } else if str_eq(key, "U") || str_eq(key, "u") {
        Some(Key::U)
    } else if str_eq(key, "V") || str_eq(key, "v") {
        Some(Key::V)
    } else if str_eq(key, "W") || str_eq(key, "w") {
        Some(Key::W)
    } else if str_eq(key, "X") || str_eq(key, "x") {
        Some(Key::X)
    } else if str_eq(key, "Y") || str_eq(key, "y") {
        Some(Key::Y)
    } else if str_eq(key, "Z") || str_eq(key, "z") {
        Some(Key::Z)
    } else if str_eq(key, "F1") {
        Some(Key::F1)
    } else if str_eq(key, "F2") {
        Some(Key::F2)
    } else if str_eq(key, "F3") {
        Some(Key::F3)
    } else if str_eq(key, "F4") {
        Some(Key::F4)
    } else if str_eq(key, "F5") {
        Some(Key::F5)
    } else if str_eq(key, "F6") {
        Some(Key::F6)
    } else if str_eq(key, "F7") {
        Some(Key::F7)
    } else if str_eq(key, "F8") {
        Some(Key::F8)
    } else if str_eq(key, "F9") {
        Some(Key::F9)
    } else if str_eq(key, "F10") {
        Some(Key::F10)
    } else if str_eq(key, "F11") {
        Some(Key::F11)
    } else if str_eq(key, "F12") {
        Some(Key::F12)
    } else {
        None
    }
}

/// Names of keys that type no text.
pub open spec fn is_control_key_name(s: Seq<char>) -> bool {
    s == "Alt"@
        || s == "ArrowDown"@
        || s == "ArrowLeft"@
        || s == "ArrowRight"@
        || s == "ArrowUp"@
        || s == "Backspace"@
        || s == "CapsLock"@
        || s == "ContextMenu"@
        || s == "Control"@
        || s == "Delete"@
        || s == "End"@
        || s == "Enter"@
        || s == "Esc"@
        || s == "Escape"@
        || s == "GroupNext"@
        || s == "Help"@
        || s == "Home"@
        || s == "Insert"@
        || s == "Meta"@
        || s == "NumLock"@
        || s == "PageDown"@
        || s == "PageUp"@
        || s == "Pause"@
        || s == "ScrollLock"@
        || s == "Shift"@
        || s == "Tab"@
}

/// Whether `s` names a function key (`F` and more).
pub open spec fn is_function_key_name(s: Seq<char>) -> bool {
    s.len() > 1 && s[0] == 'F'
}

/// The text that a key event with key name `key` types, if any.
pub fn text_from_key(key: &str) -> (r: Option<String>)
    ensures
        match r {
            Some(t) => t@ == key@ && !is_function_key_name(key@) && !is_control_key_name(key@),
            None => is_function_key_name(key@) || is_control_key_name(key@),
        },
{
    let n = key.unicode_len();
    if n > 1 && key.get_char(0) == 'F' {
        return None;
    }
    let is_control = str_eq(key, "Alt")
        || str_eq(key, "ArrowDown")
        || str_eq(key, "ArrowLeft")
        || str_eq(key, "ArrowRight")
        || str_eq(key, "ArrowUp")
        || str_eq(key, "Backspace")
        || str_eq(key, "CapsLock")
        || str_eq(key, "ContextMenu")
        || str_eq(key, "Control")
        || str_eq(key, "Delete")
        || str_eq(key, "End")
        || str_eq(key, "Enter")
        || str_eq(key, "Esc")
        || str_eq(key, "Escape")
        || str_eq(key, "GroupNext")
        || str_eq(key, "Help")
        || str_eq(key, "Home")
        || str_eq(key, "Insert")
        || str_eq(key, "Meta")
        || str_eq(key, "NumLock")
        || str_eq(key, "PageDown")
        || str_eq(key, "PageUp")
        || str_eq(key, "Pause")
        || str_eq(key, "ScrollLock")
        || str_eq(key, "Shift")
        || str_eq(key, "Tab");
    if is_control {
        return None;
    }
    Some(key.to_owned())
}

/// A mouse button.
#[derive(Clone, Copy, Debug, PartialEq, Eq, Structural)]
pub enum PointerButton {
    Primary,
    Middle,
    Secondary,
    Extra1,
    Extra2,
}

/// The button of a DOM mouse event's `button` code; `None` for codes past the fifth.
pub fn button_from_code(code: i16) -> (r: Option<PointerButton>)
    ensures
        r == (if code == 0 {
            Some(PointerButton::Primary)
        } else if code == 1 {
            Some(PointerButton::Middle)
        } else if code == 2 {
            Some(PointerButton::Secondary)
        } else if code == 3 {
            Some(PointerButton::Extra1)
        } else if code == 4 {
            Some(PointerButton::Extra2)
        } else {
            None
        }),
{
    match code {
        0 => Some(PointerButton::Primary),
        1 => Some(PointerButton::Middle),
        2 => Some(PointerButton::Secondary),
        3 => Some(PointerButton::Extra1),
        4 => Some(PointerButton::Extra2),
        _ => None,
    }
}

/// Modifier keys held during an event.
#[derive(Clone, Copy, Debug, PartialEq, Eq, Structural)]
pub struct Modifiers {
    pub alt: bool,
    pub ctrl: bool,
    pub shift: bool,
    /// The Mac command key.
    pub mac_cmd: bool,
    /// Ctrl or command: the key that shortcuts use on this platform.
    pub command: bool,
}

/// Modifiers from the four flags that keyboard, mouse and wheel events carry.
pub fn modifiers_from_flags(alt: bool, ctrl: bool, shift: bool, meta: bool) -> (r: Modifiers)
    ensures
        r == (Modifiers { alt, ctrl, shift, mac_cmd: meta, command: ctrl || meta }),
{
    Modifiers { alt, ctrl, shift, mac_cmd: meta, command: ctrl || meta }
}

/// Picks the touch that drives the pointer among the current touches `ids`:
/// the one followed so far while it lasts, else the first. `touch_id_for_pos` follows
/// the choice; with no touch at all it is left as it was.
pub fn select_touch(ids: &Vec<i32>, touch_id_for_pos: &mut Option<i32>) -> (r: Option<usize>)
    ensures
        match r {
            Some(i) => i < ids@.len() && *final(touch_id_for_pos) == Some(ids@[i as int]),
            None => ids@.len() == 0 && *final(touch_id_for_pos) == *old(touch_id_for_pos),
        },
        match *old(touch_id_for_pos) {
            Some(t) => match r {
                Some(i) => (ids@[i as int] == t && forall|j: int| 0 <= j < i ==> ids@[j] != t)
                    || (i == 0 && forall|j: int| 0 <= j < ids@.len() ==> ids@[j] != t),
                None => true,
            },
            None => ids@.len() > 0 ==> r == Some(0usize),
        },
{
    match *touch_id_for_pos {
        Some(t) => {
            let mut i: usize = 0;
            while i < ids.len()
                invariant
                    0 <= i <= ids@.len(),
                    forall|j: int| 0 <= j < i ==> ids@[j] != t,
                    *touch_id_for_pos == Some(t),
                    *old(touch_id_for_pos) == Some(t),
                decreases ids@.len() - i,
            {
                if ids[i] == t {
                    return Some(i);
                }
                i = i + 1;
            }
        },
        None => {},
    }
    if ids.len() > 0 {
        *touch_id_for_pos = Some(ids[0]);
        Some(0)
    } else {
        None
    }
}

} // verus!
