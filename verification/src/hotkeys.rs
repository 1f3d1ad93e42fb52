//! Hotkey bindings: parsing strings such as `ctrl+shift+f9`, and deciding
//! whether a binding fires for the keys that are held down. Keys are Linux
//! input event codes (the values of `linux/input-event-codes.h`).

use vstd::prelude::*;
use crate::error::NitrogenError;
use crate::text::{
    owned, push_text, to_lower, same_text, lower_text, chars_of, split_chars, split_char,
    trim_chars, trimmed, string_from_chars, decimal, digit_char,
};

verus! {

pub const KEY_F1: u16 = 59;
pub const KEY_F2: u16 = 60;
pub const KEY_F3: u16 = 61;
pub const KEY_F4: u16 = 62;
pub const KEY_F5: u16 = 63;
pub const KEY_F6: u16 = 64;
pub const KEY_F7: u16 = 65;
pub const KEY_F8: u16 = 66;
pub const KEY_F9: u16 = 67;
pub const KEY_F10: u16 = 68;
pub const KEY_F11: u16 = 87;
pub const KEY_F12: u16 = 88;
pub const KEY_1: u16 = 2;
pub const KEY_2: u16 = 3;
pub const KEY_3: u16 = 4;
pub const KEY_4: u16 = 5;
pub const KEY_5: u16 = 6;
pub const KEY_6: u16 = 7;
pub const KEY_7: u16 = 8;
pub const KEY_8: u16 = 9;
pub const KEY_9: u16 = 10;
pub const KEY_0: u16 = 11;
pub const KEY_A: u16 = 30;
pub const KEY_B: u16 = 48;
pub const KEY_C: u16 = 46;
pub const KEY_D: u16 = 32;
pub const KEY_E: u16 = 18;
pub const KEY_F: u16 = 33;
pub const KEY_G: u16 = 34;
pub const KEY_H: u16 = 35;
pub const KEY_I: u16 = 23;
pub const KEY_J: u16 = 36;
pub const KEY_K: u16 = 37;
pub const KEY_L: u16 = 38;
pub const KEY_M: u16 = 50;
pub const KEY_N: u16 = 49;
pub const KEY_O: u16 = 24;
pub const KEY_P: u16 = 25;
pub const KEY_Q: u16 = 16;
pub const KEY_R: u16 = 19;
pub const KEY_S: u16 = 31;
pub const KEY_T: u16 = 20;
pub const KEY_U: u16 = 22;
pub const KEY_V: u16 = 47;
pub const KEY_W: u16 = 17;
pub const KEY_X: u16 = 45;
pub const KEY_Y: u16 = 21;
pub const KEY_Z: u16 = 44;
pub const KEY_SPACE: u16 = 57;
pub const KEY_ENTER: u16 = 28;
pub const KEY_ESC: u16 = 1;
pub const KEY_TAB: u16 = 15;
pub const KEY_BACKSPACE: u16 = 14;
pub const KEY_DELETE: u16 = 111;
pub const KEY_INSERT: u16 = 110;
pub const KEY_HOME: u16 = 102;
pub const KEY_END: u16 = 107;
pub const KEY_PAGEUP: u16 = 104;
pub const KEY_PAGEDOWN: u16 = 109;
pub const KEY_UP: u16 = 103;
pub const KEY_DOWN: u16 = 108;
pub const KEY_LEFT: u16 = 105;
pub const KEY_RIGHT: u16 = 106;
pub const KEY_SYSRQ: u16 = 99;
pub const KEY_PAUSE: u16 = 119;
pub const KEY_SCROLLLOCK: u16 = 70;
pub const KEY_KP0: u16 = 82;
pub const KEY_KP1: u16 = 79;
pub const KEY_KP2: u16 = 80;
pub const KEY_KP3: u16 = 81;
pub const KEY_KP4: u16 = 75;
pub const KEY_KP5: u16 = 76;
pub const KEY_KP6: u16 = 77;
pub const KEY_KP7: u16 = 71;
pub const KEY_KP8: u16 = 72;
pub const KEY_KP9: u16 = 73;
pub const KEY_LEFTCTRL: u16 = 29;
pub const KEY_RIGHTCTRL: u16 = 97;
pub const KEY_LEFTALT: u16 = 56;
pub const KEY_RIGHTALT: u16 = 100;
pub const KEY_LEFTSHIFT: u16 = 42;
pub const KEY_RIGHTSHIFT: u16 = 54;
pub const KEY_LEFTMETA: u16 = 125;
pub const KEY_RIGHTMETA: u16 = 126;

/// A hotkey action
#[derive(Debug, Clone, Copy, PartialEq, Eq, Hash, Structural)]
pub enum HotkeyAction {
    /// Toggle capture on/off
    Toggle,
    /// Start capture
    Start,
    /// Stop capture
    Stop,
    /// Pause/resume capture
    Pause,
    /// Toggle recording
    ToggleRecording,
}

/// The key code that a lowercased key name stands for.
pub open spec fn key_code_of(l: Seq<char>) -> Option<u16> {
    if l == "f1"@ {
        Some(KEY_F1)
    } else if l == "f2"@ {
        Some(KEY_F2)
    } else if l == "f3"@ {
        Some(KEY_F3)
    } else if l == "f4"@ {
        Some(KEY_F4)
    } else if l == "f5"@ {
        Some(KEY_F5)
    } else if l == "f6"@ {
        Some(KEY_F6)
    } else if l == "f7"@ {
        Some(KEY_F7)
    } else if l == "f8"@ {
        Some(KEY_F8)
    } else if l == "f9"@ {
        Some(KEY_F9)
    } else if l == "f10"@ {
        Some(KEY_F10)
    } else if l == "f11"@ {
        Some(KEY_F11)
    } else if l == "f12"@ {
        Some(KEY_F12)
    } else if l == "1"@ {
        Some(KEY_1)
    } else if l == "2"@ {
        Some(KEY_2)
    } else if l == "3"@ {
        Some(KEY_3)
    } else if l == "4"@ {
        Some(KEY_4)
    } else if l == "5"@ {
        Some(KEY_5)
    } else if l == "6"@ {
        Some(KEY_6)
    } else if l == "7"@ {
        Some(KEY_7)
    } else if l == "8"@ {
        Some(KEY_8)
    } else if l == "9"@ {
        Some(KEY_9)
    } else if l == "0"@ {
        Some(KEY_0)
    } else if l == "a"@ {
        Some(KEY_A)
    } else if l == "b"@ {
        Some(KEY_B)
    } else if l == "c"@ {
        Some(KEY_C)
    } else if l == "d"@ {
        Some(KEY_D)
    } else if l == "e"@ {
        Some(KEY_E)
    } else if l == "f"@ {
        Some(KEY_F)
    } else if l == "g"@ {
        Some(KEY_G)
    } else if l == "h"@ {
        Some(KEY_H)
    } else if l == "i"@ {
        Some(KEY_I)
    } else if l == "j"@ {
        Some(KEY_J)
    } else if l == "k"@ {
        Some(KEY_K)
    } else if l == "l"@ {
        Some(KEY_L)
    } else if l == "m"@ {
        Some(KEY_M)
    } else if l == "n"@ {
        Some(KEY_N)
    } else if l == "o"@ {
        Some(KEY_O)
    } else if l == "p"@ {
        Some(KEY_P)
    } else if l == "q"@ {
        Some(KEY_Q)
    } else if l == "r"@ {
        Some(KEY_R)
    } else if l == "s"@ {
        Some(KEY_S)
    } else if l == "t"@ {
        Some(KEY_T)
    } else if l == "u"@ {
        Some(KEY_U)
    } else if l == "v"@ {
        Some(KEY_V)
    } else if l == "w"@ {
        Some(KEY_W)
    } else if l == "x"@ {
        Some(KEY_X)
    } else if l == "y"@ {
        Some(KEY_Y)
    } else if l == "z"@ {
        Some(KEY_Z)
    } else if l == "space"@ {
        Some(KEY_SPACE)
    } else if l == "enter"@ || l == "return"@ {
        Some(KEY_ENTER)
    } else if l == "escape"@ || l == "esc"@ {
        Some(KEY_ESC)
    } else if l == "tab"@ {
        Some(KEY_TAB)
    } else if l == "backspace"@ {
        Some(KEY_BACKSPACE)
    } else if l == "delete"@ || l == "del"@ {
        Some(KEY_DELETE)
    } else if l == "insert"@ || l == "ins"@ {
        Some(KEY_INSERT)
    } else if l == "home"@ {
        Some(KEY_HOME)
    } else if l == "end"@ {
        Some(KEY_END)
    } else if l == "pageup"@ || l == "pgup"@ {
        Some(KEY_PAGEUP)
    } else if l == "pagedown"@ || l == "pgdn"@ {
        Some(KEY_PAGEDOWN)
    } else if l == "up"@ {
        Some(KEY_UP)
    } else if l == "down"@ {
        Some(KEY_DOWN)
    } else if l == "left"@ {
        Some(KEY_LEFT)
    } else if l == "right"@ {
        Some(KEY_RIGHT)
    } else if l == "printscreen"@ || l == "print"@ || l == "prtsc"@ {
        Some(KEY_SYSRQ)
    } else if l == "pause"@ {
        Some(KEY_PAUSE)
    } else if l == "scrolllock"@ {
        Some(KEY_SCROLLLOCK)
    } else if l == "numpad0"@ || l == "kp0"@ {
        Some(KEY_KP0)
    } else if l == "numpad1"@ || l == "kp1"@ {
        Some(KEY_KP1)
    } else if l == "numpad2"@ || l == "kp2"@ {
        Some(KEY_KP2)
    } else if l == "numpad3"@ || l == "kp3"@ {
        Some(KEY_KP3)
    } else if l == "numpad4"@ || l == "kp4"@ {
        Some(KEY_KP4)
    } else if l == "numpad5"@ || l == "kp5"@ {
        Some(KEY_KP5)
    } else if l == "numpad6"@ || l == "kp6"@ {
        Some(KEY_KP6)
    } else if l == "numpad7"@ || l == "kp7"@ {
        Some(KEY_KP7)
    } else if l == "numpad8"@ || l == "kp8"@ {
        Some(KEY_KP8)
    } else if l == "numpad9"@ || l == "kp9"@ {
        Some(KEY_KP9)
    } else {
        None
    }
}

/// The key code that an already lower-cased key name stands for.
pub fn key_from_lowered(l: &str) -> (r: Option<u16>)
    ensures
        r == key_code_of(l@),
{
    if same_text(l, "f1") {
        Some(KEY_F1)
    } else if same_text(l, "f2") {
        Some(KEY_F2)
    } else if same_text(l, "f3") {
        Some(KEY_F3)
    } else if same_text(l, "f4") {
        Some(KEY_F4)
    } else if same_text(l, "f5") {
        Some(KEY_F5)
    } else if same_text(l, "f6") {
        Some(KEY_F6)
    } else if same_text(l, "f7") {
        Some(KEY_F7)
    } else if same_text(l, "f8") {
        Some(KEY_F8)
    } else if same_text(l, "f9") {
        Some(KEY_F9)
    } else if same_text(l, "f10") {
        Some(KEY_F10)
    } else if same_text(l, "f11") {
        Some(KEY_F11)
    } else if same_text(l, "f12") {
        Some(KEY_F12)
    } else if same_text(l, "1") {
        Some(KEY_1)
    } else if same_text(l, "2") {
        Some(KEY_2)
    } else if same_text(l, "3") {
        Some(KEY_3)
    } else if same_text(l, "4") {
        Some(KEY_4)
    } else if same_text(l, "5") {
        Some(KEY_5)
    } else if same_text(l, "6") {
        Some(KEY_6)
    } else if same_text(l, "7") {
        Some(KEY_7)
    } else if same_text(l, "8") {
        Some(KEY_8)
    } else if same_text(l, "9") {
        Some(KEY_9)
    } else if same_text(l, "0") {
        Some(KEY_0)
    } else if same_text(l, "a") {
        Some(KEY_A)
    } else if same_text(l, "b") {
        Some(KEY_B)
    } else if same_text(l, "c") {
        Some(KEY_C)
    } else if same_text(l, "d") {
        Some(KEY_D)
    } else if same_text(l, "e") {
        Some(KEY_E)
    } else if same_text(l, "f") {
        Some(KEY_F)
    } else if same_text(l, "g") {
        Some(KEY_G)
    } else if same_text(l, "h") {
        Some(KEY_H)
    } else if same_text(l, "i") {
        Some(KEY_I)
    } else if same_text(l, "j") {
        Some(KEY_J)
    } else if same_text(l, "k") {
        Some(KEY_K)
    } else if same_text(l, "l") {
        Some(KEY_L)
    } else if same_text(l, "m") {
        Some(KEY_M)
    } else if same_text(l, "n") {
        Some(KEY_N)
    } else if same_text(l, "o") {
        Some(KEY_O)
    } else if same_text(l, "p") {
        Some(KEY_P)
    } else if same_text(l, "q") {
        Some(KEY_Q)
    } else if same_text(l, "r") {
        Some(KEY_R)
    } else if same_text(l, "s") {
        Some(KEY_S)
    } else if same_text(l, "t") {
        Some(KEY_T)
    } else if same_text(l, "u") {
        Some(KEY_U)
    } else if same_text(l, "v") {
        Some(KEY_V)
    } else if same_text(l, "w") {
        Some(KEY_W)
    } else if same_text(l, "x") {
        Some(KEY_X)
    } else if same_text(l, "y") {
        Some(KEY_Y)
    } else if same_text(l, "z") {
        Some(KEY_Z)
    } else if same_text(l, "space") {
        Some(KEY_SPACE)
    } else if same_text(l, "enter") || same_text(l, "return") {
        Some(KEY_ENTER)
    } else if same_text(l, "escape") || same_text(l, "esc") {
        Some(KEY_ESC)
    } else if same_text(l, "tab") {
        Some(KEY_TAB)
    } else if same_text(l, "backspace") {
        Some(KEY_BACKSPACE)
    } else if same_text(l, "delete") || same_text(l, "del") {
        Some(KEY_DELETE)
    } else if same_text(l, "insert") || same_text(l, "ins") {
        Some(KEY_INSERT)
    } else if same_text(l, "home") {
        Some(KEY_HOME)
    } else if same_text(l, "end") {
        Some(KEY_END)
    } else if same_text(l, "pageup") || same_text(l, "pgup") {
        Some(KEY_PAGEUP)
    } else if same_text(l, "pagedown") || same_text(l, "pgdn") {
        Some(KEY_PAGEDOWN)
    } else if same_text(l, "up") {
        Some(KEY_UP)
    } else if same_text(l, "down") {
        Some(KEY_DOWN)
    } else if same_text(l, "left") {
        Some(KEY_LEFT)
    } else if same_text(l, "right") {
        Some(KEY_RIGHT)
    } else if same_text(l, "printscreen") || same_text(l, "print") || same_text(l, "prtsc") {
        Some(KEY_SYSRQ)
    } else if same_text(l, "pause") {
        Some(KEY_PAUSE)
    } else if same_text(l, "scrolllock") {
        Some(KEY_SCROLLLOCK)
    } else if same_text(l, "numpad0") || same_text(l, "kp0") {
        Some(KEY_KP0)
    } else if same_text(l, "numpad1") || same_text(l, "kp1") {
        Some(KEY_KP1)
    } else if same_text(l, "numpad2") || same_text(l, "kp2") {
        Some(KEY_KP2)
    } else if same_text(l, "numpad3") || same_text(l, "kp3") {
        Some(KEY_KP3)
    } else if same_text(l, "numpad4") || same_text(l, "kp4") {
        Some(KEY_KP4)
    } else if same_text(l, "numpad5") || same_text(l, "kp5") {
        Some(KEY_KP5)
    } else if same_text(l, "numpad6") || same_text(l, "kp6") {
        Some(KEY_KP6)
    } else if same_text(l, "numpad7") || same_text(l, "kp7") {
        Some(KEY_KP7)
    } else if same_text(l, "numpad8") || same_text(l, "kp8") {
        Some(KEY_KP8)
    } else if same_text(l, "numpad9") || same_text(l, "kp9") {
        Some(KEY_KP9)
    } else {
        None
    }
}

/// Length, first and last character of every key name: together they tell
/// the names apart.
proof fn lemma_key_names_known()
    ensures
        "f1"@.len() == 2 && "f1"@[0] == 'f' && "f1"@[1] == '1',
        "f2"@.len() == 2 && "f2"@[0] == 'f' && "f2"@[1] == '2',
        "f3"@.len() == 2 && "f3"@[0] == 'f' && "f3"@[1] == '3',
        "f4"@.len() == 2 && "f4"@[0] == 'f' && "f4"@[1] == '4',
        "f5"@.len() == 2 && "f5"@[0] == 'f' && "f5"@[1] == '5',
        "f6"@.len() == 2 && "f6"@[0] == 'f' && "f6"@[1] == '6',
        "f7"@.len() == 2 && "f7"@[0] == 'f' && "f7"@[1] == '7',
        "f8"@.len() == 2 && "f8"@[0] == 'f' && "f8"@[1] == '8',
        "f9"@.len() == 2 && "f9"@[0] == 'f' && "f9"@[1] == '9',
        "f10"@.len() == 3 && "f10"@[0] == 'f' && "f10"@[2] == '0',
        "f11"@.len() == 3 && "f11"@[0] == 'f' && "f11"@[2] == '1',
        "f12"@.len() == 3 && "f12"@[0] == 'f' && "f12"@[2] == '2',
        "1"@.len() == 1 && "1"@[0] == '1' && "1"@[0] == '1',
        "2"@.len() == 1 && "2"@[0] == '2' && "2"@[0] == '2',
        "3"@.len() == 1 && "3"@[0] == '3' && "3"@[0] == '3',
        "4"@.len() == 1 && "4"@[0] == '4' && "4"@[0] == '4',
        "5"@.len() == 1 && "5"@[0] == '5' && "5"@[0] == '5',
        "6"@.len() == 1 && "6"@[0] == '6' && "6"@[0] == '6',
        "7"@.len() == 1 && "7"@[0] == '7' && "7"@[0] == '7',
        "8"@.len() == 1 && "8"@[0] == '8' && "8"@[0] == '8',
        "9"@.len() == 1 && "9"@[0] == '9' && "9"@[0] == '9',
        "0"@.len() == 1 && "0"@[0] == '0' && "0"@[0] == '0',
        "a"@.len() == 1 && "a"@[0] == 'a' && "a"@[0] == 'a',
        "b"@.len() == 1 && "b"@[0] == 'b' && "b"@[0] == 'b',
        "c"@.len() == 1 && "c"@[0] == 'c' && "c"@[0] == 'c',
        "d"@.len() == 1 && "d"@[0] == 'd' && "d"@[0] == 'd',
        "e"@.len() == 1 && "e"@[0] == 'e' && "e"@[0] == 'e',
        "f"@.len() == 1 && "f"@[0] == 'f' && "f"@[0] == 'f',
        "g"@.len() == 1 && "g"@[0] == 'g' && "g"@[0] == 'g',
        "h"@.len() == 1 && "h"@[0] == 'h' && "h"@[0] == 'h',
        "i"@.len() == 1 && "i"@[0] == 'i' && "i"@[0] == 'i',
        "j"@.len() == 1 && "j"@[0] == 'j' && "j"@[0] == 'j',
        "k"@.len() == 1 && "k"@[0] == 'k' && "k"@[0] == 'k',
        "l"@.len() == 1 && "l"@[0] == 'l' && "l"@[0] == 'l',
        "m"@.len() == 1 && "m"@[0] == 'm' && "m"@[0] == 'm',
        "n"@.len() == 1 && "n"@[0] == 'n' && "n"@[0] == 'n',
        "o"@.len() == 1 && "o"@[0] == 'o' && "o"@[0] == 'o',
        "p"@.len() == 1 && "p"@[0] == 'p' && "p"@[0] == 'p',
        "q"@.len() == 1 && "q"@[0] == 'q' && "q"@[0] == 'q',
        "r"@.len() == 1 && "r"@[0] == 'r' && "r"@[0] == 'r',
        "s"@.len() == 1 && "s"@[0] == 's' && "s"@[0] == 's',
        "t"@.len() == 1 && "t"@[0] == 't' && "t"@[0] == 't',
        "u"@.len() == 1 && "u"@[0] == 'u' && "u"@[0] == 'u',
        "v"@.len() == 1 && "v"@[0] == 'v' && "v"@[0] == 'v',
        "w"@.len() == 1 && "w"@[0] == 'w' && "w"@[0] == 'w',
        "x"@.len() == 1 && "x"@[0] == 'x' && "x"@[0] == 'x',
        "y"@.len() == 1 && "y"@[0] == 'y' && "y"@[0] == 'y',
        "z"@.len() == 1 && "z"@[0] == 'z' && "z"@[0] == 'z',
        "space"@.len() == 5 && "space"@[0] == 's' && "space"@[4] == 'e',
        "enter"@.len() == 5 && "enter"@[0] == 'e' && "enter"@[4] == 'r',
        "return"@.len() == 6 && "return"@[0] == 'r' && "return"@[5] == 'n',
        "escape"@.len() == 6 && "escape"@[0] == 'e' && "escape"@[5] == 'e',
        "esc"@.len() == 3 && "esc"@[0] == 'e' && "esc"@[2] == 'c',
        "tab"@.len() == 3 && "tab"@[0] == 't' && "tab"@[2] == 'b',
        "backspace"@.len() == 9 && "backspace"@[0] == 'b' && "backspace"@[8] == 'e',
        "delete"@.len() == 6 && "delete"@[0] == 'd' && "delete"@[5] == 'e',
        "del"@.len() == 3 && "del"@[0] == 'd' && "del"@[2] == 'l',
        "insert"@.len() == 6 && "insert"@[0] == 'i' && "insert"@[5] == 't',
        "ins"@.len() == 3 && "ins"@[0] == 'i' && "ins"@[2] == 's',
        "home"@.len() == 4 && "home"@[0] == 'h' && "home"@[3] == 'e',
        "end"@.len() == 3 && "end"@[0] == 'e' && "end"@[2] == 'd',
        "pageup"@.len() == 6 && "pageup"@[0] == 'p' && "pageup"@[5] == 'p',
        "pgup"@.len() == 4 && "pgup"@[0] == 'p' && "pgup"@[3] == 'p',
        "pagedown"@.len() == 8 && "pagedown"@[0] == 'p' && "pagedown"@[7] == 'n',
        "pgdn"@.len() == 4 && "pgdn"@[0] == 'p' && "pgdn"@[3] == 'n',
        "up"@.len() == 2 && "up"@[0] == 'u' && "up"@[1] == 'p',
        "down"@.len() == 4 && "down"@[0] == 'd' && "down"@[3] == 'n',
        "left"@.len() == 4 && "left"@[0] == 'l' && "left"@[3] == 't',
        "right"@.len() == 5 && "right"@[0] == 'r' && "right"@[4] == 't',
        "printscreen"@.len() == 11 && "printscreen"@[0] == 'p' && "printscreen"@[10] == 'n',
        "print"@.len() == 5 && "print"@[0] == 'p' && "print"@[4] == 't',
        "prtsc"@.len() == 5 && "prtsc"@[0] == 'p' && "prtsc"@[4] == 'c',
        "pause"@.len() == 5 && "pause"@[0] == 'p' && "pause"@[4] == 'e',
        "scrolllock"@.len() == 10 && "scrolllock"@[0] == 's' && "scrolllock"@[9] == 'k',
        "numpad0"@.len() == 7 && "numpad0"@[0] == 'n' && "numpad0"@[6] == '0',
        "kp0"@.len() == 3 && "kp0"@[0] == 'k' && "kp0"@[2] == '0',
        "numpad1"@.len() == 7 && "numpad1"@[0] == 'n' && "numpad1"@[6] == '1',
        "kp1"@.len() == 3 && "kp1"@[0] == 'k' && "kp1"@[2] == '1',
        "numpad2"@.len() == 7 && "numpad2"@[0] == 'n' && "numpad2"@[6] == '2',
        "kp2"@.len() == 3 && "kp2"@[0] == 'k' && "kp2"@[2] == '2',
        "numpad3"@.len() == 7 && "numpad3"@[0] == 'n' && "numpad3"@[6] == '3',
        "kp3"@.len() == 3 && "kp3"@[0] == 'k' && "kp3"@[2] == '3',
        "numpad4"@.len() == 7 && "numpad4"@[0] == 'n' && "numpad4"@[6] == '4',
        "kp4"@.len() == 3 && "kp4"@[0] == 'k' && "kp4"@[2] == '4',
        "numpad5"@.len() == 7 && "numpad5"@[0] == 'n' && "numpad5"@[6] == '5',
        "kp5"@.len() == 3 && "kp5"@[0] == 'k' && "kp5"@[2] == '5',
        "numpad6"@.len() == 7 && "numpad6"@[0] == 'n' && "numpad6"@[6] == '6',
        "kp6"@.len() == 3 && "kp6"@[0] == 'k' && "kp6"@[2] == '6',
        "numpad7"@.len() == 7 && "numpad7"@[0] == 'n' && "numpad7"@[6] == '7',
        "kp7"@.len() == 3 && "kp7"@[0] == 'k' && "kp7"@[2] == '7',
        "numpad8"@.len() == 7 && "numpad8"@[0] == 'n' && "numpad8"@[6] == '8',
        "kp8"@.len() == 3 && "kp8"@[0] == 'k' && "kp8"@[2] == '8',
        "numpad9"@.len() == 7 && "numpad9"@[0] == 'n' && "numpad9"@[6] == '9',
        "kp9"@.len() == 3 && "kp9"@[0] == 'k' && "kp9"@[2] == '9',
{
    reveal_strlit("f1");
    reveal_strlit("f2");
    reveal_strlit("f3");
    reveal_strlit("f4");
    reveal_strlit("f5");
    reveal_strlit("f6");
    reveal_strlit("f7");
    reveal_strlit("f8");
    reveal_strlit("f9");
    reveal_strlit("f10");
    reveal_strlit("f11");
    reveal_strlit("f12");
    reveal_strlit("1");
    reveal_strlit("2");
    reveal_strlit("3");
    reveal_strlit("4");
    reveal_strlit("5");
    reveal_strlit("6");
    reveal_strlit("7");
    reveal_strlit("8");
    reveal_strlit("9");
    reveal_strlit("0");
    reveal_strlit("a");
    reveal_strlit("b");
    reveal_strlit("c");
    reveal_strlit("d");
    reveal_strlit("e");
    reveal_strlit("f");
    reveal_strlit("g");
    reveal_strlit("h");
    reveal_strlit("i");
    reveal_strlit("j");
    reveal_strlit("k");
    reveal_strlit("l");
    reveal_strlit("m");
    reveal_strlit("n");
    reveal_strlit("o");
    reveal_strlit("p");
    reveal_strlit("q");
    reveal_strlit("r");
    reveal_strlit("s");
    reveal_strlit("t");
    reveal_strlit("u");
    reveal_strlit("v");
    reveal_strlit("w");
    reveal_strlit("x");
    reveal_strlit("y");
    reveal_strlit("z");
    reveal_strlit("space");
    reveal_strlit("enter");
    reveal_strlit("return");
    reveal_strlit("escape");
    reveal_strlit("esc");
    reveal_strlit("tab");
    reveal_strlit("backspace");
    reveal_strlit("delete");
    reveal_strlit("del");
    reveal_strlit("insert");
    reveal_strlit("ins");
    reveal_strlit("home");
    reveal_strlit("end");
    reveal_strlit("pageup");
    reveal_strlit("pgup");
    reveal_strlit("pagedown");
    reveal_strlit("pgdn");
    reveal_strlit("up");
    reveal_strlit("down");
    reveal_strlit("left");
    reveal_strlit("right");
    reveal_strlit("printscreen");
    reveal_strlit("print");
    reveal_strlit("prtsc");
    reveal_strlit("pause");
    reveal_strlit("scrolllock");
    reveal_strlit("numpad0");
    reveal_strlit("kp0");
    reveal_strlit("numpad1");
    reveal_strlit("kp1");
    reveal_strlit("numpad2");
    reveal_strlit("kp2");
    reveal_strlit("numpad3");
    reveal_strlit("kp3");
    reveal_strlit("numpad4");
    reveal_strlit("kp4");
    reveal_strlit("numpad5");
    reveal_strlit("kp5");
    reveal_strlit("numpad6");
    reveal_strlit("kp6");
    reveal_strlit("numpad7");
    reveal_strlit("kp7");
    reveal_strlit("numpad8");
    reveal_strlit("kp8");
    reveal_strlit("numpad9");
    reveal_strlit("kp9");
}

/// Function keys carry their Linux input codes: F1 to F10 are 59 to 68,
/// F11 and F12 are 87 and 88.
pub proof fn lemma_function_key_codes(n: nat)
    requires
        1 <= n <= 12,
    ensures
        key_code_of("f"@ + decimal(n)) == Some((if n <= 10 { 58 + n } else { 76 + n }) as u16),
{
    lemma_key_names_known();
    reveal_strlit("f");
    if n == 1 {
        reveal_strlit("f1");
        assert("f"@ + decimal(1) =~= "f1"@);
    } else if n == 2 {
        reveal_strlit("f2");
        assert("f"@ + decimal(2) =~= "f2"@);
    } else if n == 3 {
        reveal_strlit("f3");
        assert("f"@ + decimal(3) =~= "f3"@);
    } else if n == 4 {
        reveal_strlit("f4");
        assert("f"@ + decimal(4) =~= "f4"@);
    } else if n == 5 {
        reveal_strlit("f5");
        assert("f"@ + decimal(5) =~= "f5"@);
    } else if n == 6 {
        reveal_strlit("f6");
        assert("f"@ + decimal(6) =~= "f6"@);
    } else if n == 7 {
        reveal_strlit("f7");
        assert("f"@ + decimal(7) =~= "f7"@);
    } else if n == 8 {
        reveal_strlit("f8");
        assert("f"@ + decimal(8) =~= "f8"@);
    } else if n == 9 {
        reveal_strlit("f9");
        assert("f"@ + decimal(9) =~= "f9"@);
    } else if n == 10 {
        reveal_strlit("f10");
        assert(decimal(10) == decimal(1).push(digit_char(0)));
        assert("f"@ + decimal(10) =~= "f10"@);
    } else if n == 11 {
        reveal_strlit("f11");
        assert(decimal(11) == decimal(1).push(digit_char(1)));
        assert("f"@ + decimal(11) =~= "f11"@);
    } else if n == 12 {
        reveal_strlit("f12");
        assert(decimal(12) == decimal(1).push(digit_char(2)));
        assert("f"@ + decimal(12) =~= "f12"@);
    }
}

/// The digit keys of the top row carry their Linux input codes: 1 to 9 are
/// 2 to 10, and 0, which follows 9 on the keyboard, is 11.
pub proof fn lemma_digit_key_codes(n: nat)
    requires
        n <= 9,
    ensures
        key_code_of(decimal(n)) == Some((if n == 0 { 11 } else { n + 1 }) as u16),
{
    lemma_key_names_known();
    if n == 0 {
        reveal_strlit("0");
        assert(decimal(0) =~= "0"@);
    } else if n == 1 {
        reveal_strlit("1");
        assert(decimal(1) =~= "1"@);
    } else if n == 2 {
        reveal_strlit("2");
        assert(decimal(2) =~= "2"@);
    } else if n == 3 {
        reveal_strlit("3");
        assert(decimal(3) =~= "3"@);
    } else if n == 4 {
        reveal_strlit("4");
        assert(decimal(4) =~= "4"@);
    } else if n == 5 {
        reveal_strlit("5");
        assert(decimal(5) =~= "5"@);
    } else if n == 6 {
        reveal_strlit("6");
        assert(decimal(6) =~= "6"@);
    } else if n == 7 {
        reveal_strlit("7");
        assert(decimal(7) =~= "7"@);
    } else if n == 8 {
        reveal_strlit("8");
        assert(decimal(8) =~= "8"@);
    } else if n == 9 {
        reveal_strlit("9");
        assert(decimal(9) =~= "9"@);
    }
}

/// The letter keys carry their Linux input codes, which follow the rows of
/// the keyboard: Q to P are 16 to 25, A to L are 30 to 38, Z to M are 44
/// to 50, each row from left to right.
pub proof fn lemma_letter_key_codes(i: int)
    ensures
        0 <= i < 10 ==> key_code_of(seq!["qwertyuiop"@[i]]) == Some((16 + i) as u16),
        0 <= i < 9 ==> key_code_of(seq!["asdfghjkl"@[i]]) == Some((30 + i) as u16),
        0 <= i < 7 ==> key_code_of(seq!["zxcvbnm"@[i]]) == Some((44 + i) as u16),
{
    lemma_key_names_known();
    reveal_strlit("qwertyuiop");
    reveal_strlit("asdfghjkl");
    reveal_strlit("zxcvbnm");
    if i == 0 {
        reveal_strlit("q");
        assert(seq!["qwertyuiop"@[0]] =~= "q"@);
        reveal_strlit("a");
        assert(seq!["asdfghjkl"@[0]] =~= "a"@);
        reveal_strlit("z");
        assert(seq!["zxcvbnm"@[0]] =~= "z"@);
    } else if i == 1 {
        reveal_strlit("w");
        assert(seq!["qwertyuiop"@[1]] =~= "w"@);
        reveal_strlit("s");
        assert(seq!["asdfghjkl"@[1]] =~= "s"@);
        reveal_strlit("x");
        assert(seq!["zxcvbnm"@[1]] =~= "x"@);
    } else if i == 2 {
        reveal_strlit("e");
        assert(seq!["qwertyuiop"@[2]] =~= "e"@);
        reveal_strlit("d");
        assert(seq!["asdfghjkl"@[2]] =~= "d"@);
        reveal_strlit("c");
        assert(seq!["zxcvbnm"@[2]] =~= "c"@);
    } else if i == 3 {
        reveal_strlit("r");
        assert(seq!["qwertyuiop"@[3]] =~= "r"@);
        reveal_strlit("f");
        assert(seq!["asdfghjkl"@[3]] =~= "f"@);
        reveal_strlit("v");
        assert(seq!["zxcvbnm"@[3]] =~= "v"@);
    } else if i == 4 {
        reveal_strlit("t");
        assert(seq!["qwertyuiop"@[4]] =~= "t"@);
        reveal_strlit("g");
        assert(seq!["asdfghjkl"@[4]] =~= "g"@);
        reveal_strlit("b");
        assert(seq!["zxcvbnm"@[4]] =~= "b"@);
    } else if i == 5 {
        reveal_strlit("y");
        assert(seq!["qwertyuiop"@[5]] =~= "y"@);
        reveal_strlit("h");
        assert(seq!["asdfghjkl"@[5]] =~= "h"@);
        reveal_strlit("n");
        assert(seq!["zxcvbnm"@[5]] =~= "n"@);
    } else if i == 6 {
        reveal_strlit("u");
        assert(seq!["qwertyuiop"@[6]] =~= "u"@);
        reveal_strlit("j");
        assert(seq!["asdfghjkl"@[6]] =~= "j"@);
        reveal_strlit("m");
        assert(seq!["zxcvbnm"@[6]] =~= "m"@);
    } else if i == 7 {
        reveal_strlit("i");
        assert(seq!["qwertyuiop"@[7]] =~= "i"@);
        reveal_strlit("k");
        assert(seq!["asdfghjkl"@[7]] =~= "k"@);
    } else if i == 8 {
        reveal_strlit("o");
        assert(seq!["qwertyuiop"@[8]] =~= "o"@);
        reveal_strlit("l");
        assert(seq!["asdfghjkl"@[8]] =~= "l"@);
    } else if i == 9 {
        reveal_strlit("p");
        assert(seq!["qwertyuiop"@[9]] =~= "p"@);
    }
}

/// Where a digit sits on the numeric keypad, as its Linux input code: the
/// rows 7-8-9, 4-5-6 and 1-2-3 from the top, each from left to right, with
/// one code skipped after each row, then 0.
pub open spec fn keypad_code(d: nat) -> int {
    if d == 0 {
        82
    } else {
        71 + 4 * (2 - (d - 1) / 3) + (d - 1) % 3
    }
}

/// The keypad keys carry their Linux input codes, under both of their names
/// (`kp` or `numpad` followed by the digit).
pub proof fn lemma_keypad_key_codes(n: nat)
    requires
        n <= 9,
    ensures
        key_code_of("kp"@ + decimal(n)) == Some(keypad_code(n) as u16),
        key_code_of("numpad"@ + decimal(n)) == Some(keypad_code(n) as u16),
{
    lemma_key_names_known();
    reveal_strlit("kp");
    reveal_strlit("numpad");
    if n == 0 {
        reveal_strlit("kp0");
        assert("kp"@ + decimal(0) =~= "kp0"@);
        reveal_strlit("numpad0");
        assert("numpad"@ + decimal(0) =~= "numpad0"@);
    } else if n == 1 {
        reveal_strlit("kp1");
        assert("kp"@ + decimal(1) =~= "kp1"@);
        reveal_strlit("numpad1");
        assert("numpad"@ + decimal(1) =~= "numpad1"@);
    } else if n == 2 {
        reveal_strlit("kp2");
        assert("kp"@ + decimal(2) =~= "kp2"@);
        reveal_strlit("numpad2");
        assert("numpad"@ + decimal(2) =~= "numpad2"@);
    } else if n == 3 {
        reveal_strlit("kp3");
        assert("kp"@ + decimal(3) =~= "kp3"@);
        reveal_strlit("numpad3");
        assert("numpad"@ + decimal(3) =~= "numpad3"@);
    } else if n == 4 {
        reveal_strlit("kp4");
        assert("kp"@ + decimal(4) =~= "kp4"@);
        reveal_strlit("numpad4");
        assert("numpad"@ + decimal(4) =~= "numpad4"@);
    } else if n == 5 {
        reveal_strlit("kp5");
        assert("kp"@ + decimal(5) =~= "kp5"@);
        reveal_strlit("numpad5");
        assert("numpad"@ + decimal(5) =~= "numpad5"@);
    } else if n == 6 {
        reveal_strlit("kp6");
        assert("kp"@ + decimal(6) =~= "kp6"@);
        reveal_strlit("numpad6");
        assert("numpad"@ + decimal(6) =~= "numpad6"@);
    } else if n == 7 {
        reveal_strlit("kp7");
        assert("kp"@ + decimal(7) =~= "kp7"@);
        reveal_strlit("numpad7");
        assert("numpad"@ + decimal(7) =~= "numpad7"@);
    } else if n == 8 {
        reveal_strlit("kp8");
        assert("kp"@ + decimal(8) =~= "kp8"@);
        reveal_strlit("numpad8");
        assert("numpad"@ + decimal(8) =~= "numpad8"@);
    } else if n == 9 {
        reveal_strlit("kp9");
        assert("kp"@ + decimal(9) =~= "kp9"@);
        reveal_strlit("numpad9");
        assert("numpad"@ + decimal(9) =~= "numpad9"@);
    }
}

/// The long name of a key that has a short name too; any other name as it is.
pub open spec fn long_key_name(l: Seq<char>) -> Seq<char> {
    if l == "return"@ {
        "enter"@
    } else if l == "esc"@ {
        "escape"@
    } else if l == "del"@ {
        "delete"@
    } else if l == "ins"@ {
        "insert"@
    } else if l == "pgup"@ {
        "pageup"@
    } else if l == "pgdn"@ {
        "pagedown"@
    } else if l == "print"@ || l == "prtsc"@ {
        "printscreen"@
    } else {
        l
    }
}

/// A short key name stands for the same key as its long name.
pub proof fn lemma_short_key_names(l: Seq<char>)
    ensures
        key_code_of(l) == key_code_of(long_key_name(l)),
{
    lemma_key_names_known();
}

/// The navigation keys carry consecutive Linux input codes, from 102 to 111,
/// in the order home, up, page up, left, right, end, down, page down,
/// insert, delete.
pub proof fn lemma_navigation_key_codes(i: int)
    requires
        0 <= i < 10,
    ensures
        key_code_of(
            seq![
                "home"@,
                "up"@,
                "pageup"@,
                "left"@,
                "right"@,
                "end"@,
                "down"@,
                "pagedown"@,
                "insert"@,
                "delete"@,
            ][i],
        ) == Some((102 + i) as u16),
{
    lemma_key_names_known();
}

/// The keys at the ends of the keyboard's rows sit next to their rows in the
/// Linux input codes: Escape just before 1, Backspace and Tab just before Q,
/// Enter and left Ctrl just before A, left Alt just before Space, and two
/// codes after Space comes F1; Scroll Lock comes just before keypad 7, and
/// Print Screen (SysRq) just before right Alt.
pub proof fn lemma_row_end_key_codes()
    ensures
        key_code_of("esc"@) is Some && key_code_of("1"@) == Some(
            (key_code_of("esc"@).unwrap() + 1) as u16,
        ),
        key_code_of("backspace"@) is Some && key_code_of("tab"@) == Some(
            (key_code_of("backspace"@).unwrap() + 1) as u16,
        ),
        key_code_of("tab"@) is Some && key_code_of("q"@) == Some(
            (key_code_of("tab"@).unwrap() + 1) as u16,
        ),
        key_code_of("enter"@) == Some((KEY_LEFTCTRL - 1) as u16),
        key_code_of("a"@) == Some((KEY_LEFTCTRL + 1) as u16),
        key_code_of("space"@) == Some((KEY_LEFTALT + 1) as u16),
        key_code_of("f1"@) == Some((KEY_LEFTALT + 3) as u16),
        key_code_of("scrolllock"@) is Some && key_code_of("kp7"@) == Some(
            (key_code_of("scrolllock"@).unwrap() + 1) as u16,
        ),
        key_code_of("printscreen"@) == Some((KEY_RIGHTALT - 1) as u16),
{
    lemma_key_names_known();
}

/// Parse a key name (ignoring case) to its key code.
pub fn parse_key(name: &str) -> (r: Result<u16, NitrogenError>)
    ensures
        match key_code_of(lower_text(name@)) {
            Some(k) => r == Ok::<u16, NitrogenError>(k),
            None => r matches Err(NitrogenError::Config(m)) && m@ == "Unknown key: "@ + name@,
        },
{
    match key_from_lowered(to_lower(name).as_str()) {
        Some(v) => Ok(v),
        None => {
            let mut m = owned("Unknown key: ");
            push_text(&mut m, name);
            Err(NitrogenError::Config(m))
        },
    }
}


/// The modifier key that a (trimmed, lowercased) part of a hotkey string names.
pub open spec fn modifier_code(p: Seq<char>) -> Option<u16> {
    if p == "ctrl"@ || p == "control"@ {
        Some(KEY_LEFTCTRL)
    } else if p == "alt"@ {
        Some(KEY_LEFTALT)
    } else if p == "shift"@ {
        Some(KEY_LEFTSHIFT)
    } else if p == "super"@ || p == "meta"@ || p == "win"@ {
        Some(KEY_LEFTMETA)
    } else {
        None
    }
}

/// The modifiers and the trigger key read from the first `n` parts of a
/// hotkey string, or the message of the first unknown key. A later key
/// replaces an earlier one.
pub open spec fn scan_parts(parts: Seq<Seq<char>>, n: nat) -> Result<(Set<u16>, Option<u16>), Seq<char>>
    decreases n,
{
    if n == 0 {
        Ok((Set::empty(), None))
    } else {
        match scan_parts(parts, (n - 1) as nat) {
            Err(m) => Err(m),
            Ok(acc) => {
                let p = trimmed(parts[n - 1]);
                match modifier_code(p) {
                    Some(c) => Ok((acc.0.insert(c), acc.1)),
                    None => match key_code_of(lower_text(p)) {
                        Some(k) => Ok((acc.0, Some(k))),
                        None => Err("Unknown key: "@ + p),
                    },
                }
            },
        }
    }
}

/// The parts of a hotkey string: its lowercased text split at `+`.
pub open spec fn hotkey_parts(s: Seq<char>) -> Seq<Seq<char>> {
    split_char(lower_text(s), '+')
}

/// A hotkey binding (modifier keys + trigger key)
#[derive(Debug, Clone)]
pub struct Hotkey {
    /// Modifier keys that must be held, each once
    pub modifiers: Vec<u16>,
    /// The trigger key
    pub key: u16,
    /// The action to perform
    pub action: HotkeyAction,
}

/// Whether modifier `m` counts as held: for Ctrl, Alt, Shift and Super
/// either the left or the right key will do.
pub open spec fn modifier_held(m: u16, pressed: Set<u16>) -> bool {
    if m == KEY_LEFTCTRL {
        pressed.contains(KEY_LEFTCTRL) || pressed.contains(KEY_RIGHTCTRL)
    } else if m == KEY_LEFTALT {
        pressed.contains(KEY_LEFTALT) || pressed.contains(KEY_RIGHTALT)
    } else if m == KEY_LEFTSHIFT {
        pressed.contains(KEY_LEFTSHIFT) || pressed.contains(KEY_RIGHTSHIFT)
    } else if m == KEY_LEFTMETA {
        pressed.contains(KEY_LEFTMETA) || pressed.contains(KEY_RIGHTMETA)
    } else {
        pressed.contains(m)
    }
}

/// A hotkey fires when its trigger key and all its modifiers are held.
pub open spec fn hotkey_fires(pressed: Set<u16>, h: Hotkey) -> bool {
    &&& pressed.contains(h.key)
    &&& forall|m: u16| #[trigger] h.modifiers@.contains(m) ==> modifier_held(m, pressed)
}

fn contains_code(v: &Vec<u16>, c: u16) -> (b: bool)
    ensures
        b == v@.contains(c),
{
    let mut i: usize = 0;
    while i < v.len()
        invariant
            i <= v.len(),
            forall|j: int| 0 <= j < i ==> v@[j] != c,
        decreases v.len() - i,
    {
        if v[i] == c {
            return true;
        }
        i += 1;
    }
    false
}

proof fn lemma_push_to_set(s: Seq<u16>, c: u16)
    ensures
        s.push(c).to_set() == s.to_set().insert(c),
{
    assert forall|x: u16| #[trigger] s.push(c).contains(x) <==> (s.contains(x) || x == c) by {
        if s.contains(x) {
            let j = choose|j: int| 0 <= j < s.len() && s[j] == x;
            assert(s.push(c)[j] == x);
        }
        if x == c {
            assert(s.push(c)[s.len() as int] == c);
        }
        if s.push(c).contains(x) {
            let j = choose|j: int| 0 <= j < s.len() + 1 && s.push(c)[j] == x;
            if j < s.len() {
                assert(s[j] == x);
            }
        }
    }
    assert(s.push(c).to_set() =~= s.to_set().insert(c));
}

/// Once a part is refused, the parts after it change nothing.
proof fn lemma_scan_error_stays(parts: Seq<Seq<char>>, i: nat, n: nat)
    requires
        scan_parts(parts, i) is Err,
        i <= n,
    ensures
        scan_parts(parts, n) == scan_parts(parts, i),
    decreases n - i,
{
    if i < n {
        lemma_scan_error_stays(parts, i, (n - 1) as nat);
    }
}

fn insert_code(v: &mut Vec<u16>, c: u16)
    requires
        old(v)@.no_duplicates(),
    ensures
        final(v)@.no_duplicates(),
        final(v)@.to_set() == old(v)@.to_set().insert(c),
{
    if !contains_code(v, c) {
        proof {
            lemma_push_to_set(v@, c);
        }
        v.push(c);
    } else {
        assert(v@.to_set() =~= v@.to_set().insert(c));
    }
}

impl Hotkey {
    /// Create a new hotkey binding; a modifier listed twice counts once.
    pub fn new(modifiers: Vec<u16>, key: u16, action: HotkeyAction) -> (h: Self)
        ensures
            h.modifiers@.no_duplicates(),
            h.modifiers@.to_set() == modifiers@.to_set(),
            h.key == key,
            h.action == action,
    {
        let mut mods: Vec<u16> = Vec::new();
        let mut i: usize = 0;
        assert(mods@.to_set() =~= modifiers@.subrange(0, 0).to_set());
        while i < modifiers.len()
            invariant
                i <= modifiers.len(),
                mods@.no_duplicates(),
                mods@.to_set() == modifiers@.subrange(0, i as int).to_set(),
            decreases modifiers.len() - i,
        {
            insert_code(&mut mods, modifiers[i]);
            proof {
                assert(modifiers@.subrange(0, i + 1) =~= modifiers@.subrange(0, i as int).push(
                    modifiers@[i as int],
                ));
                lemma_push_to_set(modifiers@.subrange(0, i as int), modifiers@[i as int]);
            }
            i += 1;
        }
        assert(modifiers@.subrange(0, modifiers.len() as int) =~= modifiers@);
        Hotkey { modifiers: mods, key, action }
    }

    /// Parse an already lower-cased hotkey string such as `"ctrl+shift+f9"`.
    pub fn from_lowered(l: &str, action: HotkeyAction) -> (r: Result<Hotkey, NitrogenError>)
        ensures
            match scan_parts(split_char(l@, '+'), split_char(l@, '+').len()) {
                Err(m) => r matches Err(NitrogenError::Config(x)) && x@ == m,
                Ok(found) => match found.1 {
                    None => r matches Err(NitrogenError::Config(x)) && x@
                        == "No key specified in hotkey"@,
                    Some(k) => r matches Ok(h) && h.modifiers@.no_duplicates()
                        && h.modifiers@.to_set() == found.0 && h.key == k && h.action == action,
                },
            },
    {
        let cs = chars_of(l);
        let parts = split_chars(&cs, '+');
        let ghost gparts = split_char(l@, '+');
        let mut mods: Vec<u16> = Vec::new();
        let mut key: Option<u16> = None;
        let mut i: usize = 0;
        assert(mods@.to_set() =~= Set::<u16>::empty());
        while i < parts.len()
            invariant
                i <= parts.len(),
                gparts == split_char(l@, '+'),
                parts@.len() == gparts.len(),
                forall|j: int| 0 <= j < parts@.len() ==> #[trigger] parts@[j]@ == gparts[j],
                mods@.no_duplicates(),
                scan_parts(gparts, i as nat) == Ok::<(Set<u16>, Option<u16>), Seq<char>>(
                    (mods@.to_set(), key),
                ),
            decreases parts.len() - i,
        {
            let tp = trim_chars(&parts[i]);
            let ps = string_from_chars(&tp);
            let p = ps.as_str();
            assert(p@ == trimmed(gparts[i as int]));
            if same_text(p, "ctrl") || same_text(p, "control") {
                insert_code(&mut mods, KEY_LEFTCTRL);
            } else if same_text(p, "alt") {
                insert_code(&mut mods, KEY_LEFTALT);
            } else if same_text(p, "shift") {
                insert_code(&mut mods, KEY_LEFTSHIFT);
            } else if same_text(p, "super") || same_text(p, "meta") || same_text(p, "win") {
                insert_code(&mut mods, KEY_LEFTMETA);
            } else {
                match parse_key(p) {
                    Ok(k) => {
                        key = Some(k);
                    },
                    Err(e) => {
                        proof {
                            assert(modifier_code(p@) is None);
                            assert(scan_parts(gparts, (i + 1) as nat) == Err::<
                                (Set<u16>, Option<u16>),
                                Seq<char>,
                            >("Unknown key: "@ + p@));
                            lemma_scan_error_stays(gparts, (i + 1) as nat, gparts.len());
                        }
                        return Err(e);
                    },
                }
            }
            i += 1;
        }
        match key {
            None => Err(NitrogenError::Config(owned("No key specified in hotkey"))),
            Some(k) => Ok(Hotkey { modifiers: mods, key: k, action }),
        }
    }

    /// Parse a hotkey string like "ctrl+shift+f9": parts separated by `+`,
    /// ignoring case and surrounding spaces, each a modifier (ctrl/control,
    /// alt, shift, super/meta/win) or the trigger key.
    pub fn parse(s: &str, action: HotkeyAction) -> (r: Result<Hotkey, NitrogenError>)
        ensures
            match scan_parts(hotkey_parts(s@), hotkey_parts(s@).len()) {
                Err(m) => r matches Err(NitrogenError::Config(x)) && x@ == m,
                Ok(found) => match found.1 {
                    None => r matches Err(NitrogenError::Config(x)) && x@
                        == "No key specified in hotkey"@,
                    Some(k) => r matches Ok(h) && h.modifiers@.no_duplicates()
                        && h.modifiers@.to_set() == found.0 && h.key == k && h.action == action,
                },
            },
    {
        Hotkey::from_lowered(to_lower(s).as_str(), action)
    }
}

/// Check if a hotkey matches the currently pressed keys
pub fn check_hotkey(pressed: &Vec<u16>, hotkey: &Hotkey) -> (b: bool)
    ensures
        b == hotkey_fires(pressed@.to_set(), *hotkey),
{
    let ghost ps = pressed@.to_set();
    if !contains_code(pressed, hotkey.key) {
        return false;
    }
    let mut i: usize = 0;
    while i < hotkey.modifiers.len()
        invariant
            i <= hotkey.modifiers.len(),
            ps == pressed@.to_set(),
            forall|j: int| 0 <= j < i ==> modifier_held(#[trigger] hotkey.modifiers@[j], ps),
        decreases hotkey.modifiers.len() - i,
    {
        let m = hotkey.modifiers[i];
        let held = if m == KEY_LEFTCTRL {
            contains_code(pressed, KEY_LEFTCTRL) || contains_code(pressed, KEY_RIGHTCTRL)
        } else if m == KEY_LEFTALT {
            contains_code(pressed, KEY_LEFTALT) || contains_code(pressed, KEY_RIGHTALT)
        } else if m == KEY_LEFTSHIFT {
            contains_code(pressed, KEY_LEFTSHIFT) || contains_code(pressed, KEY_RIGHTSHIFT)
        } else if m == KEY_LEFTMETA {
            contains_code(pressed, KEY_LEFTMETA) || contains_code(pressed, KEY_RIGHTMETA)
        } else {
            contains_code(pressed, m)
        };
        if !held {
            assert(hotkey.modifiers@.contains(m));
            return false;
        }
        i += 1;
    }
    assert forall|m: u16| #[trigger] hotkey.modifiers@.contains(m) implies modifier_held(
        m,
        ps,
    ) by {
        let j = choose|j: int| 0 <= j < hotkey.modifiers@.len() && hotkey.modifiers@[j] == m;
        assert(modifier_held(hotkey.modifiers@[j], ps));
    }
    true
}

/// The default bindings: Ctrl+Shift+F9 toggles capture, Ctrl+Shift+F10
/// pauses, Ctrl+Shift+F11 toggles recording.
pub fn default_hotkeys() -> (v: Vec<Hotkey>)
    ensures
        v@.len() == 3,
        forall|i: int| 0 <= i < 3 ==> (#[trigger] v@[i]).modifiers@.to_set() == set![
            KEY_LEFTCTRL,
            KEY_LEFTSHIFT,
        ],
        v@[0].key == KEY_F9 && v@[0].action == HotkeyAction::Toggle,
        v@[1].key == KEY_F10 && v@[1].action == HotkeyAction::Pause,
        v@[2].key == KEY_F11 && v@[2].action == HotkeyAction::ToggleRecording,
{
    let toggle = Hotkey::new(vec![KEY_LEFTCTRL, KEY_LEFTSHIFT], KEY_F9, HotkeyAction::Toggle);
    let pause = Hotkey::new(vec![KEY_LEFTCTRL, KEY_LEFTSHIFT], KEY_F10, HotkeyAction::Pause);
    let record = Hotkey::new(
        vec![KEY_LEFTCTRL, KEY_LEFTSHIFT],
        KEY_F11,
        HotkeyAction::ToggleRecording,
    );
    proof {
        assert(seq![KEY_LEFTCTRL, KEY_LEFTSHIFT].to_set() =~= set![KEY_LEFTCTRL, KEY_LEFTSHIFT]);
    }
    vec![toggle, pause, record]
}

/// A hotkey fires when exactly its own keys are held.
pub proof fn lemma_own_keys_fire(h: Hotkey)
    ensures
        hotkey_fires(h.modifiers@.to_set().insert(h.key), h),
{
}

/// Holding the right-hand Ctrl, Alt, Shift or Super in place of the left one
/// fires a hotkey just the same.
pub proof fn lemma_right_modifiers_fire(h: Hotkey, pressed: Set<u16>)
    requires
        pressed.contains(h.key),
        forall|m: u16| #[trigger] h.modifiers@.contains(m) ==> pressed.contains(right_hand(m)),
    ensures
        hotkey_fires(pressed, h),
{
    assert forall|m: u16| #[trigger] h.modifiers@.contains(m) implies modifier_held(m, pressed) by {
        assert(pressed.contains(right_hand(m)));
    }
}

/// The right-hand counterpart of a left-hand modifier; other keys stay themselves.
pub open spec fn right_hand(m: u16) -> u16 {
    if m == KEY_LEFTCTRL {
        KEY_RIGHTCTRL
    } else if m == KEY_LEFTALT {
        KEY_RIGHTALT
    } else if m == KEY_LEFTSHIFT {
        KEY_RIGHTSHIFT
    } else if m == KEY_LEFTMETA {
        KEY_RIGHTMETA
    } else {
        m
    }
}

/// A hotkey does not fire while one of its modifiers is held on neither side.
pub proof fn lemma_missing_modifier_blocks(h: Hotkey, pressed: Set<u16>, m: u16)
    requires
        h.modifiers@.contains(m),
        !pressed.contains(m),
        !pressed.contains(right_hand(m)),
    ensures
        !hotkey_fires(pressed, h),
{
    assert(!modifier_held(m, pressed));
}


/// The actions of the hotkeys (in their order) that fire while `pressed` is held.
pub open spec fn fired_actions(hs: Seq<Hotkey>, pressed: Set<u16>) -> Seq<HotkeyAction>
    decreases hs.len(),
{
    if hs.len() == 0 {
        Seq::empty()
    } else {
        let rest = fired_actions(hs.drop_last(), pressed);
        if hotkey_fires(pressed, hs.last()) {
            rest.push(hs.last().action)
        } else {
            rest
        }
    }
}

fn index_of_code(v: &Vec<u16>, c: u16) -> (r: Option<usize>)
    ensures
        match r {
            Some(i) => i < v@.len() && v@[i as int] == c,
            None => !v@.contains(c),
        },
{
    let mut i: usize = 0;
    while i < v.len()
        invariant
            i <= v.len(),
            forall|j: int| 0 <= j < i ==> v@[j] != c,
        decreases v.len() - i,
    {
        if v[i] == c {
            return Some(i);
        }
        i += 1;
    }
    None
}

fn remove_code(v: &mut Vec<u16>, c: u16)
    requires
        old(v)@.no_duplicates(),
    ensures
        final(v)@.no_duplicates(),
        final(v)@.to_set() == old(v)@.to_set().remove(c),
{
    match index_of_code(v, c) {
        None => {
            assert(v@.to_set() =~= v@.to_set().remove(c));
        },
        Some(i) => {
            let ghost s = v@;
            v.remove(i);
            proof {
                let r = s.remove(i as int);
                assert(v@ == r);
                assert forall|a: int, b: int| 0 <= a < b < r.len() implies r[a] != r[b] by {
                    let sa = if a < i { a } else { a + 1 };
                    let sb = if b < i { b } else { b + 1 };
                    assert(r[a] == s[sa] && r[b] == s[sb]);
                }
                assert forall|x: u16| #[trigger] r.contains(x) <==> (s.contains(x) && x != c) by {
                    if r.contains(x) {
                        let j = choose|j: int| 0 <= j < r.len() && r[j] == x;
                        let sj = if j < i { j } else { j + 1 };
                        assert(s[sj] == x);
                    }
                    if s.contains(x) && x != c {
                        let j = choose|j: int| 0 <= j < s.len() && s[j] == x;
                        assert(j != i);
                        let rj = if j < i { j } else { j - 1 };
                        assert(r[rj] == x);
                    }
                }
                assert(r.to_set() =~= s.to_set().remove(c));
            }
        },
    }
}

/// Handle one key event: a press (`value` 1) adds the key to the held keys
/// and returns the actions of the hotkeys that fire, in their order; a
/// release (`value` 0) removes it; other values (repeats) change nothing.
pub fn key_event(pressed: &mut Vec<u16>, code: u16, value: i32, hotkeys: &Vec<Hotkey>) -> (fired: Vec<
    HotkeyAction,
>)
    requires
        old(pressed)@.no_duplicates(),
    ensures
        final(pressed)@.no_duplicates(),
        value == 1 ==> final(pressed)@.to_set() == old(pressed)@.to_set().insert(code)
            && fired@ == fired_actions(hotkeys@, final(pressed)@.to_set()),
        value == 0 ==> final(pressed)@.to_set() == old(pressed)@.to_set().remove(code)
            && fired@.len() == 0,
        value != 0 && value != 1 ==> final(pressed)@ == old(pressed)@ && fired@.len() == 0,
{
    let mut fired: Vec<HotkeyAction> = Vec::new();
    if value == 1 {
        insert_code(pressed, code);
        let mut i: usize = 0;
        while i < hotkeys.len()
            invariant
                i <= hotkeys.len(),
                fired@ == fired_actions(hotkeys@.subrange(0, i as int), pressed@.to_set()),
            decreases hotkeys.len() - i,
        {
            let ghost prefix = hotkeys@.subrange(0, i + 1);
            assert(prefix.drop_last() =~= hotkeys@.subrange(0, i as int));
            if check_hotkey(pressed, &hotkeys[i]) {
                fired.push(hotkeys[i].action);
            }
            i += 1;
        }
        assert(hotkeys@.subrange(0, hotkeys@.len() as int) =~= hotkeys@);
    } else if value == 0 {
        remove_code(pressed, code);
    }
    fired
}

/// Releasing a key undoes pressing it: after a press and a release of a key
/// that was not held, the held keys are as before (whatever else fired).
pub proof fn lemma_release_undoes_press(held: Set<u16>, code: u16)
    requires
        !held.contains(code),
    ensures
        held.insert(code).remove(code) == held,
{
    assert(held.insert(code).remove(code) =~= held);
}

} // verus!
