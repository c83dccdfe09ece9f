//! Hotkey descriptor parsing.
//!
//! The configuration names the push-to-talk hotkey with two strings, a
//! modifier and a key, compared case-insensitively. The library parses
//! them into its own key codes; registering the combination with the
//! operating system is the surrounding program's job.

use vstd::prelude::*;

verus! {

/// A hotkey modifier.
#[derive(Debug, Clone, Copy, PartialEq, Eq, Structural)]
pub enum Modifier {
    /// The control key.
    Control,
    /// The alt key.
    Alt,
    /// The shift key.
    Shift,
    /// The OS key (Windows key, command, super).
    Super,
}

/// A key usable as the push-to-talk key.
#[derive(Debug, Clone, Copy, PartialEq, Eq, Structural)]
#[allow(missing_docs)]
pub enum KeyCode {
    MetaLeft,
    AltLeft,
    AltRight,
    Space,
    Enter,
    Tab,
    Backspace,
    Escape,
    F1,
    F2,
    F3,
    F4,
    F5,
    F6,
    F7,
    F8,
    F9,
    F10,
    F11,
    F12,
    KeyA,
    KeyB,
    KeyC,
    KeyD,
    KeyE,
    KeyF,
    KeyG,
    KeyH,
    KeyI,
    KeyJ,
    KeyK,
    KeyL,
    KeyM,
    KeyN,
    KeyO,
    KeyP,
    KeyQ,
    KeyR,
    KeyS,
    KeyT,
    KeyU,
    KeyV,
    KeyW,
    KeyX,
    KeyY,
    KeyZ,
}

/// A parsed hotkey: an optional modifier and the key.
#[derive(Debug, Clone, Copy)]
pub struct HotkeySpec {
    /// The modifier, or `None` when the descriptor asked for none.
    pub modifier: Option<Modifier>,
    /// The key.
    pub key: KeyCode,
}

/// Why a hotkey descriptor was rejected.
#[derive(Debug, Clone, Copy, PartialEq, Eq, Structural)]
pub enum HotkeyError {
    /// The modifier string names no known modifier.
    InvalidModifier,
    /// The key string names no known key.
    InvalidKey,
}

/// ASCII uppercase of one character; everything but a lowercase ASCII
/// letter is left as it is.
pub open spec fn upper_char(c: char) -> char {
    match c {
        'a' => 'A',
        'b' => 'B',
        'c' => 'C',
        'd' => 'D',
        'e' => 'E',
        'f' => 'F',
        'g' => 'G',
        'h' => 'H',
        'i' => 'I',
        'j' => 'J',
        'k' => 'K',
        'l' => 'L',
        'm' => 'M',
        'n' => 'N',
        'o' => 'O',
        'p' => 'P',
        'q' => 'Q',
        'r' => 'R',
        's' => 'S',
        't' => 'T',
        'u' => 'U',
        'v' => 'V',
        'w' => 'W',
        'x' => 'X',
        'y' => 'Y',
        'z' => 'Z',
        _ => c,
    }
}

/// ASCII uppercase of a character sequence.
pub open spec fn spec_upper(s: Seq<char>) -> Seq<char> {
    s.map_values(|c: char| upper_char(c))
}

/// ASCII uppercase of one character.
pub fn to_upper_char(c: char) -> (r: char)
    ensures
        r == upper_char(c),
{
    match c {
        'a' => 'A',
        'b' => 'B',
        'c' => 'C',
        'd' => 'D',
        'e' => 'E',
        'f' => 'F',
        'g' => 'G',
        'h' => 'H',
        'i' => 'I',
        'j' => 'J',
        'k' => 'K',
        'l' => 'L',
        'm' => 'M',
        'n' => 'N',
        'o' => 'O',
        'p' => 'P',
        'q' => 'Q',
        'r' => 'R',
        's' => 'S',
        't' => 'T',
        'u' => 'U',
        'v' => 'V',
        'w' => 'W',
        'x' => 'X',
        'y' => 'Y',
        'z' => 'Z',
        _ => c,
    }
}

/// Whether `s`, uppercased, equals `lit` exactly.
pub fn eq_upper(s: &str, lit: &str) -> (r: bool)
    ensures
        r == (spec_upper(s@) == lit@),
{
    let n = s.unicode_len();
    let m = lit.unicode_len();
    if n != m {
        proof {
            assert(spec_upper(s@).len() == s@.len());
        }
        return false;
    }
    let mut i: usize = 0;
    while i < n
        invariant
            i <= n,
            n == s@.len(),
            n == lit@.len(),
            forall|j: int| 0 <= j < i ==> spec_upper(s@)[j] == lit@[j],
        decreases n - i,
    {
        let c = s.get_char(i);
        let u = to_upper_char(c);
        let l = lit.get_char(i);
        if u != l {
            proof {
                assert(spec_upper(s@)[i as int] != lit@[i as int]);
            }
            return false;
        }
        i = i + 1;
    }
    proof {
        assert(spec_upper(s@) =~= lit@);
    }
    true
}

/// The modifier a descriptor string names, compared case-insensitively.
pub open spec fn spec_parse_modifier(s: Seq<char>) -> Option<Modifier> {
    let u = spec_upper(s);
    if u == "CTRL"@ {
        Some(Modifier::Control)
    } else if u == "ALT"@ {
        Some(Modifier::Alt)
    } else if u == "SHIFT"@ {
        Some(Modifier::Shift)
    } else if u == "WIN"@ || u == "SUPER"@ {
        Some(Modifier::Super)
    } else {
        None
    }
}

/// Parse a modifier string.
pub fn parse_modifier(modifier: &str) -> (r: Result<Modifier, HotkeyError>)
    ensures
        r == match spec_parse_modifier(modifier@) {
            Some(m) => Ok::<Modifier, HotkeyError>(m),
            None => Err::<Modifier, HotkeyError>(HotkeyError::InvalidModifier),
        },
{
    if eq_upper(modifier, "CTRL") {
        Ok(Modifier::Control)
    } else if eq_upper(modifier, "ALT") {
        Ok(Modifier::Alt)
    } else if eq_upper(modifier, "SHIFT") {
        Ok(Modifier::Shift)
    } else if eq_upper(modifier, "WIN") || eq_upper(modifier, "SUPER") {
        Ok(Modifier::Super)
    } else {
        Err(HotkeyError::InvalidModifier)
    }
}

/// The key a descriptor string names, compared case-insensitively.
pub open spec fn spec_parse_key(s: Seq<char>) -> Option<KeyCode> {
    let u = spec_upper(s);
    if u == "WIN"@ || u == "SUPER"@ {
        Some(KeyCode::MetaLeft)
    } else if u == "ALT"@ {
        Some(KeyCode::AltLeft)
    } else if u == "ALTRIGHT"@ {
        Some(KeyCode::AltRight)
    } else if u == "SPACE"@ {
        Some(KeyCode::Space)
    } else if u == "ENTER"@ || u == "RETURN"@ {
        Some(KeyCode::Enter)
    } else if u == "TAB"@ {
        Some(KeyCode::Tab)
    } else if u == "BACKSPACE"@ {
        Some(KeyCode::Backspace)
    } else if u == "ESC"@ || u == "ESCAPE"@ {
        Some(KeyCode::Escape)
    } else if u == "F1"@ {
        Some(KeyCode::F1)
    } else if u == "F2"@ {
        Some(KeyCode::F2)
    } else if u == "F3"@ {
        Some(KeyCode::F3)
    } else if u == "F4"@ {
        Some(KeyCode::F4)
    } else if u == "F5"@ {
        Some(KeyCode::F5)
    } else if u == "F6"@ {
        Some(KeyCode::F6)
    } else if u == "F7"@ {
        Some(KeyCode::F7)
    } else if u == "F8"@ {
        Some(KeyCode::F8)
    } else if u == "F9"@ {
        Some(KeyCode::F9)
    } else if u == "F10"@ {
        Some(KeyCode::F10)
    } else if u == "F11"@ {
        Some(KeyCode::F11)
    } else if u == "F12"@ {
        Some(KeyCode::F12)
    } else if u == "A"@ {
        Some(KeyCode::KeyA)
    } else if u == "B"@ {
        Some(KeyCode::KeyB)
    } else if u == "C"@ {
        Some(KeyCode::KeyC)
    } else if u == "D"@ {
        Some(KeyCode::KeyD)
    } else if u == "E"@ {
        Some(KeyCode::KeyE)
    } else if u == "F"@ {
        Some(KeyCode::KeyF)
    } else if u == "G"@ {
        Some(KeyCode::KeyG)
    } else if u == "H"@ {
        Some(KeyCode::KeyH)
    } else if u == "I"@ {
        Some(KeyCode::KeyI)
    } else if u == "J"@ {
        Some(KeyCode::KeyJ)
    } else if u == "K"@ {
        Some(KeyCode::KeyK)
    } else if u == "L"@ {
        Some(KeyCode::KeyL)
    } else if u == "M"@ {
        Some(KeyCode::KeyM)
    } else if u == "N"@ {
        Some(KeyCode::KeyN)
    } else if u == "O"@ {
        Some(KeyCode::KeyO)
    } else if u == "P"@ {
        Some(KeyCode::KeyP)
    } else if u == "Q"@ {
        Some(KeyCode::KeyQ)
    } else if u == "R"@ {
        Some(KeyCode::KeyR)
    } else if u == "S"@ {
        Some(KeyCode::KeyS)
    } else if u == "T"@ {
        Some(KeyCode::KeyT)
    } else if u == "U"@ {
        Some(KeyCode::KeyU)
    } else if u == "V"@ {
        Some(KeyCode::KeyV)
    } else if u == "W"@ {
        Some(KeyCode::KeyW)
    } else if u == "X"@ {
        Some(KeyCode::KeyX)
    } else if u == "Y"@ {
        Some(KeyCode::KeyY)
    } else if u == "Z"@ {
        Some(KeyCode::KeyZ)
    } else {
        None
    }
}

/// Parse a key string.
pub fn parse_key(key: &str) -> (r: Result<KeyCode, HotkeyError>)
    ensures
        r == match spec_parse_key(key@) {
            Some(k) => Ok::<KeyCode, HotkeyError>(k),
            None => Err::<KeyCode, HotkeyError>(HotkeyError::InvalidKey),
        },
{
    if eq_upper(key, "WIN") || eq_upper(key, "SUPER") {
        Ok(KeyCode::MetaLeft)
    } else if eq_upper(key, "ALT") {
        Ok(KeyCode::AltLeft)
    } else if eq_upper(key, "ALTRIGHT") {
        Ok(KeyCode::AltRight)
    } else if eq_upper(key, "SPACE") {
        Ok(KeyCode::Space)
    } else if eq_upper(key, "ENTER") || eq_upper(key, "RETURN") {
        Ok(KeyCode::Enter)
    } else if eq_upper(key, "TAB") {
        Ok(KeyCode::Tab)
    } else if eq_upper(key, "BACKSPACE") {
        Ok(KeyCode::Backspace)
    } else if eq_upper(key, "ESC") || eq_upper(key, "ESCAPE") {
        Ok(KeyCode::Escape)
    } else if eq_upper(key, "F1") {
        Ok(KeyCode::F1)
    } else if eq_upper(key, "F2") {
        Ok(KeyCode::F2)
    } else if eq_upper(key, "F3") {
        Ok(KeyCode::F3)
    } else if eq_upper(key, "F4") {
        Ok(KeyCode::F4)
    } else if eq_upper(key, "F5") {
        Ok(KeyCode::F5)
    } else if eq_upper(key, "F6") {
        Ok(KeyCode::F6)
    } else if eq_upper(key, "F7") {
        Ok(KeyCode::F7)
    } else if eq_upper(key, "F8") {
        Ok(KeyCode::F8)
    } else if eq_upper(key, "F9") {
        Ok(KeyCode::F9)
    } else if eq_upper(key, "F10") {
        Ok(KeyCode::F10)
    } else if eq_upper(key, "F11") {
        Ok(KeyCode::F11)
    } else if eq_upper(key, "F12") {
        Ok(KeyCode::F12)
    } else if eq_upper(key, "A") {
        Ok(KeyCode::KeyA)
    } else if eq_upper(key, "B") {
        Ok(KeyCode::KeyB)
    } else if eq_upper(key, "C") {
        Ok(KeyCode::KeyC)
    } else if eq_upper(key, "D") {
        Ok(KeyCode::KeyD)
    } else if eq_upper(key, "E") {
        Ok(KeyCode::KeyE)
    } else if eq_upper(key, "F") {
        Ok(KeyCode::KeyF)
    } else if eq_upper(key, "G") {
        Ok(KeyCode::KeyG)
    } else if eq_upper(key, "H") {
        Ok(KeyCode::KeyH)
    } else if eq_upper(key, "I") {
        Ok(KeyCode::KeyI)
    } else if eq_upper(key, "J") {
        Ok(KeyCode::KeyJ)
    } else if eq_upper(key, "K") {
        Ok(KeyCode::KeyK)
    } else if eq_upper(key, "L") {
        Ok(KeyCode::KeyL)
    } else if eq_upper(key, "M") {
        Ok(KeyCode::KeyM)
    } else if eq_upper(key, "N") {
        Ok(KeyCode::KeyN)
    } else if eq_upper(key, "O") {
        Ok(KeyCode::KeyO)
    } else if eq_upper(key, "P") {
        Ok(KeyCode::KeyP)
    } else if eq_upper(key, "Q") {
        Ok(KeyCode::KeyQ)
    } else if eq_upper(key, "R") {
        Ok(KeyCode::KeyR)
    } else if eq_upper(key, "S") {
        Ok(KeyCode::KeyS)
    } else if eq_upper(key, "T") {
        Ok(KeyCode::KeyT)
    } else if eq_upper(key, "U") {
        Ok(KeyCode::KeyU)
    } else if eq_upper(key, "V") {
        Ok(KeyCode::KeyV)
    } else if eq_upper(key, "W") {
        Ok(KeyCode::KeyW)
    } else if eq_upper(key, "X") {
        Ok(KeyCode::KeyX)
    } else if eq_upper(key, "Y") {
        Ok(KeyCode::KeyY)
    } else if eq_upper(key, "Z") {
        Ok(KeyCode::KeyZ)
    } else {
        Err(HotkeyError::InvalidKey)
    }
}

/// Whether the modifier string asks for no modifier at all: empty, or
/// the word NONE in any case.
pub open spec fn spec_none_modifier(s: Seq<char>) -> bool {
    s.len() == 0 || spec_upper(s) == "NONE"@
}

/// The hotkey a pair of descriptor strings names: the modifier is parsed
/// first (empty or NONE meaning no modifier), then the key.
pub open spec fn spec_parse_hotkey(m: Seq<char>, k: Seq<char>) -> Result<HotkeySpec, HotkeyError> {
    if !spec_none_modifier(m) && spec_parse_modifier(m) is None {
        Err(HotkeyError::InvalidModifier)
    } else if spec_parse_key(k) is None {
        Err(HotkeyError::InvalidKey)
    } else {
        Ok(
            HotkeySpec {
                modifier: if spec_none_modifier(m) {
                    None
                } else {
                    spec_parse_modifier(m)
                },
                key: spec_parse_key(k)->Some_0,
            },
        )
    }
}

/// The user-facing description of a hotkey: the key alone when there is
/// no modifier, otherwise `modifier + key`.
pub fn describe_hotkey(modifier: &str, key: &str) -> (r: String)
    ensures
        spec_none_modifier(modifier@) ==> r@ == key@,
        !spec_none_modifier(modifier@) ==> r@ == modifier@ + " + "@ + key@,
{
    if modifier.unicode_len() == 0 || eq_upper(modifier, "NONE") {
        let mut d = String::new();
        d.append(key);
        d
    } else {
        let mut d = String::new();
        d.append(modifier);
        d.append(" + ");
        d.append(key);
        proof {
            assert(d@ =~= modifier@ + " + "@ + key@);
        }
        d
    }
}

/// Parse a hotkey descriptor: a modifier string (empty or NONE for no
/// modifier) and a key string, both case-insensitive.
pub fn parse_hotkey(modifier: &str, key: &str) -> (r: Result<HotkeySpec, HotkeyError>)
    ensures
        r matches Ok(h) ==> spec_parse_hotkey(modifier@, key@) matches Ok(g) && h.modifier
            == g.modifier && h.key == g.key,
        r matches Err(e) ==> spec_parse_hotkey(modifier@, key@) == Err::<HotkeySpec, HotkeyError>(
            e,
        ),
{
    let m: Option<Modifier> = if modifier.unicode_len() == 0 || eq_upper(modifier, "NONE") {
        None
    } else {
        match parse_modifier(modifier) {
            Ok(x) => Some(x),
            Err(e) => {
                return Err(e);
            },
        }
    };
    match parse_key(key) {
        Ok(k) => Ok(HotkeySpec { modifier: m, key: k }),
        Err(e) => Err(e),
    }
}

} // verus!
