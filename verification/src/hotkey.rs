//! Hotkey string parsing. A hotkey string joins modifiers and a key with
//! '+', e.g. "Ctrl+Shift+Space" or "Ctrl+XButton1". A string that names a
//! mouse button is routed to the mouse hook; everything else is a keyboard
//! shortcut, handed on unchanged to the shortcut registrar, which has its
//! own parser.
use vstd::prelude::*;

use crate::mouse_hook::{no_modifiers, Modifiers, MouseButton};
use crate::text::{
    chars_eq_str, chars_of, lowercase, lowercase_chars, split_chars, split_on, trim_chars, trimmed,
    views,
};

verus! {

/// Where a hotkey string routes to.
#[derive(Debug)]
pub enum Hotkey {
    /// A keyboard shortcut, the hotkey string as it was given.
    Keyboard(String),
    /// A mouse button together with the modifiers that must be held.
    Mouse { button: MouseButton, modifiers: Modifiers },
}

/// What one '+'-separated piece of a hotkey string stands for.
#[derive(Clone, Copy, PartialEq, Eq, Debug, Structural)]
pub enum KeyKind {
    Ctrl,
    Shift,
    Alt,
    Win,
    Button(MouseButton),
    Other,
}

/// The normalised pieces of a hotkey string: each piece between '+' signs,
/// trimmed and lowercased.
pub open spec fn hotkey_keys(s: Seq<char>) -> Seq<Seq<char>> {
    split_on(s, '+').map_values(|t: Seq<char>| lowercase(trimmed(t)))
}

/// The names of the mouse buttons, in all their spellings.
pub open spec fn is_mouse_key(k: Seq<char>) -> bool {
    ||| k == "xbutton1"@
    ||| k == "mouse4"@
    ||| k == "mousebutton4"@
    ||| k == "back"@
    ||| k == "xbutton2"@
    ||| k == "mouse5"@
    ||| k == "mousebutton5"@
    ||| k == "forward"@
    ||| k == "middlemouse"@
    ||| k == "mousemiddle"@
    ||| k == "mouse3"@
    ||| k == "middle"@
}

/// Some piece of the hotkey string `s` names a mouse button.
pub open spec fn names_mouse_button(s: Seq<char>) -> bool {
    exists|i: int| 0 <= i < hotkey_keys(s).len() && is_mouse_key(#[trigger] hotkey_keys(s)[i])
}

/// What a normalised piece stands for; names that mean nothing here are ignored.
pub open spec fn key_kind(k: Seq<char>) -> KeyKind {
    if k == "ctrl"@ || k == "control"@ || k == "cmdorctrl"@ || k == "cmd"@ || k == "command"@ {
        KeyKind::Ctrl
    } else if k == "shift"@ {
        KeyKind::Shift
    } else if k == "alt"@ || k == "option"@ {
        KeyKind::Alt
    } else if k == "win"@ || k == "super"@ || k == "meta"@ {
        KeyKind::Win
    } else if k == "xbutton1"@ || k == "mouse4"@ || k == "mousebutton4"@ || k == "back"@ {
        KeyKind::Button(MouseButton::XButton1)
    } else if k == "xbutton2"@ || k == "mouse5"@ || k == "mousebutton5"@ || k == "forward"@ {
        KeyKind::Button(MouseButton::XButton2)
    } else if k == "middlemouse"@ || k == "mousemiddle"@ || k == "mouse3"@ || k == "middle"@ {
        KeyKind::Button(MouseButton::Middle)
    } else {
        KeyKind::Other
    }
}

/// The effect of one piece: a modifier is switched on, a button replaces
/// any button named before it.
pub open spec fn apply_key(acc: (Option<MouseButton>, Modifiers), k: Seq<char>) -> (
    Option<MouseButton>,
    Modifiers,
) {
    let (b, m) = acc;
    match key_kind(k) {
        KeyKind::Ctrl => (b, Modifiers { ctrl: true, ..m }),
        KeyKind::Shift => (b, Modifiers { shift: true, ..m }),
        KeyKind::Alt => (b, Modifiers { alt: true, ..m }),
        KeyKind::Win => (b, Modifiers { win: true, ..m }),
        KeyKind::Button(x) => (Some(x), m),
        KeyKind::Other => (b, m),
    }
}

/// The button and modifiers that the pieces name, read from left to right.
pub open spec fn scan_keys(keys: Seq<Seq<char>>) -> (Option<MouseButton>, Modifiers)
    decreases keys.len(),
{
    if keys.len() == 0 {
        (None, no_modifiers())
    } else {
        apply_key(scan_keys(keys.drop_last()), keys.last())
    }
}

/// `r` is what parsing the hotkey string `s`, whose normalised pieces are
/// `keys`, gives: a mouse hotkey when some piece names a button, else the
/// string itself as a keyboard shortcut.
pub open spec fn parsed_as(r: Hotkey, s: Seq<char>, keys: Seq<Seq<char>>) -> bool {
    match scan_keys(keys).0 {
        None => r matches Hotkey::Keyboard(t) && t@ == s,
        Some(b) => r == Hotkey::Mouse { button: b, modifiers: scan_keys(keys).1 },
    }
}

/// What one normalised piece stands for.
pub fn key_kind_of(k: &Vec<char>) -> (r: KeyKind)
    ensures
        r == key_kind(k@),
{
    if chars_eq_str(k, "ctrl") || chars_eq_str(k, "control") || chars_eq_str(k, "cmdorctrl")
        || chars_eq_str(k, "cmd") || chars_eq_str(k, "command") {
        KeyKind::Ctrl
    } else if chars_eq_str(k, "shift") {
        KeyKind::Shift
    } else if chars_eq_str(k, "alt") || chars_eq_str(k, "option") {
        KeyKind::Alt
    } else if chars_eq_str(k, "win") || chars_eq_str(k, "super") || chars_eq_str(k, "meta") {
        KeyKind::Win
    } else if chars_eq_str(k, "xbutton1") || chars_eq_str(k, "mouse4") || chars_eq_str(
        k,
        "mousebutton4",
    ) || chars_eq_str(k, "back") {
        KeyKind::Button(MouseButton::XButton1)
    } else if chars_eq_str(k, "xbutton2") || chars_eq_str(k, "mouse5") || chars_eq_str(
        k,
        "mousebutton5",
    ) || chars_eq_str(k, "forward") {
        KeyKind::Button(MouseButton::XButton2)
    } else if chars_eq_str(k, "middlemouse") || chars_eq_str(k, "mousemiddle") || chars_eq_str(
        k,
        "mouse3",
    ) || chars_eq_str(k, "middle") {
        KeyKind::Button(MouseButton::Middle)
    } else {
        KeyKind::Other
    }
}

/// Whether one normalised piece names a mouse button.
pub fn is_mouse_key_of(k: &Vec<char>) -> (r: bool)
    ensures
        r == is_mouse_key(k@),
{
    chars_eq_str(k, "xbutton1") || chars_eq_str(k, "mouse4") || chars_eq_str(k, "mousebutton4")
        || chars_eq_str(k, "back") || chars_eq_str(k, "xbutton2") || chars_eq_str(k, "mouse5")
        || chars_eq_str(k, "mousebutton5") || chars_eq_str(k, "forward") || chars_eq_str(
        k,
        "middlemouse",
    ) || chars_eq_str(k, "mousemiddle") || chars_eq_str(k, "mouse3") || chars_eq_str(k, "middle")
}

/// The normalised pieces of a hotkey string: split at '+', each piece
/// trimmed and lowercased.
pub fn hotkey_keys_of(s: &str) -> (r: Vec<Vec<char>>)
    ensures
        views(r@) == hotkey_keys(s@),
{
    let cs = chars_of(s);
    let pieces = split_chars(&cs, '+');
    let mut keys: Vec<Vec<char>> = Vec::new();
    let mut i: usize = 0;
    while i < pieces.len()
        invariant
            i <= pieces.len(),
            views(pieces@) == split_on(s@, '+'),
            views(keys@) == hotkey_keys(s@).take(i as int),
        decreases pieces.len() - i,
    {
        let t = trim_chars(&pieces[i]);
        let k = lowercase_chars(&t);
        let ghost old_keys = views(keys@);
        keys.push(k);
        assert(views(keys@) =~= old_keys.push(k@));
        assert(hotkey_keys(s@).take(i + 1) =~= hotkey_keys(s@).take(i as int).push(k@));
        i += 1;
    }
    assert(hotkey_keys(s@).take(i as int) =~= hotkey_keys(s@));
    keys
}

/// Whether some normalised piece names a mouse button.
pub fn any_mouse_key(keys: &Vec<Vec<char>>) -> (r: bool)
    ensures
        r == exists|i: int| 0 <= i < keys@.len() && is_mouse_key(#[trigger] keys@[i]@),
{
    let mut i: usize = 0;
    while i < keys.len()
        invariant
            i <= keys.len(),
            forall|j: int| 0 <= j < i ==> !is_mouse_key(#[trigger] keys@[j]@),
        decreases keys.len() - i,
    {
        if is_mouse_key_of(&keys[i]) {
            return true;
        }
        i += 1;
    }
    false
}

/// True if the hotkey string names any mouse button, on any platform.
/// Used when settings are migrated, to route a legacy single hotkey string
/// into the right slot.
pub fn is_mouse_hotkey(s: &str) -> (r: bool)
    ensures
        r == names_mouse_button(s@),
{
    let keys = hotkey_keys_of(s);
    let r = any_mouse_key(&keys);
    proof {
        if r {
            let i = choose|i: int| 0 <= i < keys@.len() && is_mouse_key(#[trigger] keys@[i]@);
            assert(views(keys@)[i] == keys@[i]@);
        } else {
            assert forall|i: int| 0 <= i < hotkey_keys(s@).len() implies !is_mouse_key(
                #[trigger] hotkey_keys(s@)[i],
            ) by {
                assert(views(keys@)[i] == keys@[i]@);
            }
        }
    }
    r
}

/// The hotkey that the normalised pieces `keys` of the string `s` describe.
pub fn hotkey_from_keys(s: &str, keys: &Vec<Vec<char>>) -> (r: Hotkey)
    ensures
        parsed_as(r, s@, views(keys@)),
{
    broadcast use vstd::string::group_string_axioms;

    let mut button: Option<MouseButton> = None;
    let mut modifiers = Modifiers { ctrl: false, shift: false, alt: false, win: false };
    let mut i: usize = 0;
    while i < keys.len()
        invariant
            i <= keys.len(),
            (button, modifiers) == scan_keys(views(keys@).take(i as int)),
        decreases keys.len() - i,
    {
        assert(views(keys@).take(i + 1).drop_last() =~= views(keys@).take(i as int));
        assert(views(keys@).take(i + 1).last() == keys@[i as int]@);
        match key_kind_of(&keys[i]) {
            KeyKind::Ctrl => modifiers.ctrl = true,
            KeyKind::Shift => modifiers.shift = true,
            KeyKind::Alt => modifiers.alt = true,
            KeyKind::Win => modifiers.win = true,
            KeyKind::Button(b) => button = Some(b),
            KeyKind::Other => {},
        }
        i += 1;
    }
    assert(views(keys@).take(i as int) =~= views(keys@));
    match button {
        Some(b) => Hotkey::Mouse { button: b, modifiers },
        None => Hotkey::Keyboard(s.to_string()),
    }
}

/// Parses a hotkey string for a platform with the mouse hook: a mouse
/// hotkey when some piece names a mouse button (the last one named wins,
/// together with every modifier named), otherwise the string unchanged as a
/// keyboard shortcut.
pub fn parse(s: &str) -> (r: Hotkey)
    ensures
        parsed_as(r, s@, hotkey_keys(s@)),
{
    let keys = hotkey_keys_of(s);
    hotkey_from_keys(s, &keys)
}


/// A normalised piece is read as a button exactly when it is one of the
/// mouse button names.
proof fn lemma_key_kind_button(k: Seq<char>)
    ensures
        key_kind(k) is Button <==> is_mouse_key(k),
{
    reveal_strlit("ctrl");
    reveal_strlit("control");
    reveal_strlit("cmdorctrl");
    reveal_strlit("cmd");
    reveal_strlit("command");
    reveal_strlit("shift");
    reveal_strlit("alt");
    reveal_strlit("option");
    reveal_strlit("win");
    reveal_strlit("super");
    reveal_strlit("meta");
    reveal_strlit("xbutton1");
    reveal_strlit("mouse4");
    reveal_strlit("mousebutton4");
    reveal_strlit("back");
    reveal_strlit("xbutton2");
    reveal_strlit("mouse5");
    reveal_strlit("mousebutton5");
    reveal_strlit("forward");
    reveal_strlit("middlemouse");
    reveal_strlit("mousemiddle");
    reveal_strlit("mouse3");
    reveal_strlit("middle");
    if is_mouse_key(k) {
        if k.len() == 4 {
            assert(k[0] == 'b');
        }
        if k.len() == 6 {
            assert(k[0] == 'm');
        }
        if k.len() == 7 {
            assert(k[0] == 'f');
        }
    }
}

/// The scan ends with a button exactly when some piece names one.
pub proof fn lemma_scan_button(keys: Seq<Seq<char>>)
    ensures
        scan_keys(keys).0 is Some <==> exists|i: int|
            0 <= i < keys.len() && is_mouse_key(#[trigger] keys[i]),
    decreases keys.len(),
{
    if keys.len() > 0 {
        let prev = keys.drop_last();
        lemma_scan_button(prev);
        lemma_key_kind_button(keys.last());
        if exists|i: int| 0 <= i < prev.len() && is_mouse_key(#[trigger] prev[i]) {
            let i = choose|i: int| 0 <= i < prev.len() && is_mouse_key(#[trigger] prev[i]);
            assert(keys[i] == prev[i]);
        }
        if exists|i: int| 0 <= i < keys.len() && is_mouse_key(#[trigger] keys[i]) {
            let i = choose|i: int| 0 <= i < keys.len() && is_mouse_key(#[trigger] keys[i]);
            if i < prev.len() {
                assert(prev[i] == keys[i]);
            }
        }
    }
}

/// `is_mouse_hotkey` and `parse` agree: a hotkey string is reported as
/// naming a mouse button exactly when parsing it gives a mouse hotkey.
pub proof fn law_mouse_hotkey_agrees_with_parse(s: Seq<char>, r: Hotkey)
    requires
        parsed_as(r, s, hotkey_keys(s)),
    ensures
        r is Mouse <==> names_mouse_button(s),
{
    lemma_scan_button(hotkey_keys(s));
}

/// Every spelling of a key names the same thing wherever it appears: the
/// names of the back button ("xbutton1", "mouse4", "mousebutton4", "back")
/// are read as XButton1, those of the forward button ("xbutton2", "mouse5",
/// "mousebutton5", "forward") as XButton2, those of the middle button
/// ("middlemouse", "mousemiddle", "mouse3", "middle") as Middle, and the
/// modifier names as their modifier ("cmdorctrl", "cmd" and "command" count
/// as Ctrl, "option" as Alt, "super" and "meta" as Win).
pub proof fn law_key_spellings(k: Seq<char>)
    ensures
        (k == "xbutton1"@ || k == "mouse4"@ || k == "mousebutton4"@ || k == "back"@) ==> key_kind(k)
            == KeyKind::Button(MouseButton::XButton1),
        (k == "xbutton2"@ || k == "mouse5"@ || k == "mousebutton5"@ || k == "forward"@) ==> key_kind(
            k,
        ) == KeyKind::Button(MouseButton::XButton2),
        (k == "middlemouse"@ || k == "mousemiddle"@ || k == "mouse3"@ || k == "middle"@) ==> key_kind(
            k,
        ) == KeyKind::Button(MouseButton::Middle),
        (k == "ctrl"@ || k == "control"@ || k == "cmdorctrl"@ || k == "cmd"@ || k == "command"@)
            ==> key_kind(k) == KeyKind::Ctrl,
        k == "shift"@ ==> key_kind(k) == KeyKind::Shift,
        (k == "alt"@ || k == "option"@) ==> key_kind(k) == KeyKind::Alt,
        (k == "win"@ || k == "super"@ || k == "meta"@) ==> key_kind(k) == KeyKind::Win,
{
    reveal_strlit("ctrl");
    reveal_strlit("control");
    reveal_strlit("cmdorctrl");
    reveal_strlit("cmd");
    reveal_strlit("command");
    reveal_strlit("shift");
    reveal_strlit("alt");
    reveal_strlit("option");
    reveal_strlit("win");
    reveal_strlit("super");
    reveal_strlit("meta");
    reveal_strlit("xbutton1");
    reveal_strlit("mouse4");
    reveal_strlit("mousebutton4");
    reveal_strlit("back");
    reveal_strlit("xbutton2");
    reveal_strlit("mouse5");
    reveal_strlit("mousebutton5");
    reveal_strlit("forward");
    reveal_strlit("middlemouse");
    reveal_strlit("mousemiddle");
    reveal_strlit("mouse3");
    reveal_strlit("middle");
    if k == "ctrl"@ {
        assert(k[0] == 'c');
        assert(k[1] == 't');
        assert(k[2] == 'r');
        assert(k[3] == 'l');
    }
    if k == "control"@ {
        assert(k[0] == 'c');
        assert(k[1] == 'o');
        assert(k[2] == 'n');
        assert(k[3] == 't');
        assert(k[4] == 'r');
        assert(k[5] == 'o');
        assert(k[6] == 'l');
    }
    if k == "cmdorctrl"@ {
        assert(k[0] == 'c');
        assert(k[1] == 'm');
        assert(k[2] == 'd');
        assert(k[3] == 'o');
        assert(k[4] == 'r');
        assert(k[5] == 'c');
        assert(k[6] == 't');
        assert(k[7] == 'r');
        assert(k[8] == 'l');
    }
    if k == "cmd"@ {
        assert(k[0] == 'c');
        assert(k[1] == 'm');
        assert(k[2] == 'd');
    }
    if k == "command"@ {
        assert(k[0] == 'c');
        assert(k[1] == 'o');
        assert(k[2] == 'm');
        assert(k[3] == 'm');
        assert(k[4] == 'a');
        assert(k[5] == 'n');
        assert(k[6] == 'd');
    }
    if k == "shift"@ {
        assert(k[0] == 's');
        assert(k[1] == 'h');
        assert(k[2] == 'i');
        assert(k[3] == 'f');
        assert(k[4] == 't');
    }
    if k == "alt"@ {
        assert(k[0] == 'a');
        assert(k[1] == 'l');
        assert(k[2] == 't');
    }
    if k == "option"@ {
        assert(k[0] == 'o');
        assert(k[1] == 'p');
        assert(k[2] == 't');
        assert(k[3] == 'i');
        assert(k[4] == 'o');
        assert(k[5] == 'n');
    }
    if k == "win"@ {
        assert(k[0] == 'w');
        assert(k[1] == 'i');
        assert(k[2] == 'n');
    }
    if k == "super"@ {
        assert(k[0] == 's');
        assert(k[1] == 'u');
        assert(k[2] == 'p');
        assert(k[3] == 'e');
        assert(k[4] == 'r');
    }
    if k == "meta"@ {
        assert(k[0] == 'm');
        assert(k[1] == 'e');
        assert(k[2] == 't');
        assert(k[3] == 'a');
    }
    if k == "xbutton1"@ {
        assert(k[0] == 'x');
        assert(k[1] == 'b');
        assert(k[2] == 'u');
        assert(k[3] == 't');
        assert(k[4] == 't');
        assert(k[5] == 'o');
        assert(k[6] == 'n');
        assert(k[7] == '1');
    }
    if k == "mouse4"@ {
        assert(k[0] == 'm');
        assert(k[1] == 'o');
        assert(k[2] == 'u');
        assert(k[3] == 's');
        assert(k[4] == 'e');
        assert(k[5] == '4');
    }
    if k == "mousebutton4"@ {
        assert(k[0] == 'm');
        assert(k[1] == 'o');
        assert(k[2] == 'u');
        assert(k[3] == 's');
        assert(k[4] == 'e');
        assert(k[5] == 'b');
        assert(k[6] == 'u');
        assert(k[7] == 't');
        assert(k[8] == 't');
        assert(k[9] == 'o');
        assert(k[10] == 'n');
        assert(k[11] == '4');
    }
    if k == "back"@ {
        assert(k[0] == 'b');
        assert(k[1] == 'a');
        assert(k[2] == 'c');
        assert(k[3] == 'k');
    }
    if k == "xbutton2"@ {
        assert(k[0] == 'x');
        assert(k[1] == 'b');
        assert(k[2] == 'u');
        assert(k[3] == 't');
        assert(k[4] == 't');
        assert(k[5] == 'o');
        assert(k[6] == 'n');
        assert(k[7] == '2');
    }
    if k == "mouse5"@ {
        assert(k[0] == 'm');
        assert(k[1] == 'o');
        assert(k[2] == 'u');
        assert(k[3] == 's');
        assert(k[4] == 'e');
        assert(k[5] == '5');
    }
    if k == "mousebutton5"@ {
        assert(k[0] == 'm');
        assert(k[1] == 'o');
        assert(k[2] == 'u');
        assert(k[3] == 's');
        assert(k[4] == 'e');
        assert(k[5] == 'b');
        assert(k[6] == 'u');
        assert(k[7] == 't');
        assert(k[8] == 't');
        assert(k[9] == 'o');
        assert(k[10] == 'n');
        assert(k[11] == '5');
    }
    if k == "forward"@ {
        assert(k[0] == 'f');
        assert(k[1] == 'o');
        assert(k[2] == 'r');
        assert(k[3] == 'w');
        assert(k[4] == 'a');
        assert(k[5] == 'r');
        assert(k[6] == 'd');
    }
    if k == "middlemouse"@ {
        assert(k[0] == 'm');
        assert(k[1] == 'i');
        assert(k[2] == 'd');
        assert(k[3] == 'd');
        assert(k[4] == 'l');
        assert(k[5] == 'e');
        assert(k[6] == 'm');
        assert(k[7] == 'o');
        assert(k[8] == 'u');
        assert(k[9] == 's');
        assert(k[10] == 'e');
    }
    if k == "mousemiddle"@ {
        assert(k[0] == 'm');
        assert(k[1] == 'o');
        assert(k[2] == 'u');
        assert(k[3] == 's');
        assert(k[4] == 'e');
        assert(k[5] == 'm');
        assert(k[6] == 'i');
        assert(k[7] == 'd');
        assert(k[8] == 'd');
        assert(k[9] == 'l');
        assert(k[10] == 'e');
    }
    if k == "mouse3"@ {
        assert(k[0] == 'm');
        assert(k[1] == 'o');
        assert(k[2] == 'u');
        assert(k[3] == 's');
        assert(k[4] == 'e');
        assert(k[5] == '3');
    }
    if k == "middle"@ {
        assert(k[0] == 'm');
        assert(k[1] == 'i');
        assert(k[2] == 'd');
        assert(k[3] == 'd');
        assert(k[4] == 'l');
        assert(k[5] == 'e');
    }
}

/// In a hotkey, the last button named wins: whatever pieces come before, a
/// final piece that names the forward button makes it an XButton2 hotkey,
/// one that names the back button an XButton1 hotkey, one that names the
/// middle button a Middle hotkey; modifiers named before it are kept.
pub proof fn law_last_button_wins(keys: Seq<Seq<char>>, k: Seq<char>)
    ensures
        (k == "xbutton2"@ || k == "mouse5"@ || k == "mousebutton5"@ || k == "forward"@) ==> scan_keys(
            keys.push(k),
        ) == (Some(MouseButton::XButton2), scan_keys(keys).1),
        (k == "xbutton1"@ || k == "mouse4"@ || k == "mousebutton4"@ || k == "back"@) ==> scan_keys(
            keys.push(k),
        ) == (Some(MouseButton::XButton1), scan_keys(keys).1),
        (k == "middlemouse"@ || k == "mousemiddle"@ || k == "mouse3"@ || k == "middle"@) ==> scan_keys(
            keys.push(k),
        ) == (Some(MouseButton::Middle), scan_keys(keys).1),
{
    law_key_spellings(k);
    assert(keys.push(k).drop_last() =~= keys);
    assert(keys.push(k).last() == k);
}

} // verus!
