//! The hotkey binding: modifier flags plus one key.

use crate::platform::Platform;
use global_hotkey::hotkey::{Code, HotKey, Modifiers};
use vstd::prelude::*;
use vstd::string::StringExecFns;

verus! {

/// The physical key codes of the hotkey library, as that library defines them.
#[verifier::external_type_specification]
pub struct ExCode(Code);

/// A set of modifier keys of the hotkey library.
#[verifier::external_type_specification]
#[verifier::external_body]
pub struct ExModifiers(Modifiers);

/// A registrable hotkey of the hotkey library: modifiers, key and numeric id.
#[verifier::external_type_specification]
pub struct ExHotKey(HotKey);

/// The keys a binding can use.
#[derive(Debug, Clone, Copy, PartialEq, Eq, Structural)]
pub enum KeyCode {
    A,
    B,
    C,
    D,
    E,
    F,
    G,
    H,
    I,
    J,
    K,
    L,
    M,
    N,
    O,
    P,
    Q,
    R,
    S,
    T,
    U,
    V,
    W,
    X,
    Y,
    Z,
    F1,
    F2,
    F3,
    F4,
    F5,
    F6,
    F7,
    F8,
    F9,
    F10,
    F11,
    F12,
    Key0,
    Key1,
    Key2,
    Key3,
    Key4,
    Key5,
    Key6,
    Key7,
    Key8,
    Key9,
    Space,
    Enter,
    Tab,
    Backquote,
}

impl KeyCode {
    /// Every key, in the order in which a key picker offers them.
    pub open spec fn every() -> Seq<KeyCode> {
        seq![
            KeyCode::A,
            KeyCode::B,
            KeyCode::C,
            KeyCode::D,
            KeyCode::E,
            KeyCode::F,
            KeyCode::G,
            KeyCode::H,
            KeyCode::I,
            KeyCode::J,
            KeyCode::K,
            KeyCode::L,
            KeyCode::M,
            KeyCode::N,
            KeyCode::O,
            KeyCode::P,
            KeyCode::Q,
            KeyCode::R,
            KeyCode::S,
            KeyCode::T,
            KeyCode::U,
            KeyCode::V,
            KeyCode::W,
            KeyCode::X,
            KeyCode::Y,
            KeyCode::Z,
            KeyCode::F1,
            KeyCode::F2,
            KeyCode::F3,
            KeyCode::F4,
            KeyCode::F5,
            KeyCode::F6,
            KeyCode::F7,
            KeyCode::F8,
            KeyCode::F9,
            KeyCode::F10,
            KeyCode::F11,
            KeyCode::F12,
            KeyCode::Key0,
            KeyCode::Key1,
            KeyCode::Key2,
            KeyCode::Key3,
            KeyCode::Key4,
            KeyCode::Key5,
            KeyCode::Key6,
            KeyCode::Key7,
            KeyCode::Key8,
            KeyCode::Key9,
            KeyCode::Space,
            KeyCode::Enter,
            KeyCode::Tab,
            KeyCode::Backquote,
        ]
    }

    /// The place of this key in `every()`.
    pub open spec fn position(self) -> int {
        match self {
            KeyCode::A => 0,
            KeyCode::B => 1,
            KeyCode::C => 2,
            KeyCode::D => 3,
            KeyCode::E => 4,
            KeyCode::F => 5,
            KeyCode::G => 6,
            KeyCode::H => 7,
            KeyCode::I => 8,
            KeyCode::J => 9,
            KeyCode::K => 10,
            KeyCode::L => 11,
            KeyCode::M => 12,
            KeyCode::N => 13,
            KeyCode::O => 14,
            KeyCode::P => 15,
            KeyCode::Q => 16,
            KeyCode::R => 17,
            KeyCode::S => 18,
            KeyCode::T => 19,
            KeyCode::U => 20,
            KeyCode::V => 21,
            KeyCode::W => 22,
            KeyCode::X => 23,
            KeyCode::Y => 24,
            KeyCode::Z => 25,
            KeyCode::F1 => 26,
            KeyCode::F2 => 27,
            KeyCode::F3 => 28,
            KeyCode::F4 => 29,
            KeyCode::F5 => 30,
            KeyCode::F6 => 31,
            KeyCode::F7 => 32,
            KeyCode::F8 => 33,
            KeyCode::F9 => 34,
            KeyCode::F10 => 35,
            KeyCode::F11 => 36,
            KeyCode::F12 => 37,
            KeyCode::Key0 => 38,
            KeyCode::Key1 => 39,
            KeyCode::Key2 => 40,
            KeyCode::Key3 => 41,
            KeyCode::Key4 => 42,
            KeyCode::Key5 => 43,
            KeyCode::Key6 => 44,
            KeyCode::Key7 => 45,
            KeyCode::Key8 => 46,
            KeyCode::Key9 => 47,
            KeyCode::Space => 48,
            KeyCode::Enter => 49,
            KeyCode::Tab => 50,
            KeyCode::Backquote => 51,
        }
    }

    /// The label shown for this key.
    pub open spec fn label(self) -> Seq<char> {
        match self {
            KeyCode::A => "A"@,
            KeyCode::B => "B"@,
            KeyCode::C => "C"@,
            KeyCode::D => "D"@,
            KeyCode::E => "E"@,
            KeyCode::F => "F"@,
            KeyCode::G => "G"@,
            KeyCode::H => "H"@,
            KeyCode::I => "I"@,
            KeyCode::J => "J"@,
            KeyCode::K => "K"@,
            KeyCode::L => "L"@,
            KeyCode::M => "M"@,
            KeyCode::N => "N"@,
            KeyCode::O => "O"@,
            KeyCode::P => "P"@,
            KeyCode::Q => "Q"@,
            KeyCode::R => "R"@,
            KeyCode::S => "S"@,
            KeyCode::T => "T"@,
            KeyCode::U => "U"@,
            KeyCode::V => "V"@,
            KeyCode::W => "W"@,
            KeyCode::X => "X"@,
            KeyCode::Y => "Y"@,
            KeyCode::Z => "Z"@,
            KeyCode::F1 => "F1"@,
            KeyCode::F2 => "F2"@,
            KeyCode::F3 => "F3"@,
            KeyCode::F4 => "F4"@,
            KeyCode::F5 => "F5"@,
            KeyCode::F6 => "F6"@,
            KeyCode::F7 => "F7"@,
            KeyCode::F8 => "F8"@,
            KeyCode::F9 => "F9"@,
            KeyCode::F10 => "F10"@,
            KeyCode::F11 => "F11"@,
            KeyCode::F12 => "F12"@,
            KeyCode::Key0 => "0"@,
            KeyCode::Key1 => "1"@,
            KeyCode::Key2 => "2"@,
            KeyCode::Key3 => "3"@,
            KeyCode::Key4 => "4"@,
            KeyCode::Key5 => "5"@,
            KeyCode::Key6 => "6"@,
            KeyCode::Key7 => "7"@,
            KeyCode::Key8 => "8"@,
            KeyCode::Key9 => "9"@,
            KeyCode::Space => "Space"@,
            KeyCode::Enter => "Enter"@,
            KeyCode::Tab => "Tab"@,
            KeyCode::Backquote => "`"@,
        }
    }

    /// The physical key code that stands for this key.
    pub open spec fn code(self) -> Code {
        match self {
            KeyCode::A => Code::KeyA,
            KeyCode::B => Code::KeyB,
            KeyCode::C => Code::KeyC,
            KeyCode::D => Code::KeyD,
            KeyCode::E => Code::KeyE,
            KeyCode::F => Code::KeyF,
            KeyCode::G => Code::KeyG,
            KeyCode::H => Code::KeyH,
            KeyCode::I => Code::KeyI,
            KeyCode::J => Code::KeyJ,
            KeyCode::K => Code::KeyK,
            KeyCode::L => Code::KeyL,
            KeyCode::M => Code::KeyM,
            KeyCode::N => Code::KeyN,
            KeyCode::O => Code::KeyO,
            KeyCode::P => Code::KeyP,
            KeyCode::Q => Code::KeyQ,
            KeyCode::R => Code::KeyR,
            KeyCode::S => Code::KeyS,
            KeyCode::T => Code::KeyT,
            KeyCode::U => Code::KeyU,
            KeyCode::V => Code::KeyV,
            KeyCode::W => Code::KeyW,
            KeyCode::X => Code::KeyX,
            KeyCode::Y => Code::KeyY,
            KeyCode::Z => Code::KeyZ,
            KeyCode::F1 => Code::F1,
            KeyCode::F2 => Code::F2,
            KeyCode::F3 => Code::F3,
            KeyCode::F4 => Code::F4,
            KeyCode::F5 => Code::F5,
            KeyCode::F6 => Code::F6,
            KeyCode::F7 => Code::F7,
            KeyCode::F8 => Code::F8,
            KeyCode::F9 => Code::F9,
            KeyCode::F10 => Code::F10,
            KeyCode::F11 => Code::F11,
            KeyCode::F12 => Code::F12,
            KeyCode::Key0 => Code::Digit0,
            KeyCode::Key1 => Code::Digit1,
            KeyCode::Key2 => Code::Digit2,
            KeyCode::Key3 => Code::Digit3,
            KeyCode::Key4 => Code::Digit4,
            KeyCode::Key5 => Code::Digit5,
            KeyCode::Key6 => Code::Digit6,
            KeyCode::Key7 => Code::Digit7,
            KeyCode::Key8 => Code::Digit8,
            KeyCode::Key9 => Code::Digit9,
            KeyCode::Space => Code::Space,
            KeyCode::Enter => Code::Enter,
            KeyCode::Tab => Code::Tab,
            KeyCode::Backquote => Code::Backquote,
        }
    }

    /// All keys that can be chosen, each exactly once.
    pub fn all() -> (r: Vec<KeyCode>)
        ensures
            r@ == KeyCode::every(),
    {
        let r = vec![
            KeyCode::A,
            KeyCode::B,
            KeyCode::C,
            KeyCode::D,
            KeyCode::E,
            KeyCode::F,
            KeyCode::G,
            KeyCode::H,
            KeyCode::I,
            KeyCode::J,
            KeyCode::K,
            KeyCode::L,
            KeyCode::M,
            KeyCode::N,
            KeyCode::O,
            KeyCode::P,
            KeyCode::Q,
            KeyCode::R,
            KeyCode::S,
            KeyCode::T,
            KeyCode::U,
            KeyCode::V,
            KeyCode::W,
            KeyCode::X,
            KeyCode::Y,
            KeyCode::Z,
            KeyCode::F1,
            KeyCode::F2,
            KeyCode::F3,
            KeyCode::F4,
            KeyCode::F5,
            KeyCode::F6,
            KeyCode::F7,
            KeyCode::F8,
            KeyCode::F9,
            KeyCode::F10,
            KeyCode::F11,
            KeyCode::F12,
            KeyCode::Key0,
            KeyCode::Key1,
            KeyCode::Key2,
            KeyCode::Key3,
            KeyCode::Key4,
            KeyCode::Key5,
            KeyCode::Key6,
            KeyCode::Key7,
            KeyCode::Key8,
            KeyCode::Key9,
            KeyCode::Space,
            KeyCode::Enter,
            KeyCode::Tab,
            KeyCode::Backquote,
        ];
        assert(r@ =~= KeyCode::every());
        r
    }

    pub fn display(&self) -> (r: &'static str)
        ensures
            r@ == self.label(),
    {
        match self {
            KeyCode::A => "A",
            KeyCode::B => "B",
            KeyCode::C => "C",
            KeyCode::D => "D",
            KeyCode::E => "E",
            KeyCode::F => "F",
            KeyCode::G => "G",
            KeyCode::H => "H",
            KeyCode::I => "I",
            KeyCode::J => "J",
            KeyCode::K => "K",
            KeyCode::L => "L",
            KeyCode::M => "M",
            KeyCode::N => "N",
            KeyCode::O => "O",
            KeyCode::P => "P",
            KeyCode::Q => "Q",
            KeyCode::R => "R",
            KeyCode::S => "S",
            KeyCode::T => "T",
            KeyCode::U => "U",
            KeyCode::V => "V",
            KeyCode::W => "W",
            KeyCode::X => "X",
            KeyCode::Y => "Y",
            KeyCode::Z => "Z",
            KeyCode::F1 => "F1",
            KeyCode::F2 => "F2",
            KeyCode::F3 => "F3",
            KeyCode::F4 => "F4",
            KeyCode::F5 => "F5",
            KeyCode::F6 => "F6",
            KeyCode::F7 => "F7",
            KeyCode::F8 => "F8",
            KeyCode::F9 => "F9",
            KeyCode::F10 => "F10",
            KeyCode::F11 => "F11",
            KeyCode::F12 => "F12",
            KeyCode::Key0 => "0",
            KeyCode::Key1 => "1",
            KeyCode::Key2 => "2",
            KeyCode::Key3 => "3",
            KeyCode::Key4 => "4",
            KeyCode::Key5 => "5",
            KeyCode::Key6 => "6",
            KeyCode::Key7 => "7",
            KeyCode::Key8 => "8",
            KeyCode::Key9 => "9",
            KeyCode::Space => "Space",
            KeyCode::Enter => "Enter",
            KeyCode::Tab => "Tab",
            KeyCode::Backquote => "`",
        }
    }

    pub fn to_code(&self) -> (r: Code)
        ensures
            r == self.code(),
    {
        match self {
            KeyCode::A => Code::KeyA,
            KeyCode::B => Code::KeyB,
            KeyCode::C => Code::KeyC,
            KeyCode::D => Code::KeyD,
            KeyCode::E => Code::KeyE,
            KeyCode::F => Code::KeyF,
            KeyCode::G => Code::KeyG,
            KeyCode::H => Code::KeyH,
            KeyCode::I => Code::KeyI,
            KeyCode::J => Code::KeyJ,
            KeyCode::K => Code::KeyK,
            KeyCode::L => Code::KeyL,
            KeyCode::M => Code::KeyM,
            KeyCode::N => Code::KeyN,
            KeyCode::O => Code::KeyO,
            KeyCode::P => Code::KeyP,
            KeyCode::Q => Code::KeyQ,
            KeyCode::R => Code::KeyR,
            KeyCode::S => Code::KeyS,
            KeyCode::T => Code::KeyT,
            KeyCode::U => Code::KeyU,
            KeyCode::V => Code::KeyV,
            KeyCode::W => Code::KeyW,
            KeyCode::X => Code::KeyX,
            KeyCode::Y => Code::KeyY,
            KeyCode::Z => Code::KeyZ,
            KeyCode::F1 => Code::F1,
            KeyCode::F2 => Code::F2,
            KeyCode::F3 => Code::F3,
            KeyCode::F4 => Code::F4,
            KeyCode::F5 => Code::F5,
            KeyCode::F6 => Code::F6,
            KeyCode::F7 => Code::F7,
            KeyCode::F8 => Code::F8,
            KeyCode::F9 => Code::F9,
            KeyCode::F10 => Code::F10,
            KeyCode::F11 => Code::F11,
            KeyCode::F12 => Code::F12,
            KeyCode::Key0 => Code::Digit0,
            KeyCode::Key1 => Code::Digit1,
            KeyCode::Key2 => Code::Digit2,
            KeyCode::Key3 => Code::Digit3,
            KeyCode::Key4 => Code::Digit4,
            KeyCode::Key5 => Code::Digit5,
            KeyCode::Key6 => Code::Digit6,
            KeyCode::Key7 => Code::Digit7,
            KeyCode::Key8 => Code::Digit8,
            KeyCode::Key9 => Code::Digit9,
            KeyCode::Space => Code::Space,
            KeyCode::Enter => Code::Enter,
            KeyCode::Tab => Code::Tab,
            KeyCode::Backquote => Code::Backquote,
        }
    }
}

impl Default for KeyCode {
    fn default() -> (r: Self)
        ensures
            r == KeyCode::V,
    {
        KeyCode::V
    }
}

/// `every()` lists each key exactly once: a key stands at its own position,
/// and two positions that hold the same key are the same position.
pub proof fn lemma_every_key_listed_once(k: KeyCode)
    ensures
        KeyCode::every().len() == 52,
        0 <= k.position() < KeyCode::every().len(),
        KeyCode::every()[k.position()] == k,
        forall|i: int| 0 <= i < KeyCode::every().len() && KeyCode::every()[i] == k ==> i == k.position(),
{
    assert forall|i: int| 0 <= i < KeyCode::every().len() && KeyCode::every()[i] == k implies i
        == k.position() by {
        lemma_position_of_listed(i);
    }
}

/// The key at place `i` of `every()` has position `i`.
proof fn lemma_position_of_listed(i: int)
    requires
        0 <= i < KeyCode::every().len(),
    ensures
        KeyCode::every()[i].position() == i,
{
}

/// A hotkey binding.
#[derive(Debug, Clone, Copy, PartialEq, Eq, Structural)]
pub struct HotkeyConfig {
    pub ctrl: bool,
    pub shift: bool,
    pub alt: bool,
    pub meta: bool,
    pub key: KeyCode,
}

impl Default for HotkeyConfig {
    fn default() -> (r: Self)
        ensures
            r == HotkeyConfig::builtin_default(),
    {
        HotkeyConfig { ctrl: true, shift: true, alt: false, meta: false, key: KeyCode::V }
    }
}

/// The flags of a set of modifiers as one number, as `Modifiers::bits`
/// gives them.
pub uninterp spec fn modifier_bits(mods: Modifiers) -> u32;

/// The flags that a registered hotkey holds for the four modifiers of a
/// binding: `ALT` is 0x1, `CONTROL` 0x8, `SHIFT` 0x200, and the meta key is
/// filed under `SUPER`, 0x2000.
pub open spec fn hotkey_flags(ctrl: bool, shift: bool, alt: bool, meta: bool) -> u32 {
    let alt_flag: int = if alt { 0x1 } else { 0 };
    let control_flag: int = if ctrl { 0x8 } else { 0 };
    let shift_flag: int = if shift { 0x200 } else { 0 };
    let super_flag: int = if meta { 0x2000 } else { 0 };
    (alt_flag + control_flag + shift_flag + super_flag) as u32
}

/// The numeric id that `HotKey::new` gives the hotkey of these modifiers and
/// this key. It is computed from them alone.
pub uninterp spec fn hotkey_id(ctrl: bool, shift: bool, alt: bool, meta: bool, code: Code) -> u32;

/// Builds the hotkey for the given modifiers and key with
/// `global_hotkey::hotkey::HotKey::new`, after turning each flag into the
/// modifier it stands for with `Modifiers::set` (`meta` is handed over as
/// `META`, which `HotKey::new` files under `SUPER`). Trusted: the hotkey's
/// key is the code that was given, its modifiers are those of the flags
/// that were set, and its numeric id is the one that the outside library
/// derives from the modifiers and the key.
#[verifier::external_body]
fn new_hotkey(ctrl: bool, shift: bool, alt: bool, meta: bool, code: Code) -> (r: HotKey)
    ensures
        r.key == code,
        modifier_bits(r.mods) == hotkey_flags(ctrl, shift, alt, meta),
        r.id == hotkey_id(ctrl, shift, alt, meta, code),
{
    let mut mods = Modifiers::empty();
    mods.set(Modifiers::CONTROL, ctrl);
    mods.set(Modifiers::SHIFT, shift);
    mods.set(Modifiers::ALT, alt);
    mods.set(Modifiers::META, meta);
    HotKey::new(Some(mods), code)
}

/// What a modifier adds to a binding's label: its name and the joiner where
/// it is set, nothing where it is not.
pub open spec fn modifier_part(present: bool, name: Seq<char>) -> Seq<char> {
    if present {
        name + " + "@
    } else {
        Seq::<char>::empty()
    }
}

fn append_modifier(shown: &mut String, present: bool, name: &str)
    ensures
        final(shown)@ == old(shown)@ + modifier_part(present, name@),
{
    if present {
        shown.append(name);
        shown.append(" + ");
    }
    assert(shown@ =~= old(shown)@ + modifier_part(present, name@));
}

impl HotkeyConfig {
    /// Ctrl + Shift + V.
    pub open spec fn builtin_default() -> HotkeyConfig {
        HotkeyConfig { ctrl: true, shift: true, alt: false, meta: false, key: KeyCode::V }
    }

    /// The name of the meta modifier on a platform.
    pub open spec fn meta_label(platform: Platform) -> Seq<char> {
        if platform == Platform::MacOs {
            "Cmd"@
        } else {
            "Win"@
        }
    }

    /// The binding as shown to the user: the modifiers that are set, in the
    /// order Ctrl, Shift, Alt, meta, then the key, joined by `" + "`.
    pub open spec fn label(self, platform: Platform) -> Seq<char> {
        modifier_part(self.ctrl, "Ctrl"@) + modifier_part(self.shift, "Shift"@) + modifier_part(
            self.alt,
            "Alt"@,
        ) + modifier_part(self.meta, Self::meta_label(platform)) + self.key.label()
    }

    /// Whether the two bindings are the same combination, so that they could
    /// not both be registered.
    pub fn conflicts_with(&self, other: &HotkeyConfig) -> (r: bool)
        ensures
            r == (*self == *other),
    {
        self.ctrl == other.ctrl && self.shift == other.shift && self.alt == other.alt && self.meta
            == other.meta && self.key == other.key
    }

    /// Whether the binding may be registered: at least one modifier is set.
    #[verifier::when_used_as_spec(spec_is_valid)]
    pub fn is_valid(&self) -> (r: bool)
        ensures
            r == self.spec_is_valid(),
    {
        self.ctrl || self.shift || self.alt || self.meta
    }

    pub open spec fn spec_is_valid(&self) -> bool {
        self.ctrl || self.shift || self.alt || self.meta
    }

    pub fn display(&self, platform: Platform) -> (r: String)
        ensures
            r@ == self.label(platform),
    {
        let mut shown = String::new();
        append_modifier(&mut shown, self.ctrl, "Ctrl");
        append_modifier(&mut shown, self.shift, "Shift");
        append_modifier(&mut shown, self.alt, "Alt");
        match platform {
            Platform::MacOs => append_modifier(&mut shown, self.meta, "Cmd"),
            _ => append_modifier(&mut shown, self.meta, "Win"),
        }
        shown.append(self.key.display());
        assert(shown@ =~= self.label(platform));
        shown
    }

    /// The hotkey to register for this binding: its key, its modifiers and
    /// the id under which its events arrive. One is built for every binding,
    /// valid or not.
    pub fn to_global_hotkey(&self) -> (r: Option<HotKey>)
        ensures
            r matches Some(hotkey) && hotkey.key == self.key.code() && modifier_bits(hotkey.mods)
                == hotkey_flags(self.ctrl, self.shift, self.alt, self.meta) && hotkey.id
                == hotkey_id(self.ctrl, self.shift, self.alt, self.meta, self.key.code()),
    {
        Some(new_hotkey(self.ctrl, self.shift, self.alt, self.meta, self.key.to_code()))
    }
}

} // verus!
