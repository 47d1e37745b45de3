use copy_type::hotkey_config::{HotkeyConfig, KeyCode};
use copy_type::platform::Platform;
use global_hotkey::hotkey::{Code, HotKey, Modifiers};

fn binding(ctrl: bool, shift: bool, alt: bool, meta: bool, key: KeyCode) -> HotkeyConfig {
    HotkeyConfig { ctrl, shift, alt, meta, key }
}

#[test]
fn all_keys_in_order() {
    let keys = KeyCode::all();
    assert_eq!(keys.len(), 52);
    assert_eq!(keys[0], KeyCode::A);
    assert_eq!(keys[25], KeyCode::Z);
    assert_eq!(keys[26], KeyCode::F1);
    assert_eq!(keys[37], KeyCode::F12);
    assert_eq!(keys[38], KeyCode::Key0);
    assert_eq!(keys[47], KeyCode::Key9);
    assert_eq!(keys[48], KeyCode::Space);
    assert_eq!(keys[49], KeyCode::Enter);
    assert_eq!(keys[50], KeyCode::Tab);
    assert_eq!(keys[51], KeyCode::Backquote);
    for (i, a) in keys.iter().enumerate() {
        for (j, b) in keys.iter().enumerate() {
            assert_eq!(a == b, i == j);
        }
    }
}

#[test]
fn key_labels() {
    assert_eq!(KeyCode::A.display(), "A");
    assert_eq!(KeyCode::Z.display(), "Z");
    assert_eq!(KeyCode::F1.display(), "F1");
    assert_eq!(KeyCode::F12.display(), "F12");
    assert_eq!(KeyCode::Key0.display(), "0");
    assert_eq!(KeyCode::Key9.display(), "9");
    assert_eq!(KeyCode::Space.display(), "Space");
    assert_eq!(KeyCode::Enter.display(), "Enter");
    assert_eq!(KeyCode::Tab.display(), "Tab");
    assert_eq!(KeyCode::Backquote.display(), "`");
    assert_eq!(KeyCode::default(), KeyCode::V);
}

#[test]
fn key_codes() {
    assert_eq!(KeyCode::A.to_code(), Code::KeyA);
    assert_eq!(KeyCode::V.to_code(), Code::KeyV);
    assert_eq!(KeyCode::Z.to_code(), Code::KeyZ);
    assert_eq!(KeyCode::F1.to_code(), Code::F1);
    assert_eq!(KeyCode::F12.to_code(), Code::F12);
    assert_eq!(KeyCode::Key0.to_code(), Code::Digit0);
    assert_eq!(KeyCode::Key9.to_code(), Code::Digit9);
    assert_eq!(KeyCode::Space.to_code(), Code::Space);
    assert_eq!(KeyCode::Enter.to_code(), Code::Enter);
    assert_eq!(KeyCode::Tab.to_code(), Code::Tab);
    assert_eq!(KeyCode::Backquote.to_code(), Code::Backquote);
}

#[test]
fn every_key_has_its_own_code() {
    let keys = KeyCode::all();
    for (i, a) in keys.iter().enumerate() {
        for (j, b) in keys.iter().enumerate() {
            assert_eq!(a.to_code() == b.to_code(), i == j);
        }
    }
}

#[test]
fn letter_codes_follow_labels() {
    for key in KeyCode::all() {
        let label = key.display();
        let code = format!("{:?}", key.to_code());
        if label.len() == 1 && label.chars().all(|c| c.is_ascii_uppercase()) {
            assert_eq!(code, format!("Key{}", label));
        } else if label.len() == 1 && label.chars().all(|c| c.is_ascii_digit()) {
            assert_eq!(code, format!("Digit{}", label));
        } else if label == "`" {
            assert_eq!(code, "Backquote");
        } else {
            assert_eq!(code, label);
        }
    }
}

#[test]
fn default_binding() {
    let hotkey = HotkeyConfig::default();
    assert!(hotkey.ctrl);
    assert!(hotkey.shift);
    assert!(!hotkey.alt);
    assert!(!hotkey.meta);
    assert_eq!(hotkey.key, KeyCode::V);
}

#[test]
fn binding_needs_a_modifier() {
    assert!(!binding(false, false, false, false, KeyCode::V).is_valid());
    assert!(binding(true, false, false, false, KeyCode::V).is_valid());
    assert!(binding(false, true, false, false, KeyCode::V).is_valid());
    assert!(binding(false, false, true, false, KeyCode::V).is_valid());
    assert!(binding(false, false, false, true, KeyCode::V).is_valid());
    assert!(HotkeyConfig::default().is_valid());
}

#[test]
fn same_bindings_conflict() {
    let a = binding(true, true, false, false, KeyCode::V);
    assert!(a.conflicts_with(&HotkeyConfig::default()));
    assert!(a.conflicts_with(&a));
    assert!(!a.conflicts_with(&binding(true, true, false, false, KeyCode::C)));
    assert!(!a.conflicts_with(&binding(false, true, false, false, KeyCode::V)));
    assert!(!a.conflicts_with(&binding(true, false, false, false, KeyCode::V)));
    assert!(!a.conflicts_with(&binding(true, true, true, false, KeyCode::V)));
    assert!(!a.conflicts_with(&binding(true, true, false, true, KeyCode::V)));
}

#[test]
fn binding_labels() {
    assert_eq!(HotkeyConfig::default().display(Platform::Linux), "Ctrl + Shift + V");
    assert_eq!(
        binding(true, true, true, true, KeyCode::F5).display(Platform::Windows),
        "Ctrl + Shift + Alt + Win + F5"
    );
    assert_eq!(
        binding(true, true, true, true, KeyCode::F5).display(Platform::MacOs),
        "Ctrl + Shift + Alt + Cmd + F5"
    );
    assert_eq!(binding(false, false, false, true, KeyCode::Key7).display(Platform::Linux), "Win + 7");
    assert_eq!(binding(false, false, true, false, KeyCode::Backquote).display(Platform::MacOs), "Alt + `");
    assert_eq!(binding(false, false, false, false, KeyCode::Space).display(Platform::Linux), "Space");
}

#[test]
fn global_hotkey_of_default_binding() {
    let hotkey = HotkeyConfig::default().to_global_hotkey().unwrap();
    let expected = HotKey::new(Some(Modifiers::CONTROL | Modifiers::SHIFT), Code::KeyV);
    assert_eq!(hotkey, expected);
    assert_eq!(hotkey.key, Code::KeyV);
    assert_eq!(hotkey.mods, Modifiers::CONTROL | Modifiers::SHIFT);
    assert_eq!(hotkey.id(), expected.id());
}

#[test]
fn global_hotkey_of_each_modifier() {
    let alt = binding(false, false, true, false, KeyCode::Tab).to_global_hotkey().unwrap();
    assert_eq!(alt, HotKey::new(Some(Modifiers::ALT), Code::Tab));
    let meta = binding(false, false, false, true, KeyCode::Key1).to_global_hotkey().unwrap();
    assert_eq!(meta, HotKey::new(Some(Modifiers::META), Code::Digit1));
    assert_eq!(meta.mods, Modifiers::SUPER);
    let all = binding(true, true, true, true, KeyCode::F12).to_global_hotkey().unwrap();
    assert_eq!(
        all,
        HotKey::new(
            Some(Modifiers::CONTROL | Modifiers::SHIFT | Modifiers::ALT | Modifiers::META),
            Code::F12
        )
    );
}

#[test]
fn global_hotkey_without_modifiers() {
    let bare = binding(false, false, false, false, KeyCode::Enter).to_global_hotkey().unwrap();
    assert_eq!(bare, HotKey::new(None, Code::Enter));
    assert!(bare.mods.is_empty());
}

#[test]
fn different_bindings_have_different_ids() {
    let a = HotkeyConfig::default().to_global_hotkey().unwrap();
    let b = binding(true, true, false, false, KeyCode::C).to_global_hotkey().unwrap();
    let c = binding(true, false, false, false, KeyCode::V).to_global_hotkey().unwrap();
    assert_ne!(a.id(), b.id());
    assert_ne!(a.id(), c.id());
}

#[test]
fn global_hotkey_modifier_flags() {
    for ctrl in [false, true] {
        for shift in [false, true] {
            for alt in [false, true] {
                for meta in [false, true] {
                    let hotkey = binding(ctrl, shift, alt, meta, KeyCode::Q).to_global_hotkey().unwrap();
                    let mut flags = 0u32;
                    if alt {
                        flags += 0x1;
                    }
                    if ctrl {
                        flags += 0x8;
                    }
                    if shift {
                        flags += 0x200;
                    }
                    if meta {
                        flags += 0x2000;
                    }
                    assert_eq!(hotkey.mods.bits(), flags);
                    assert_eq!(hotkey.key, Code::KeyQ);
                    assert_eq!(hotkey.mods.contains(Modifiers::CONTROL), ctrl);
                    assert_eq!(hotkey.mods.contains(Modifiers::SHIFT), shift);
                    assert_eq!(hotkey.mods.contains(Modifiers::ALT), alt);
                    assert_eq!(hotkey.mods.contains(Modifiers::SUPER), meta);
                }
            }
        }
    }
}
