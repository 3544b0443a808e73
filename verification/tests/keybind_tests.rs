use vnox_ui::forms::Mods;
use vnox_ui::keybind::{
    captured_binding, captured_mouse_binding, combo_mods_match, hold_input, mods_at_least, normalize_binding,
    press_rule, HoldInput, MouseButton, PressRule,
};

fn mods(ctrl: bool, shift: bool, alt: bool) -> Mods {
    Mods { ctrl, shift, alt }
}

#[test]
fn hold_inputs() {
    assert_eq!(normalize_binding("  Ctrl+M "), "ctrl+m");
    assert_eq!(hold_input(" MB4"), HoldInput::Button(MouseButton::Extra1));
    assert_eq!(hold_input("x2"), HoldInput::Button(MouseButton::Extra2));
    assert_eq!(hold_input("LMB"), HoldInput::Button(MouseButton::Primary));
    assert_eq!(hold_input("mouse2"), HoldInput::Button(MouseButton::Secondary));
    assert_eq!(hold_input("mmb"), HoldInput::Button(MouseButton::Middle));
    assert_eq!(hold_input("Space"), HoldInput::Space);
    assert_eq!(hold_input("ctrl+v"), HoldInput::Combo);
}

#[test]
fn press_rules() {
    assert_eq!(press_rule("mouse4"), PressRule::Button(MouseButton::Extra1));
    assert_eq!(press_rule("MB5"), PressRule::Button(MouseButton::Extra2));
    assert_eq!(
        press_rule("Ctrl+M"),
        PressRule::AtLeast { mods: mods(true, false, false), key: "m".to_string() }
    );
    assert_eq!(
        press_rule("ctrl+shift+o"),
        PressRule::AtLeast { mods: mods(true, true, false), key: "o".to_string() }
    );
    assert_eq!(press_rule("space"), PressRule::Combo);
    assert_eq!(press_rule("alt+k"), PressRule::Combo);
}

#[test]
fn modifier_matching() {
    assert!(combo_mods_match(mods(true, false, false), mods(true, false, false)));
    assert!(!combo_mods_match(mods(true, false, false), mods(true, true, false)));
    assert!(mods_at_least(mods(true, false, false), mods(true, true, false)));
    assert!(!mods_at_least(mods(true, true, false), mods(true, false, false)));
}

#[test]
fn capturing_mouse_buttons() {
    assert_eq!(captured_mouse_binding(true, true, true).as_deref(), Some("mouse4"));
    assert_eq!(captured_mouse_binding(false, true, true).as_deref(), Some("mouse5"));
    assert_eq!(captured_mouse_binding(false, false, true).as_deref(), Some("mouse3"));
    assert!(captured_mouse_binding(false, false, false).is_none());
}

#[test]
fn capturing_keys_before_buttons() {
    assert_eq!(captured_binding(mods(true, true, false), Some("k"), true, false, false).as_deref(), Some("ctrl+shift+k"));
    assert_eq!(captured_binding(mods(false, false, false), None, false, true, true).as_deref(), Some("mouse5"));
    assert!(captured_binding(mods(true, false, false), None, false, false, false).is_none());
    // A captured combination reads back as its own modifiers and key.
    let b = captured_binding(mods(true, false, true), Some("f5"), false, false, false).unwrap();
    assert_eq!(press_rule(&b), PressRule::Combo);
    assert_eq!(vnox_ui::forms::split_combo(&b), (mods(true, false, true), "f5".to_string()));
    let b = captured_binding(mods(true, false, false), Some("m"), false, false, false).unwrap();
    assert_eq!(press_rule(&b), PressRule::AtLeast { mods: mods(true, false, false), key: "m".to_string() });
}
