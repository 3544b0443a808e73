use vnox_ui::types::UiState;
use vnox_ui::forms::{
    combo_text, export_mismatch, import_ready, optional_passphrase, passphrase_check,
    removal_confirmed, split_combo, Mods,
};

#[test]
fn passphrase_checks() {
    let c = passphrase_check("", "");
    assert!(!c.mismatch && !c.too_short && !c.can_apply);
    let c = passphrase_check("short", "short");
    assert!(!c.mismatch && c.too_short && !c.can_apply);
    let c = passphrase_check("longenough", "longenougx");
    assert!(c.mismatch && !c.too_short && !c.can_apply);
    let c = passphrase_check("longenough", "longenough");
    assert!(!c.mismatch && !c.too_short && c.can_apply);
    // Eight bytes from four two-byte characters count as long enough.
    let c = passphrase_check("éééé", "éééé");
    assert!(!c.too_short && c.can_apply);
}

#[test]
fn removal_and_export() {
    assert!(removal_confirmed("REMOVE"));
    assert!(!removal_confirmed("remove"));
    assert!(!export_mismatch("", "x"));
    assert!(export_mismatch("a", "b"));
    assert!(!export_mismatch("a", "a"));
    assert_eq!(optional_passphrase(""), None);
    assert_eq!(optional_passphrase("pw").as_deref(), Some("pw"));
}

#[test]
fn import_needs_content() {
    assert!(!import_ready("  \n "));
    assert!(import_ready(" {\"k\":1} "));
}

#[test]
fn combo_parsing() {
    let (m, k) = split_combo("ctrl + shift + m");
    assert_eq!(m, Mods { ctrl: true, shift: true, alt: false });
    assert_eq!(k, "m");
    let (m, k) = split_combo("control+alt+F4");
    assert_eq!(m, Mods { ctrl: true, shift: false, alt: true });
    assert_eq!(k, "F4");
    let (m, k) = split_combo("space");
    assert_eq!(m, Mods { ctrl: false, shift: false, alt: false });
    assert_eq!(k, "space");
    let (m, k) = split_combo("meta+x");
    assert_eq!(m, Mods { ctrl: false, shift: false, alt: false });
    assert_eq!(k, "x");
    let (_, k) = split_combo("ctrl+");
    assert_eq!(k, "");
}

#[test]
fn combo_texts() {
    assert_eq!(combo_text(Mods { ctrl: true, shift: false, alt: true }, "v"), "ctrl+alt+v");
    assert_eq!(combo_text(Mods { ctrl: false, shift: false, alt: false }, "mouse4"), "mouse4");
    let (m, k) = split_combo(&combo_text(Mods { ctrl: true, shift: true, alt: true }, "k"));
    assert_eq!(m, Mods { ctrl: true, shift: true, alt: true });
    assert_eq!(k, "k");
}


#[test]
fn identity_dialogs_open_clean() {
    let mut ui = UiState::default();
    ui.settings_passphrase_input = "x".to_string();
    ui.settings_passphrase_error = Some("old".to_string());
    ui.open_passphrase_dialog();
    assert!(ui.settings_passphrase_open);
    assert_eq!(ui.settings_passphrase_input, "");
    assert!(ui.settings_passphrase_error.is_none());
    ui.settings_export_output = Some("k".to_string());
    ui.open_export_dialog();
    assert!(ui.settings_export_open);
    assert!(ui.settings_export_output.is_none());
    ui.settings_import_input = "data".to_string();
    ui.open_import_dialog();
    assert!(ui.settings_import_open);
    assert_eq!(ui.settings_import_input, "");
}

#[test]
fn identity_dialog_outcomes() {
    let mut ui = UiState::default();
    ui.open_passphrase_dialog();
    ui.settings_passphrase_input = "secretpass".to_string();
    ui.passphrase_saved(Err("disk full".to_string()));
    assert_eq!(ui.settings_passphrase_error.as_deref(), Some("save failed: disk full"));
    assert!(ui.settings_passphrase_open);
    ui.passphrase_saved(Ok(()));
    assert!(!ui.settings_passphrase_open);
    assert_eq!(ui.settings_passphrase_input, "");
    ui.export_finished(Ok("KEYFILE".to_string()));
    assert_eq!(ui.settings_export_output.as_deref(), Some("KEYFILE"));
    ui.export_finished(Err("bad".to_string()));
    assert_eq!(ui.settings_export_error.as_deref(), Some("export failed: bad"));
    ui.import_finished(Err("corrupt".to_string()), Ok(()));
    assert_eq!(ui.settings_import_error.as_deref(), Some("import failed: corrupt"));
    ui.import_finished(Ok(()), Err("denied".to_string()));
    assert_eq!(ui.settings_import_error.as_deref(), Some("save failed: denied"));
    ui.import_finished(Ok(()), Ok(()));
    assert_eq!(
        ui.settings_import_error.as_deref(),
        Some("imported \u{2014} restart VNOX to use the new identity")
    );
}
