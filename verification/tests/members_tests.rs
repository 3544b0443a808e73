use vnox_ui::members::section_header;
use vnox_ui::types::UiState;

fn s(x: &str) -> String {
    x.to_string()
}

#[test]
fn member_panel_only_for_guild_text_channels() {
    let mut ui = UiState::default();
    ui.seed_default_channels();
    assert!(ui.member_panel_channel().is_none());
    ui.active_channel = Some(s("general"));
    assert!(ui.member_panel_channel().is_none());
    ui.active_guild_id = Some(s("g"));
    assert_eq!(ui.member_panel_channel().unwrap().id, "general");
    ui.active_dm_id = Some(s("d"));
    assert!(ui.member_panel_channel().is_none());
    ui.active_dm_id = None;
    ui.active_channel = Some(s("lobby"));
    assert!(ui.member_panel_channel().is_none());
    ui.active_channel = Some(s("unknown"));
    assert!(ui.member_panel_channel().is_none());
}

#[test]
fn panel_names_sorted_case_insensitively_with_you() {
    let mut ui = UiState::default();
    ui.user_names.insert(s("u9"), s("Zed"));
    let members = vec![s("bob"), s("u9"), s("Alice"), s("carol")];
    assert_eq!(ui.panel_names(&members), vec![s("Alice"), s("bob"), s("carol"), s("you"), s("Zed")]);
}

#[test]
fn panel_names_keep_order_of_equal_keys_and_one_you() {
    let ui = UiState::default();
    let members = vec![s("you"), s("B"), s("b"), s("a")];
    assert_eq!(ui.panel_names(&members), vec![s("a"), s("B"), s("b"), s("you")]);
    assert_eq!(ui.panel_names(&vec![]), vec![s("you")]);
}

#[test]
fn member_panel_section_headers() {
    assert_eq!(section_header(true, 3), "ONLINE \u{2014} 3");
    assert_eq!(section_header(false, 7), "OFFLINE \u{2014} 0");
}
