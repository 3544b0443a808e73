use vnox_ui::chat_messages::parse_hex_color;
use vnox_ui::models::{bookmark_label_from_address, default_bookmarks, DmConversation, NodeBookmark};
use vnox_ui::types::{ConnState, UiState, VoiceUiState};

fn s(x: &str) -> String {
    x.to_string()
}

#[test]
fn default_state() {
    let ui = UiState::default();
    assert_eq!(ui.conn, ConnState::Disconnected);
    assert_eq!(ui.connect_input, "127.0.0.1:7600");
    assert!(ui.bookmarks.is_empty());
    assert!(ui.channels.is_empty());
    assert_eq!(ui.voice, VoiceUiState::Off);
    assert!(ui.mic_enabled);
    assert!(!ui.deafen);
    assert!(ui.auto_reconnect);
    assert_eq!(ui.packet_interval, 1);
    assert!(default_bookmarks().is_empty());
}

#[test]
fn bookmark_labels() {
    assert_eq!(bookmark_label_from_address("192.168.1.20:7600"), "192.168.1.20");
    assert_eq!(bookmark_label_from_address("a-very-long-hostname.example:1"), "a-very-long-");
    assert_eq!(bookmark_label_from_address(":7600"), ":7600");
    assert_eq!(bookmark_label_from_address("plainhost"), "plainhost");
    assert_eq!(bookmark_label_from_address(""), "");
}

#[test]
fn hex_colors_kept_as_text() {
    assert_eq!(parse_hex_color("#A1b2C3").as_deref(), Some("A1b2C3"));
    assert_eq!(parse_hex_color("###a1b2c3").as_deref(), Some("a1b2c3"));
    assert_eq!(parse_hex_color("+abcde").as_deref(), Some("+abcde"));
    assert_eq!(parse_hex_color("a1b2c"), None);
    assert_eq!(parse_hex_color("a1b2cg"), None);
    assert_eq!(parse_hex_color("-abcde"), None);
    assert_eq!(parse_hex_color("ab+cde"), None);
}

#[test]
fn bookmarks_add_and_remove() {
    let mut ui = UiState::default();
    ui.connect_input = s(" host:1 ");
    assert!(ui.add_bookmark_from_input());
    assert_eq!(ui.bookmarks, vec![NodeBookmark { label: s("host"), address: s("host:1") }]);
    assert_eq!(ui.selected_bookmark, 0);
    assert!(!ui.add_bookmark_from_input());
    ui.connect_input = s("other:2");
    assert!(ui.add_bookmark_from_input());
    assert_eq!(ui.selected_bookmark, 1);
    ui.connect_input = s("   ");
    assert!(!ui.add_bookmark_from_input());
    ui.remove_bookmark(1);
    assert_eq!(ui.bookmarks.len(), 1);
    assert_eq!(ui.selected_bookmark, 0);
    ui.remove_bookmark(5);
    assert_eq!(ui.bookmarks.len(), 1);
    ui.remove_bookmark(0);
    assert!(ui.bookmarks.is_empty());
    assert_eq!(ui.selected_bookmark, 0);
}

#[test]
fn nicknames_fall_back_to_id() {
    let mut ui = UiState::default();
    ui.user_names.insert(s("u1"), s("ann"));
    assert_eq!(ui.nick_for("u1"), "ann");
    assert_eq!(ui.nick_for("u2"), "u2");
}

#[test]
fn default_channels_only_when_empty() {
    let mut ui = UiState::default();
    ui.seed_default_channels();
    let ids: Vec<&str> = ui.channels.iter().map(|c| c.id.as_str()).collect();
    assert_eq!(ids, vec!["general", "dev-talk", "plugins", "lobby", "gaming"]);
    assert_eq!(ui.channels[3].kind, "voice");
    ui.channels.truncate(1);
    ui.seed_default_channels();
    assert_eq!(ui.channels.len(), 1);
}

fn conv(id: &str) -> DmConversation {
    DmConversation {
        dm_id: s(id),
        other_user_id: s("peer"),
        other_nickname: s("peer"),
        unread_count: 0,
        e2ee_enabled: false,
        e2ee_peer_public_key: None,
        e2ee_shared_secret: None,
    }
}

#[test]
fn e2ee_state() {
    let mut ui = UiState::default();
    ui.dm_conversations = vec![conv("d1"), conv("d2")];
    assert_eq!(ui.dm_shared_secret(&s("d2")), None);
    ui.apply_e2ee_key_exchange(s("d2"), vec![1, 2, 3], [7u8; 32]);
    assert!(ui.dm_conversations[1].e2ee_enabled);
    assert_eq!(ui.dm_conversations[1].e2ee_peer_public_key, Some(vec![1, 2, 3]));
    assert_eq!(ui.dm_shared_secret(&s("d2")), Some([7u8; 32]));
    assert!(!ui.dm_conversations[0].e2ee_enabled);
    ui.apply_e2ee_ack(s("d1"));
    assert!(ui.dm_conversations[0].e2ee_enabled);
    assert_eq!(ui.dm_shared_secret(&s("d1")), None);
    ui.apply_e2ee_ack(s("nope"));
    assert_eq!(ui.dm_conversations.len(), 2);
}

#[test]
fn fresh_message_ids_are_uuid_text() {
    let a = vnox_ui::ids::fresh_message_id();
    let b = vnox_ui::ids::fresh_message_id();
    assert_eq!(a.len(), 36);
    assert_eq!(a.as_bytes()[14], b'4');
    assert_ne!(a, b);
}
