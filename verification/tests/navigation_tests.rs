use vnox_ui::events::NetCommand;
use vnox_ui::models::{Channel, DmConversation};
use vnox_ui::panels::ChatArea;
use vnox_ui::types::{ConnState, UiState};

fn s(x: &str) -> String {
    x.to_string()
}

fn conv(id: &str, unread: u32) -> DmConversation {
    DmConversation {
        dm_id: s(id),
        other_user_id: s("u"),
        other_nickname: s("n"),
        unread_count: unread,
        e2ee_enabled: false,
        e2ee_peer_public_key: None,
        e2ee_shared_secret: None,
    }
}

#[test]
fn joining_a_channel() {
    let mut ui = UiState::default();
    let cmd = ui.join_channel("dev-talk");
    assert_eq!(ui.active_channel.as_deref(), Some("dev-talk"));
    assert_eq!(ui.server_channel.as_deref(), Some("dev-talk"));
    assert!(matches!(cmd, NetCommand::JoinChannel { channel_id } if channel_id == "dev-talk"));
}

#[test]
fn home_opens_first_conversation() {
    let mut ui = UiState::default();
    ui.active_guild_id = Some(s("g"));
    ui.go_home();
    assert!(ui.active_guild_id.is_none());
    assert!(ui.active_dm_id.is_none());
    ui.dm_conversations = vec![conv("d1", 0), conv("d2", 0)];
    ui.go_home();
    assert_eq!(ui.active_dm_id.as_deref(), Some("d1"));
}

#[test]
fn selecting_a_guild() {
    let mut ui = UiState::default();
    let cmd = ui.select_guild(&s("g7"));
    assert_eq!(ui.active_guild_id.as_deref(), Some("g7"));
    assert!(matches!(cmd, NetCommand::GuildList));
}

#[test]
fn built_in_channels_while_connected() {
    let mut ui = UiState::default();
    ui.ensure_channels();
    assert!(ui.channels.is_empty());
    ui.conn = ConnState::Connected { session_id: s("s"), node_name: s("n") };
    ui.ensure_channels();
    assert_eq!(ui.channels.len(), 5);
    assert_eq!(ui.active_channel.as_deref(), Some("general"));
    let mut ui2 = UiState::default();
    ui2.conn = ConnState::Connected { session_id: s("s"), node_name: s("n") };
    ui2.active_channel = Some(s("lobby"));
    ui2.ensure_channels();
    assert_eq!(ui2.active_channel.as_deref(), Some("lobby"));
}

#[test]
fn opening_a_conversation_marks_it_read() {
    let mut ui = UiState::default();
    ui.conn = ConnState::Connected { session_id: s("s"), node_name: s("n") };
    ui.dm_conversations = vec![conv("d1", 4), conv("d2", 9)];
    let cmd = ui.open_dm(&s("d2"));
    assert_eq!(ui.active_dm_id.as_deref(), Some("d2"));
    assert_eq!(ui.dm_conversations[1].unread_count, 0);
    assert_eq!(ui.dm_conversations[0].unread_count, 4);
    assert!(matches!(cmd, Some(NetCommand::DmReadAck { dm_id }) if dm_id == "d2"));
    let cmd = ui.open_dm(&s("unknown"));
    assert_eq!(ui.active_dm_id.as_deref(), Some("unknown"));
    assert!(matches!(cmd, Some(NetCommand::DmReadAck { .. })));
}

#[test]
fn conversations_do_nothing_while_disconnected() {
    let mut ui = UiState::default();
    ui.dm_conversations = vec![conv("d1", 4)];
    assert!(ui.open_dm(&s("d1")).is_none());
    assert!(ui.active_dm_id.is_none());
    assert_eq!(ui.dm_conversations[0].unread_count, 4);
}

#[test]
fn chat_area_prefers_the_open_conversation() {
    let mut ui = UiState::default();
    assert!(matches!(ui.chat_area(), ChatArea::Friends));
    ui.active_guild_id = Some(s("g"));
    assert!(matches!(ui.chat_area(), ChatArea::PickChannel));
    ui.active_channel = Some(s("nowhere"));
    assert!(matches!(ui.chat_area(), ChatArea::ChannelNotFound));
    ui.channels = vec![
        Channel { id: s("t"), name: s("t"), kind: s("text"), guild_id: None, members: vec![] },
        Channel { id: s("v"), name: s("v"), kind: s("voice"), guild_id: None, members: vec![] },
    ];
    ui.active_channel = Some(s("v"));
    assert!(matches!(ui.chat_area(), ChatArea::Voice(id) if id == "v"));
    ui.active_channel = Some(s("t"));
    assert!(matches!(ui.chat_area(), ChatArea::Text(id) if id == "t"));
    ui.active_dm_id = Some(s("d1"));
    assert!(matches!(ui.chat_area(), ChatArea::Dm(id) if id == "d1"));
    assert!(ui.active_channel.is_none());
}

#[test]
fn starting_a_conversation() {
    let mut ui = UiState::default();
    ui.new_dm_input = Some(s("  friend-id "));
    let cmd = ui.start_new_dm();
    assert!(ui.new_dm_input.is_none());
    assert!(matches!(cmd, NetCommand::DmStart { target_user_id } if target_user_id == "friend-id"));
    let cmd = ui.start_new_dm();
    assert!(matches!(cmd, NetCommand::DmStart { target_user_id } if target_user_id.is_empty()));
}

#[test]
fn voice_key_bindings() {
    let mut ui = UiState::default();
    ui.apply_voice_keys(false, true, false);
    assert!(!ui.mic_enabled);
    assert!(!ui.deafen);
    ui.apply_voice_keys(false, true, true);
    assert!(ui.mic_enabled);
    assert!(ui.deafen);
    ui.apply_voice_keys(true, true, true);
    assert!(ui.mic_enabled);
    assert!(ui.deafen);
}
