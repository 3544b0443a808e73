use vnox_ui::events::NetCommand;
use vnox_ui::models::ChatMessage;
use vnox_ui::strmap::StrMap;
use vnox_ui::types::UiState;
use vnox_ui::view::{delete_command, reaction_chips, row_actions, RowActions};

fn s(x: &str) -> String {
    x.to_string()
}

fn message() -> ChatMessage {
    let mut reactions = StrMap::new();
    reactions.insert(s("👍"), vec![s("me"), s("you")]);
    reactions.insert(s("👀"), vec![s("you")]);
    ChatMessage {
        message_id: s("m1"),
        sender_id: s("me"),
        content: s("hello"),
        timestamp: 0,
        edited: false,
        reactions,
        reply_to: None,
    }
}

#[test]
fn chips_count_and_mark_own_reactions() {
    let chips = reaction_chips(&message(), "me");
    assert_eq!(chips.len(), 2);
    let thumbs = chips.iter().find(|c| c.emoji == "👍").unwrap();
    assert_eq!(thumbs.count, 2);
    assert!(thumbs.reacted);
    assert_eq!(thumbs.label, "👍 2");
    let eyes = chips.iter().find(|c| c.emoji == "👀").unwrap();
    assert_eq!(eyes.count, 1);
    assert!(!eyes.reacted);
    assert_eq!(eyes.label, "👀 1");
}

#[test]
fn edit_and_reply() {
    let mut ui = UiState::default();
    let m = message();
    ui.start_reply(&m);
    ui.start_edit(&m);
    assert!(ui.replying_to_message.is_none());
    assert_eq!(ui.chat_input, "hello");
    assert_eq!(ui.editing_message_id.as_deref(), Some("m1"));
    ui.start_reply(&m);
    assert!(ui.editing_message_id.is_none());
    assert_eq!(ui.replying_to_message.as_deref(), Some("m1"));
    assert_eq!(ui.replying_to_sender, "me");
    assert!(matches!(delete_command(&m, "c"), NetCommand::MessageDelete { channel_id, message_id } if channel_id == "c" && message_id == "m1"));
}

#[test]
fn leaving_voice_selects_a_text_channel() {
    let mut ui = UiState::default();
    ui.leave_voice();
    assert!(ui.active_channel.is_none());
    ui.seed_default_channels();
    ui.active_channel = Some(s("lobby"));
    ui.leave_voice();
    assert_eq!(ui.active_channel.as_deref(), Some("general"));
    ui.active_channel = Some(s("dev-talk"));
    ui.leave_voice();
    assert_eq!(ui.active_channel.as_deref(), Some("general"));
    ui.channels.retain(|c| c.kind == "voice");
    ui.active_channel = Some(s("lobby"));
    ui.leave_voice();
    assert!(ui.active_channel.is_none());
}

#[test]
fn only_own_messages_offer_edit_and_delete() {
    let m = message();
    assert_eq!(row_actions(&m, "me"), RowActions { edit: true, delete: true });
    assert_eq!(row_actions(&m, "someone"), RowActions { edit: false, delete: false });
}

#[test]
fn quick_reaction_records_the_menu() {
    let mut ui = UiState::default();
    let m = message();
    let cmd = ui.context_menu_react(&m, "c", "👍", "me");
    assert_eq!(ui.popups.context_menu_message_id.as_deref(), Some("m1"));
    assert!(matches!(cmd, NetCommand::ReactionRemove { channel_id, message_id, emoji } if channel_id == "c" && message_id == "m1" && emoji == "👍"));
    let cmd = ui.context_menu_react(&m, "c", "🎉", "me");
    assert!(matches!(cmd, NetCommand::ReactionAdd { emoji, .. } if emoji == "🎉"));
}
