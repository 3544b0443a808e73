use vnox_ui::compose::{connect_to, disconnect, send_chat, send_dm, submit_chat, typing_notice_due};
use vnox_ui::events::{NetCommand, NetEvent};
use vnox_ui::models::{ChatMessage, NodeBookmark};
use vnox_ui::poll::chat_handle;
use vnox_ui::strmap::StrMap;
use vnox_ui::types::{ConnState, UiState};
use vnox_ui::view::{
    avatar_initial, group_starts, reacted, reaction_command, reaction_label, short_user_id,
    unread_badge,
};

fn s(x: &str) -> String {
    x.to_string()
}

fn bookmark(addr: &str) -> NodeBookmark {
    NodeBookmark { label: s(addr), address: s(addr) }
}

#[test]
fn connect_to_selects_bookmark() {
    let mut ui = UiState::default();
    ui.bookmarks = vec![bookmark("a:1"), bookmark("b:2")];
    ui.auto_reconnect = false;
    let cmd = connect_to(&mut ui, "b:2");
    assert_eq!(ui.selected_bookmark, 1);
    assert_eq!(ui.connect_input, "b:2");
    assert_eq!(ui.conn, ConnState::Connecting);
    match cmd {
        Some(NetCommand::Connect { address, auto_reconnect }) => {
            assert_eq!(address, "b:2");
            assert!(!auto_reconnect);
        }
        other => panic!("unexpected {other:?}"),
    }
}

#[test]
fn connect_to_empty_does_nothing() {
    let mut ui = UiState::default();
    assert!(connect_to(&mut ui, "").is_none());
    assert_eq!(ui.conn, ConnState::Disconnected);
    assert_eq!(ui.connect_input, "127.0.0.1:7600");
}

#[test]
fn connect_to_unknown_keeps_selection() {
    let mut ui = UiState::default();
    ui.bookmarks = vec![bookmark("a:1")];
    ui.selected_bookmark = 0;
    connect_to(&mut ui, "c:3");
    assert_eq!(ui.selected_bookmark, 0);
    assert_eq!(ui.connect_input, "c:3");
}

#[test]
fn disconnect_marks_closed() {
    let mut ui = UiState::default();
    ui.conn = ConnState::Connecting;
    assert!(matches!(disconnect(&mut ui), NetCommand::Disconnect));
    assert_eq!(ui.conn, ConnState::Disconnected);
}

#[test]
fn pick_bookmark_connects_when_disconnected() {
    let mut ui = UiState::default();
    ui.bookmarks = vec![bookmark("a:1"), bookmark("b:2")];
    let cmd = ui.pick_bookmark(1);
    assert!(matches!(cmd, Some(NetCommand::Connect { .. })));
    assert_eq!(ui.selected_bookmark, 1);
    assert_eq!(ui.conn, ConnState::Connecting);
    // While connecting, clicks are ignored.
    assert!(ui.pick_bookmark(0).is_none());
    assert_eq!(ui.selected_bookmark, 1);
}

#[test]
fn pick_bookmark_while_connected_only_selects() {
    let mut ui = UiState::default();
    ui.bookmarks = vec![bookmark("a:1"), bookmark("b:2")];
    ui.conn = ConnState::Connected { session_id: s("x"), node_name: s("n") };
    assert!(ui.pick_bookmark(0).is_none());
    assert_eq!(ui.selected_bookmark, 0);
    assert_eq!(ui.connect_input, "a:1");
}

#[test]
fn save_bookmark_from_form() {
    let mut ui = UiState::default();
    assert!(ui.save_bookmark("  example.org:7600 "));
    assert_eq!(ui.bookmarks.len(), 1);
    assert_eq!(ui.bookmarks[0].address, "example.org:7600");
    assert_eq!(ui.bookmarks[0].label, "example.org");
    assert_eq!(ui.connect_input, "");
    assert!(!ui.save_bookmark("example.org:7600"));
    assert_eq!(ui.bookmarks.len(), 1);
    assert!(!ui.save_bookmark("   "));
}

#[test]
fn send_chat_joins_then_sends() {
    let mut ui = UiState::default();
    ui.chat_input = s("  hello world  ");
    let cmds = send_chat(&mut ui, "general", "me", None);
    assert_eq!(ui.chat_input, "");
    assert!(ui.scroll_bottom);
    assert_eq!(ui.server_channel.as_deref(), Some("general"));
    let msgs = ui.messages.get("general").unwrap();
    assert_eq!(msgs.len(), 1);
    assert_eq!(msgs[0].content, "hello world");
    assert_eq!(msgs[0].sender_id, "me");
    assert_eq!(msgs[0].message_id.len(), 36);
    assert!(msgs[0].timestamp > 0);
    assert_eq!(cmds.len(), 2);
    assert!(matches!(&cmds[0], NetCommand::JoinChannel { channel_id } if channel_id == "general"));
    assert!(
        matches!(&cmds[1], NetCommand::SendChat { channel_id, content, reply_to: None } if channel_id == "general" && content == "hello world")
    );
    // Already in the channel: no second join.
    ui.chat_input = s("again");
    let cmds = send_chat(&mut ui, "general", "me", Some(s("m0")));
    assert_eq!(cmds.len(), 1);
    assert!(matches!(&cmds[0], NetCommand::SendChat { reply_to: Some(r), .. } if r == "m0"));
}

#[test]
fn send_chat_blank_does_nothing() {
    let mut ui = UiState::default();
    ui.chat_input = s(" \t ");
    let cmds = send_chat(&mut ui, "general", "me", None);
    assert!(cmds.is_empty());
    assert_eq!(ui.chat_input, " \t ");
    assert!(!ui.messages.contains_key("general"));
}

#[test]
fn send_chat_at_uses_given_id() {
    let mut ui = UiState::default();
    ui.chat_input = s("x");
    ui.send_chat_at("c", "me", None, s("fixed"), 99);
    let m = &ui.messages.get("c").unwrap()[0];
    assert_eq!(m.message_id, "fixed");
    assert_eq!(m.timestamp, 99);
}

#[test]
fn send_dm_appends_and_sends() {
    let mut ui = UiState::default();
    ui.chat_input = s(" hi ");
    let cmd = send_dm(&mut ui, "d1");
    assert!(matches!(cmd, Some(NetCommand::DmSend { dm_id, content }) if dm_id == "d1" && content == "hi"));
    let msgs = ui.dm_messages.get("d1").unwrap();
    assert_eq!(msgs[0].sender_id, "");
    assert_eq!(msgs[0].content, "hi");
    ui.chat_input = s("");
    assert!(send_dm(&mut ui, "d1").is_none());
}

#[test]
fn submit_edits_when_editing() {
    let mut ui = UiState::default();
    ui.editing_message_id = Some(s("m7"));
    ui.chat_input = s(" new text ");
    let cmds = submit_chat(&mut ui, "c", "me");
    assert_eq!(cmds.len(), 1);
    assert!(matches!(&cmds[0], NetCommand::MessageEdit { channel_id, message_id, content } if channel_id == "c" && message_id == "m7" && content == "new text"));
    assert!(ui.editing_message_id.is_none());
    assert_eq!(ui.chat_input, "");
    assert!(!ui.messages.contains_key("c"));
}

#[test]
fn submit_replies_when_replying() {
    let mut ui = UiState::default();
    ui.server_channel = Some(s("c"));
    ui.replying_to_message = Some(s("m1"));
    ui.chat_input = s("answer");
    let cmds = submit_chat(&mut ui, "c", "me");
    assert_eq!(cmds.len(), 1);
    assert!(matches!(&cmds[0], NetCommand::SendChat { reply_to: Some(r), .. } if r == "m1"));
    assert!(ui.replying_to_message.is_none());
    assert_eq!(ui.messages.get("c").unwrap()[0].reply_to.as_deref(), Some("m1"));
}

#[test]
fn input_hints() {
    let mut ui = UiState::default();
    assert_eq!(ui.input_hint("general"), "message in #general");
    ui.replying_to_message = Some(s("m"));
    assert_eq!(ui.input_hint("general"), "write your reply...");
    ui.editing_message_id = Some(s("m"));
    assert_eq!(ui.input_hint("general"), "edit your message...");
}

#[test]
fn typing_notices_are_throttled() {
    assert!(!typing_notice_due("", 10_000));
    assert!(!typing_notice_due("a", 2_999));
    assert!(typing_notice_due("a", 3_000));
}

#[test]
fn typing_notice_labels_and_expiry() {
    let mut ui = UiState::default();
    ui.typing_users.insert(s("c"), vec![(s("ann"), 1_000), (s("bob"), 5_000), (s("cy"), 6_000)]);
    assert_eq!(ui.typing_notice("c", 6_000, 10_000).as_deref(), Some("ann, bob and cy are typing..."));
    assert_eq!(ui.typing_notice("c", 12_000, 10_000).as_deref(), Some("bob and cy are typing..."));
    assert_eq!(ui.typing_users.get("c").unwrap().len(), 2);
    assert_eq!(ui.typing_notice("c", 15_500, 10_000).as_deref(), Some("cy is typing..."));
    assert_eq!(ui.typing_notice("c", 30_000, 10_000), None);
    assert!(!ui.typing_users.contains_key("c"));
    assert_eq!(ui.typing_notice("other", 0, 10), None);
}

#[test]
fn reply_snippets() {
    let mut ui = UiState::default();
    ui.user_names.insert(s("u1"), s("ann"));
    let long: String = "x".repeat(70);
    chat_handle(
        &mut ui,
        NetEvent::ChatMessage {
            message_id: s("m1"),
            channel_id: s("c"),
            sender_id: s("u1"),
            content: long,
            timestamp: 0,
            reply_to: None,
        },
    );
    let expect = format!("\u{2192} ann: {}", "x".repeat(60));
    assert_eq!(ui.reply_snippet("c", "m1"), expect);
    assert_eq!(ui.reply_snippet("c", "gone"), "\u{2192} (deleted message)");
    assert_eq!(ui.reply_snippet("nochannel", "m1"), "\u{2192} (deleted message)");
}

fn message(id: &str, sender: &str) -> ChatMessage {
    ChatMessage {
        message_id: s(id),
        sender_id: s(sender),
        content: s("c"),
        timestamp: 0,
        edited: false,
        reactions: StrMap::new(),
        reply_to: None,
    }
}

#[test]
fn reaction_toggles() {
    let mut m = message("m1", "u");
    m.reactions.insert(s("👍"), vec![s("me")]);
    assert!(reacted(&m, "👍", "me"));
    assert!(!reacted(&m, "👍", "you"));
    assert!(!reacted(&m, "👀", "me"));
    assert!(matches!(reaction_command(&m, "c", "👍", "me"), NetCommand::ReactionRemove { channel_id, message_id, emoji } if channel_id == "c" && message_id == "m1" && emoji == "👍"));
    assert!(matches!(reaction_command(&m, "c", "👀", "me"), NetCommand::ReactionAdd { emoji, .. } if emoji == "👀"));
    assert_eq!(reaction_label("👍", true), "👍 +");
    assert_eq!(reaction_label("👍", false), "👍");
}

#[test]
fn message_groups() {
    let msgs = vec![message("1", "a"), message("2", "a"), message("3", "b"), message("4", "a")];
    assert_eq!(group_starts(&msgs), vec![true, false, true, true]);
    assert!(group_starts(&vec![]).is_empty());
}

#[test]
fn unread_badges() {
    assert_eq!(unread_badge(0), None);
    assert_eq!(unread_badge(7).as_deref(), Some("7"));
    assert_eq!(unread_badge(99).as_deref(), Some("99"));
    assert_eq!(unread_badge(100).as_deref(), Some("99+"));
}

#[test]
fn avatar_initials() {
    assert_eq!(avatar_initial("ann"), "A");
    assert_eq!(avatar_initial(""), "?");
    assert_eq!(avatar_initial("ßig"), "SS");
    assert_eq!(avatar_initial("7x"), "7");
}

#[test]
fn short_ids() {
    assert_eq!(short_user_id("abcdef0123456789"), "abcdef01");
    assert_eq!(short_user_id("abc"), "abc");
    assert_eq!(short_user_id(""), "");
}
