use vnox_ui::events::{ChannelInfo, ChatMsg, MemberInfo, NetCommand, NetEvent};
use vnox_ui::poll::{chat_handle, process_net_event};
use vnox_ui::types::UiState;

fn s(x: &str) -> String {
    x.to_string()
}

fn chat(id: &str, ch: &str, sender: &str, content: &str) -> NetEvent {
    NetEvent::ChatMessage {
        message_id: s(id),
        channel_id: s(ch),
        sender_id: s(sender),
        content: s(content),
        timestamp: 1000,
        reply_to: None,
    }
}

fn is_uuid(x: &str) -> bool {
    x.len() == 36
        && x.chars().enumerate().all(|(i, c)| {
            if i == 8 || i == 13 || i == 18 || i == 23 {
                c == '-'
            } else {
                c.is_ascii_hexdigit() && !c.is_ascii_uppercase()
            }
        })
        && x.as_bytes()[14] == b'4'
}

#[test]
fn channel_state_adds_channel_and_sends_receipt() {
    let mut ui = UiState::default();
    let cmd = chat_handle(
        &mut ui,
        NetEvent::ChannelState {
            channel_id: s("lobby"),
            channel_name: s("Lobby"),
            kind: s("voice"),
            members: vec![MemberInfo { user_id: s("u1"), nickname: s("ann") }],
        },
    );
    assert_eq!(ui.channels.len(), 1);
    assert_eq!(ui.channels[0].id, "lobby");
    assert_eq!(ui.channels[0].name, "Lobby");
    assert_eq!(ui.channels[0].kind, "voice");
    assert_eq!(ui.channels[0].members, vec![s("ann")]);
    assert_eq!(ui.active_channel.as_deref(), Some("lobby"));
    assert_eq!(ui.user_names.get("u1").map(|x| x.as_str()), Some("ann"));
    match cmd {
        Some(NetCommand::ReadReceipt { channel_id, last_read_message_id }) => {
            assert_eq!(channel_id, "lobby");
            assert!(is_uuid(&last_read_message_id));
        }
        other => panic!("unexpected {other:?}"),
    }
}

#[test]
fn channel_state_updates_members_of_known_channel() {
    let mut ui = UiState::default();
    ui.seed_default_channels();
    ui.active_channel = Some(s("general"));
    chat_handle(
        &mut ui,
        NetEvent::ChannelState {
            channel_id: s("general"),
            channel_name: s("ignored"),
            kind: s("text"),
            members: vec![
                MemberInfo { user_id: s("a"), nickname: s("A") },
                MemberInfo { user_id: s("b"), nickname: s("B") },
            ],
        },
    );
    assert_eq!(ui.channels.len(), 5);
    assert_eq!(ui.channels[0].name, "general");
    assert_eq!(ui.channels[0].members, vec![s("A"), s("B")]);
    assert_eq!(ui.active_channel.as_deref(), Some("general"));
}

#[test]
fn channel_created_twice_is_listed_once() {
    let mut ui = UiState::default();
    let ev = || NetEvent::ChannelCreated { channel_id: s("c9"), channel_name: s("nine"), kind: s("text") };
    assert!(chat_handle(&mut ui, ev()).is_none());
    assert!(chat_handle(&mut ui, ev()).is_none());
    assert_eq!(ui.channels.len(), 1);
    assert_eq!(ui.channels[0].id, "c9");
    assert!(ui.channels[0].members.is_empty());
}

#[test]
fn channel_deleted_moves_selection_and_drops_messages() {
    let mut ui = UiState::default();
    ui.seed_default_channels();
    ui.active_channel = Some(s("general"));
    chat_handle(&mut ui, chat("m1", "general", "u", "hi"));
    chat_handle(&mut ui, NetEvent::ChannelDeleted { channel_id: s("general") });
    assert_eq!(ui.channels.len(), 4);
    assert!(ui.channels.iter().all(|c| c.id != "general"));
    assert_eq!(ui.active_channel.as_deref(), Some(ui.channels[0].id.as_str()));
    assert!(!ui.messages.contains_key("general"));
}

#[test]
fn channel_deleted_last_channel_clears_selection() {
    let mut ui = UiState::default();
    chat_handle(&mut ui, NetEvent::ChannelCreated { channel_id: s("x"), channel_name: s("x"), kind: s("text") });
    ui.active_channel = Some(s("x"));
    chat_handle(&mut ui, NetEvent::ChannelDeleted { channel_id: s("x") });
    assert!(ui.channels.is_empty());
    assert!(ui.active_channel.is_none());
}

#[test]
fn channel_list_keeps_members_of_known_channels() {
    let mut ui = UiState::default();
    chat_handle(
        &mut ui,
        NetEvent::ChannelState {
            channel_id: s("a"),
            channel_name: s("A"),
            kind: s("text"),
            members: vec![MemberInfo { user_id: s("u"), nickname: s("nick") }],
        },
    );
    chat_handle(
        &mut ui,
        NetEvent::ChannelListEvent {
            channels: vec![
                ChannelInfo { channel_id: s("b"), channel_name: s("B"), kind: s("voice") },
                ChannelInfo { channel_id: s("a"), channel_name: s("A2"), kind: s("text") },
            ],
        },
    );
    assert_eq!(ui.channels.len(), 2);
    assert_eq!(ui.channels[0].id, "b");
    assert!(ui.channels[0].members.is_empty());
    assert_eq!(ui.channels[1].name, "A2");
    assert_eq!(ui.channels[1].members, vec![s("nick")]);
}

#[test]
fn chat_message_appends_and_scrolls() {
    let mut ui = UiState::default();
    chat_handle(&mut ui, chat("m1", "general", "u", "hello"));
    chat_handle(&mut ui, chat("m2", "general", "v", "there"));
    let msgs = ui.messages.get("general").unwrap();
    assert_eq!(msgs.len(), 2);
    assert_eq!(msgs[0].content, "hello");
    assert_eq!(msgs[1].message_id, "m2");
    assert!(!msgs[1].edited);
    assert!(ui.scroll_bottom);
}

#[test]
fn chat_history_replaces_messages() {
    let mut ui = UiState::default();
    chat_handle(&mut ui, chat("m1", "general", "u", "old"));
    chat_handle(
        &mut ui,
        NetEvent::ChatHistory {
            channel_id: s("general"),
            messages: vec![ChatMsg {
                message_id: s("h1"),
                sender_id: s("u"),
                content: s("from history"),
                timestamp: 5,
                reply_to: Some(s("h0")),
            }],
        },
    );
    let msgs = ui.messages.get("general").unwrap();
    assert_eq!(msgs.len(), 1);
    assert_eq!(msgs[0].content, "from history");
    assert_eq!(msgs[0].reply_to.as_deref(), Some("h0"));
}

#[test]
fn user_join_and_leave() {
    let mut ui = UiState::default();
    chat_handle(&mut ui, NetEvent::ChannelCreated { channel_id: s("c"), channel_name: s("c"), kind: s("text") });
    chat_handle(&mut ui, NetEvent::UserJoin { channel_id: s("c"), user_id: s("u1"), nickname: s("ann") });
    chat_handle(&mut ui, NetEvent::UserJoin { channel_id: s("c"), user_id: s("u1"), nickname: s("ann") });
    assert_eq!(ui.channels[0].members, vec![s("ann")]);
    chat_handle(&mut ui, NetEvent::UserLeave { channel_id: s("c"), user_id: s("u1") });
    assert!(ui.channels[0].members.is_empty());
}

#[test]
fn error_sets_status() {
    let mut ui = UiState::default();
    chat_handle(&mut ui, NetEvent::Error { message: s("bad thing") });
    assert_eq!(ui.status_msg.as_deref(), Some("error: bad thing"));
}

#[test]
fn reactions_add_and_remove() {
    let mut ui = UiState::default();
    chat_handle(&mut ui, chat("m1", "c", "u", "x"));
    let add = |who: &str| NetEvent::ReactionAdded {
        channel_id: s("c"),
        message_id: s("m1"),
        user_id: s(who),
        emoji: s("👍"),
    };
    let remove = |who: &str| NetEvent::ReactionRemoved {
        channel_id: s("c"),
        message_id: s("m1"),
        user_id: s(who),
        emoji: s("👍"),
    };
    chat_handle(&mut ui, add("a"));
    chat_handle(&mut ui, add("b"));
    {
        let m = &ui.messages.get("c").unwrap()[0];
        assert_eq!(m.reactions.get("👍").unwrap(), &vec![s("a"), s("b")]);
    }
    chat_handle(&mut ui, remove("a"));
    {
        let m = &ui.messages.get("c").unwrap()[0];
        assert_eq!(m.reactions.get("👍").unwrap(), &vec![s("b")]);
    }
    chat_handle(&mut ui, remove("b"));
    let m = &ui.messages.get("c").unwrap()[0];
    assert!(m.reactions.get("👍").is_none());
    assert_eq!(m.reactions.len(), 0);
}

#[test]
fn reaction_on_unknown_message_is_ignored() {
    let mut ui = UiState::default();
    chat_handle(&mut ui, chat("m1", "c", "u", "x"));
    chat_handle(
        &mut ui,
        NetEvent::ReactionAdded { channel_id: s("c"), message_id: s("nope"), user_id: s("a"), emoji: s("e") },
    );
    assert_eq!(ui.messages.get("c").unwrap()[0].reactions.len(), 0);
}

#[test]
fn message_edited_and_deleted() {
    let mut ui = UiState::default();
    chat_handle(&mut ui, chat("m1", "c", "u", "first"));
    chat_handle(&mut ui, chat("m2", "c", "u", "second"));
    chat_handle(
        &mut ui,
        NetEvent::MessageEdited { channel_id: s("c"), message_id: s("m1"), content: s("changed") },
    );
    {
        let msgs = ui.messages.get("c").unwrap();
        assert_eq!(msgs[0].content, "changed");
        assert!(msgs[0].edited);
        assert!(!msgs[1].edited);
    }
    chat_handle(&mut ui, NetEvent::MessageDeleted { channel_id: s("c"), message_id: s("m1") });
    let msgs = ui.messages.get("c").unwrap();
    assert_eq!(msgs.len(), 1);
    assert_eq!(msgs[0].message_id, "m2");
}

#[test]
fn dm_start_message_and_unread() {
    let mut ui = UiState::default();
    chat_handle(
        &mut ui,
        NetEvent::DmStart {
            dm_id: s("d1"),
            other_user_id: s("u2"),
            other_nickname: s("bob"),
            messages: vec![],
            unread_count: 2,
        },
    );
    assert_eq!(ui.dm_conversations.len(), 1);
    assert_eq!(ui.dm_conversations[0].other_nickname, "bob");
    assert_eq!(ui.dm_conversations[0].unread_count, 2);
    // Starting a conversation opens it.
    assert_eq!(ui.active_dm_id.as_deref(), Some("d1"));
    ui.active_dm_id = None;
    chat_handle(
        &mut ui,
        NetEvent::DmMessage { dm_id: s("d1"), sender_id: s("u2"), content: s("yo"), timestamp: 7 },
    );
    assert_eq!(ui.dm_conversations[0].unread_count, 3);
    let msgs = ui.dm_messages.get("d1").unwrap();
    assert_eq!(msgs.len(), 1);
    assert_eq!(msgs[0].content, "yo");
    assert!(is_uuid(&msgs[0].message_id));
    // With the conversation open, no unread count is added.
    ui.active_dm_id = Some(s("d1"));
    chat_handle(
        &mut ui,
        NetEvent::DmMessage { dm_id: s("d1"), sender_id: s("u2"), content: s("again"), timestamp: 8 },
    );
    assert_eq!(ui.dm_conversations[0].unread_count, 3);
    assert_eq!(ui.dm_messages.get("d1").unwrap().len(), 2);
}

#[test]
fn dm_history_replaces() {
    let mut ui = UiState::default();
    chat_handle(
        &mut ui,
        NetEvent::DmHistory {
            dm_id: s("d"),
            messages: vec![ChatMsg {
                message_id: s("1"),
                sender_id: s("x"),
                content: s("c"),
                timestamp: 1,
                reply_to: None,
            }],
        },
    );
    assert_eq!(ui.dm_messages.get("d").unwrap().len(), 1);
}

#[test]
fn read_receipts_and_colors() {
    let mut ui = UiState::default();
    chat_handle(
        &mut ui,
        NetEvent::ReadReceiptBroadcast { channel_id: s("c"), user_id: s("u"), last_read_message_id: s("m5") },
    );
    assert_eq!(ui.read_receipts.get("c").unwrap().get("u").map(|x| x.as_str()), Some("m5"));
    chat_handle(&mut ui, NetEvent::UserColor { user_id: s("u"), color: s("#a1b2c3") });
    assert_eq!(ui.user_colors.get("u").map(|x| x.as_str()), Some("a1b2c3"));
    chat_handle(&mut ui, NetEvent::UserColor { user_id: s("u"), color: s("#zzz") });
    assert_eq!(ui.user_colors.get("u").map(|x| x.as_str()), Some("a1b2c3"));
}

#[test]
fn other_groups_leave_chat_state_alone() {
    let mut ui = UiState::default();
    let cmd = chat_handle(&mut ui, NetEvent::LatencyUpdate { rtt_ms: 5 });
    assert!(cmd.is_none());
    assert!(ui.rtt_ms.is_none());
}

#[test]
fn process_net_event_routes_by_group() {
    let mut ui = UiState::default();
    process_net_event(&mut ui, NetEvent::LatencyUpdate { rtt_ms: 42 });
    assert_eq!(ui.rtt_ms, Some(42));
    process_net_event(&mut ui, NetEvent::BlockedUser { user_id: s("x") });
    assert_eq!(ui.blocked_users, vec![s("x")]);
    process_net_event(&mut ui, chat("m", "c", "u", "t"));
    assert_eq!(ui.messages.get("c").unwrap().len(), 1);
    // Session events are left to the caller.
    let cmd = process_net_event(
        &mut ui,
        NetEvent::Disconnected { reason: s("x"), will_retry: false },
    );
    assert!(cmd.is_none());
    assert!(ui.status_msg.is_none());
}
