use vnox_ui::events::NetCommand;
use vnox_ui::requests::{
    block_request, channel_create_request, dm_search_command,
    friend_accept_command, friend_decline_command, friend_remove_command, friend_request,
    guild_create_request, invite_accept_request, presence_update_command, unblock_command,
};
use vnox_ui::types::UiState;

#[test]
fn guild_and_invite_requests() {
    assert!(matches!(guild_create_request("  My Guild "), Some(NetCommand::GuildCreate { name }) if name == "My Guild"));
    assert!(guild_create_request("   ").is_none());
    assert!(matches!(invite_accept_request("abc123\n"), Some(NetCommand::InviteAccept { code }) if code == "abc123"));
    assert!(invite_accept_request("").is_none());
}

#[test]
fn channel_requests_use_name_as_id() {
    let kind = "voice".to_string();
    match channel_create_request(" hangout ", &kind) {
        Some(NetCommand::ChannelCreate { channel_id, channel_name, kind }) => {
            assert_eq!(channel_id, "hangout");
            assert_eq!(channel_name, "hangout");
            assert_eq!(kind, "voice");
        }
        other => panic!("unexpected {other:?}"),
    }
    assert!(channel_create_request("\t", &kind).is_none());
}

#[test]
fn friend_and_block_requests() {
    assert!(matches!(friend_request(" bob "), Some(NetCommand::FriendRequest { target_user_id }) if target_user_id == "bob"));
    assert!(friend_request(" ").is_none());
    assert!(matches!(block_request("spammer "), Some(NetCommand::BlockUser { user_id }) if user_id == "spammer"));
    assert!(block_request("").is_none());
}

#[test]
fn create_channel_dialog() {
    let mut ui = UiState::default();
    ui.popups.create_channel_input = "old".to_string();
    ui.open_create_channel();
    assert!(ui.popups.create_channel_open);
    assert!(ui.popups.create_channel_input.is_empty());
    ui.popups.create_channel_input = "   ".to_string();
    assert!(ui.submit_create_channel().is_none());
    assert!(ui.popups.create_channel_open);
    ui.popups.create_channel_input = " dev-talk ".to_string();
    ui.popups.create_channel_kind = "voice".to_string();
    let c = ui.submit_create_channel();
    assert!(!ui.popups.create_channel_open);
    assert!(ui.channels.is_empty());
    assert!(matches!(c, Some(NetCommand::ChannelCreate { channel_id, channel_name, kind }) if channel_id == "dev-talk" && channel_name == "dev-talk" && kind == "voice"));
    ui.open_create_channel();
    ui.close_create_channel();
    assert!(!ui.popups.create_channel_open);
}

#[test]
fn friend_and_block_commands() {
    let u = "u1".to_string();
    assert!(matches!(friend_accept_command(&u), NetCommand::FriendAccept { user_id } if user_id == "u1"));
    assert!(matches!(friend_decline_command(&u), NetCommand::FriendDecline { user_id } if user_id == "u1"));
    assert!(matches!(friend_remove_command(&u), NetCommand::FriendRemove { user_id } if user_id == "u1"));
    assert!(matches!(unblock_command(&u), NetCommand::UnblockUser { user_id } if user_id == "u1"));
    let mut ui = UiState::default();
    assert!(matches!(ui.show_blocked_tab(), Some(NetCommand::BlockList)));
    assert!(ui.popups.block_list_fetched);
    assert!(ui.show_blocked_tab().is_none());
    assert!(ui.show_blocked_tab().is_none());
}

#[test]
fn search_and_presence_commands() {
    assert!(matches!(dm_search_command(&"d".to_string(), "  hi there "), NetCommand::DmSearch { dm_id, query } if dm_id == "d" && query == "hi there"));
    let c = presence_update_command(None, Some("busy".to_string()), None, None);
    assert!(matches!(c, NetCommand::PresenceUpdate { status, custom_status, activity, activity_text } if status == "online" && custom_status.as_deref() == Some("busy") && activity.is_none() && activity_text.is_none()));
    let c = presence_update_command(Some("idle".to_string()), None, None, None);
    assert!(matches!(c, NetCommand::PresenceUpdate { status, .. } if status == "idle"));
}
