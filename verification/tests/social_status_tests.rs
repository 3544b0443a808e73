use vnox_ui::events::{FriendInfo, GuildInfo, NetEvent};
use vnox_ui::models::{AuditLogEntry, GuildMemberInfo, GuildRoleInfo, PresenceInfo};
use vnox_ui::poll::{social_handle, status_handle};
use vnox_ui::types::UiState;

fn s(x: &str) -> String {
    x.to_string()
}

fn guild(id: &str, count: u32) -> GuildInfo {
    GuildInfo { guild_id: s(id), name: s(id), owner_id: s("o"), member_count: count }
}

#[test]
fn guild_list_and_membership_counts() {
    let mut ui = UiState::default();
    social_handle(&mut ui, NetEvent::GuildList { guilds: vec![guild("g1", 3), guild("g2", 0)] });
    assert_eq!(ui.guilds.len(), 2);
    assert_eq!(ui.guilds[0].member_count, 3);
    social_handle(&mut ui, NetEvent::GuildMemberJoined { guild_id: s("g1"), user_id: s("u"), nickname: s("n") });
    assert_eq!(ui.guilds[0].member_count, 4);
    social_handle(&mut ui, NetEvent::GuildMemberLeft { guild_id: s("g1"), user_id: s("u") });
    assert_eq!(ui.guilds[0].member_count, 3);
    social_handle(&mut ui, NetEvent::GuildMemberKicked { guild_id: s("g1"), user_id: s("u") });
    assert_eq!(ui.guilds[0].member_count, 2);
    // The count never goes below zero.
    social_handle(&mut ui, NetEvent::GuildMemberLeft { guild_id: s("g2"), user_id: s("u") });
    assert_eq!(ui.guilds[1].member_count, 0);
    // Unknown guilds are ignored.
    social_handle(&mut ui, NetEvent::GuildMemberJoined { guild_id: s("zz"), user_id: s("u"), nickname: s("n") });
    assert_eq!(ui.guilds.len(), 2);
}

#[test]
fn member_count_wraps_at_max() {
    let mut ui = UiState::default();
    social_handle(&mut ui, NetEvent::GuildList { guilds: vec![guild("g", u32::MAX)] });
    social_handle(&mut ui, NetEvent::GuildMemberJoined { guild_id: s("g"), user_id: s("u"), nickname: s("n") });
    assert_eq!(ui.guilds[0].member_count, 0);
}

#[test]
fn guild_created_deleted_and_invite() {
    let mut ui = UiState::default();
    social_handle(&mut ui, NetEvent::GuildCreated { guild_id: s("g"), name: s("G"), owner_id: s("me") });
    assert_eq!(ui.guilds.len(), 1);
    assert_eq!(ui.guilds[0].member_count, 1);
    assert_eq!(ui.active_guild_id.as_deref(), Some("g"));
    social_handle(&mut ui, NetEvent::InviteAccepted { guild_id: s("h"), guild_name: s("H") });
    assert_eq!(ui.guilds.len(), 2);
    assert_eq!(ui.guilds[1].name, "H");
    social_handle(&mut ui, NetEvent::GuildDeleted { guild_id: s("g") });
    assert_eq!(ui.guilds.len(), 1);
    assert_eq!(ui.guilds[0].guild_id, "h");
    assert!(ui.active_guild_id.is_none());
    // Invites and roles created or deleted change nothing here.
    social_handle(&mut ui, NetEvent::InviteCreated { guild_id: s("h"), code: s("c") });
    social_handle(&mut ui, NetEvent::RoleCreated { guild_id: s("h"), role_id: s("r") });
    assert_eq!(ui.guilds.len(), 1);
}

#[test]
fn audit_member_and_role_lists() {
    let mut ui = UiState::default();
    social_handle(
        &mut ui,
        NetEvent::GuildAuditLog {
            guild_id: s("g"),
            entries: vec![AuditLogEntry {
                action: s("member_kick"),
                actor_id: s("a"),
                target_id: Some(s("b")),
                reason: None,
                created_at: 5,
            }],
        },
    );
    assert_eq!(ui.audit_log_guild_id.as_deref(), Some("g"));
    assert_eq!(ui.audit_log_entries.len(), 1);
    social_handle(
        &mut ui,
        NetEvent::GuildMemberList {
            guild_id: s("g"),
            members: vec![GuildMemberInfo {
                user_id: s("u"),
                nickname: s("n"),
                role_name: s("r"),
                role_color: s("#fff000"),
                is_owner: true,
            }],
        },
    );
    assert_eq!(ui.guild_member_list_guild_id.as_deref(), Some("g"));
    assert_eq!(ui.guild_member_list[0].nickname, "n");
    social_handle(
        &mut ui,
        NetEvent::GuildRoleList {
            guild_id: s("g"),
            roles: vec![GuildRoleInfo { id: s("r1"), name: s("mod"), color: s("#00ff00") }],
        },
    );
    assert_eq!(ui.guild_role_list_guild_id.as_deref(), Some("g"));
    assert_eq!(ui.guild_role_list[0].name, "mod");
}

#[test]
fn friends_flow() {
    let mut ui = UiState::default();
    social_handle(
        &mut ui,
        NetEvent::FriendList {
            friends: vec![FriendInfo { user_id: s("f1"), nickname: s("one"), status: s("idle"), since: 9 }],
        },
    );
    assert_eq!(ui.friends.len(), 1);
    assert_eq!(ui.friends[0].since, 9);
    social_handle(&mut ui, NetEvent::FriendRequested { user_id: s("f2"), nickname: s("two") });
    assert_eq!(ui.pending_friend_requests.len(), 1);
    social_handle(&mut ui, NetEvent::FriendAccepted { user_id: s("f2"), nickname: s("two") });
    assert!(ui.pending_friend_requests.is_empty());
    assert_eq!(ui.friends.len(), 2);
    assert_eq!(ui.friends[1].user_id, "f2");
    assert_eq!(ui.friends[1].status, "online");
    assert!(ui.friends[1].since > 0);
    // Accepting again does not list the friend twice.
    social_handle(&mut ui, NetEvent::FriendAccepted { user_id: s("f2"), nickname: s("two") });
    assert_eq!(ui.friends.len(), 2);
    social_handle(&mut ui, NetEvent::FriendRemoved { user_id: s("f1") });
    assert_eq!(ui.friends.len(), 1);
    assert_eq!(ui.friends[0].user_id, "f2");
}

#[test]
fn blocking_flow() {
    let mut ui = UiState::default();
    social_handle(&mut ui, NetEvent::BlockList { blocked: vec![s("a")] });
    social_handle(&mut ui, NetEvent::BlockedUser { user_id: s("b") });
    social_handle(&mut ui, NetEvent::BlockedUser { user_id: s("b") });
    assert_eq!(ui.blocked_users, vec![s("a"), s("b")]);
    social_handle(&mut ui, NetEvent::UnblockedUser { user_id: s("a") });
    assert_eq!(ui.blocked_users, vec![s("b")]);
}

#[test]
fn block_then_unblock_restores() {
    let mut ui = UiState::default();
    social_handle(&mut ui, NetEvent::BlockList { blocked: vec![s("a"), s("c")] });
    social_handle(&mut ui, NetEvent::BlockedUser { user_id: s("z") });
    social_handle(&mut ui, NetEvent::UnblockedUser { user_id: s("z") });
    assert_eq!(ui.blocked_users, vec![s("a"), s("c")]);
}

#[test]
fn latency_and_presence() {
    let mut ui = UiState::default();
    status_handle(&mut ui, NetEvent::LatencyUpdate { rtt_ms: 33 });
    assert_eq!(ui.rtt_ms, Some(33));
    status_handle(
        &mut ui,
        NetEvent::PresenceSync {
            presences: vec![
                PresenceInfo {
                    user_id: s("u"),
                    status: s("idle"),
                    custom_status: None,
                    activity: None,
                    activity_text: Some(s("t")),
                },
                PresenceInfo {
                    user_id: s("u"),
                    status: s("dnd"),
                    custom_status: None,
                    activity: None,
                    activity_text: None,
                },
            ],
        },
    );
    assert_eq!(ui.presences.get("u").unwrap().status, "dnd");
    status_handle(
        &mut ui,
        NetEvent::PresenceUpdated {
            user_id: s("u"),
            status: s("online"),
            custom_status: Some(s("busy")),
            activity: Some(s("gaming")),
        },
    );
    let p = ui.presences.get("u").unwrap();
    assert_eq!(p.status, "online");
    assert_eq!(p.custom_status.as_deref(), Some("busy"));
    assert!(p.activity_text.is_none());
}

#[test]
fn typing_start_replaces_entry_by_name() {
    let mut ui = UiState::default();
    status_handle(&mut ui, NetEvent::TypingStart { user_id: s("ann"), nickname: s("ann"), channel_id: s("c") });
    status_handle(&mut ui, NetEvent::TypingStart { user_id: s("bob"), nickname: s("bob"), channel_id: s("c") });
    status_handle(&mut ui, NetEvent::TypingStart { user_id: s("ann"), nickname: s("ann"), channel_id: s("c") });
    let list = ui.typing_users.get("c").unwrap();
    assert_eq!(list.len(), 2);
    assert_eq!(list[0].0, "bob");
    assert_eq!(list[1].0, "ann");
    assert!(list[1].1 > 0);
}
