use vnox_ui::events::NetCommand;
use vnox_ui::guild_admin::{
    channel_delete_command, kick_commands, member_actions, member_count_label,
    member_refresh_commands, offers_channel_delete, role_assign_command,
};
use vnox_ui::models::{GuildMemberInfo, GuildRoleInfo, GuildState};
use vnox_ui::types::UiState;

fn s(x: &str) -> String {
    x.to_string()
}

fn member(owner: bool) -> GuildMemberInfo {
    GuildMemberInfo {
        user_id: s("u1"),
        nickname: s("ann"),
        role_name: s("member"),
        role_color: s("#aabbcc"),
        is_owner: owner,
    }
}

fn role() -> GuildRoleInfo {
    GuildRoleInfo { id: s("r1"), name: s("mod"), color: s("#ff0000") }
}

#[test]
fn owners_cannot_be_kicked_or_given_roles() {
    assert_eq!(member_actions(&member(true), &vec![role()]), (false, false));
    assert_eq!(member_actions(&member(false), &vec![role()]), (true, true));
    assert_eq!(member_actions(&member(false), &vec![]), (true, false));
}

#[test]
fn kick_sends_the_kick_before_the_refresh() {
    let c = kick_commands(&s("g"), &s("u1"));
    assert_eq!(c.len(), 2);
    assert!(matches!(&c[0], NetCommand::GuildMemberKick { guild_id, user_id } if guild_id == "g" && user_id == "u1"));
    assert!(matches!(&c[1], NetCommand::GuildMemberListFetch { guild_id } if guild_id == "g"));
}

#[test]
fn role_assignment_and_refresh() {
    let c = role_assign_command(&s("g"), &s("u1"), &s("r1"));
    assert!(matches!(c, NetCommand::GuildRoleAssign { guild_id, user_id, role_id } if guild_id == "g" && user_id == "u1" && role_id == "r1"));
    let c = member_refresh_commands(&s("g"));
    assert_eq!(c.len(), 2);
    assert!(matches!(&c[0], NetCommand::GuildMemberListFetch { guild_id } if guild_id == "g"));
    assert!(matches!(&c[1], NetCommand::GuildRoleListFetch { guild_id } if guild_id == "g"));
}

#[test]
fn member_dialog_opens_for_the_selected_guild() {
    let mut ui = UiState::default();
    assert!(ui.open_member_list().is_empty());
    assert!(!ui.popups.guild_members_open);
    assert!(ui.refresh_member_list().is_empty());
    assert_eq!(ui.member_dialog_guild(), "");
    ui.active_guild_id = Some(s("g"));
    ui.guild_member_list = vec![member(false)];
    ui.guild_role_list = vec![role()];
    let c = ui.open_member_list();
    assert!(ui.popups.guild_members_open);
    assert_eq!(ui.guild_member_list_guild_id.as_deref(), Some("g"));
    assert!(ui.guild_member_list.is_empty());
    assert!(ui.guild_role_list.is_empty());
    assert_eq!(c.len(), 2);
    assert_eq!(ui.refresh_member_list().len(), 2);
    assert_eq!(ui.member_dialog_guild(), "g");
    ui.close_member_list();
    assert!(!ui.popups.guild_members_open);
}

#[test]
fn audit_log_opens_empty_and_fetches_fifty() {
    let mut ui = UiState::default();
    assert!(ui.open_audit_log().is_none());
    assert!(!ui.popups.audit_log_open);
    ui.active_guild_id = Some(s("g"));
    let c = ui.open_audit_log();
    assert!(ui.popups.audit_log_open);
    assert_eq!(ui.audit_log_guild_id.as_deref(), Some("g"));
    assert!(matches!(c, Some(NetCommand::GuildAuditLogFetch { guild_id, limit }) if guild_id == "g" && limit == 50));
}

#[test]
fn leaving_a_listed_guild() {
    let mut ui = UiState::default();
    ui.active_guild_id = Some(s("g"));
    assert!(ui.leave_guild().is_none());
    assert_eq!(ui.active_guild_id.as_deref(), Some("g"));
    ui.guilds = vec![GuildState { guild_id: s("g"), name: s("G"), owner_id: s("o"), member_count: 3 }];
    let c = ui.leave_guild();
    assert!(ui.active_guild_id.is_none());
    assert!(matches!(c, Some(NetCommand::GuildLeave { guild_id }) if guild_id == "g"));
}

#[test]
fn labels_and_channel_delete() {
    assert_eq!(member_count_label(0), "0 members");
    assert_eq!(member_count_label(12), "12 members");
    assert!(matches!(channel_delete_command(&s("dev")), NetCommand::ChannelDelete { channel_id } if channel_id == "dev"));
}

#[test]
fn built_in_channels_cannot_be_deleted() {
    for name in ["general", "dev-talk", "plugins", "lobby", "gaming"] {
        assert!(!offers_channel_delete(name));
    }
    assert!(offers_channel_delete("my-room"));
    assert!(offers_channel_delete("voice"));
}
