//! The guild dialogs and menus: the member list with its kick and role
//! buttons, the audit log, and leaving a guild. Each button's change to the
//! state and the requests it sends.

use vstd::prelude::*;

use crate::events::NetCommand;
use crate::models::{GuildMemberInfo, GuildRoleInfo};
use crate::seqs::first_index;
use crate::social::{find_guild, guild_has_id};
use crate::text::{decimal, push_decimal, push_str};
use crate::types::{Popups, UiState};

verus! {

/// The requests that load a guild's members and then its roles.
pub open spec fn member_refresh_spec(guild_id: String) -> Seq<NetCommand> {
    seq![
        NetCommand::GuildMemberListFetch { guild_id: guild_id },
        NetCommand::GuildRoleListFetch { guild_id: guild_id },
    ]
}

/// The requests of a kick: the kick itself, then a reload of the member list
/// (never the other way round).
pub open spec fn kick_spec(guild_id: String, user_id: String) -> Seq<NetCommand> {
    seq![
        NetCommand::GuildMemberKick { guild_id: guild_id, user_id: user_id },
        NetCommand::GuildMemberListFetch { guild_id: guild_id },
    ]
}

/// How many entries the audit log asks for.
pub const AUDIT_LOG_LIMIT: u32 = 50;

/// Loads the members and the roles of guild `guild_id`.
pub fn member_refresh_commands(guild_id: &String) -> (c: Vec<NetCommand>)
    ensures
        c@ == member_refresh_spec(*guild_id),
{
    let mut c: Vec<NetCommand> = Vec::new();
    c.push(NetCommand::GuildMemberListFetch { guild_id: guild_id.clone() });
    c.push(NetCommand::GuildRoleListFetch { guild_id: guild_id.clone() });
    assert(c@ =~= member_refresh_spec(*guild_id));
    c
}

/// What a member's row offers: the kick button, and the role menu. The owner
/// gets neither; the role menu needs at least one role.
pub fn member_actions(m: &GuildMemberInfo, roles: &Vec<GuildRoleInfo>) -> (r: (bool, bool))
    ensures
        r.0 == !m.is_owner,
        r.1 == (roles@.len() > 0 && !m.is_owner),
{
    (!m.is_owner, roles.len() > 0 && !m.is_owner)
}

/// Kicks `user_id` from guild `guild_id` and then reloads the member list.
pub fn kick_commands(guild_id: &String, user_id: &String) -> (c: Vec<NetCommand>)
    ensures
        c@ == kick_spec(*guild_id, *user_id),
{
    let mut c: Vec<NetCommand> = Vec::new();
    c.push(NetCommand::GuildMemberKick { guild_id: guild_id.clone(), user_id: user_id.clone() });
    c.push(NetCommand::GuildMemberListFetch { guild_id: guild_id.clone() });
    assert(c@ =~= kick_spec(*guild_id, *user_id));
    c
}

/// Gives `user_id` the role `role_id` in guild `guild_id`.
pub fn role_assign_command(guild_id: &String, user_id: &String, role_id: &String) -> (c: NetCommand)
    ensures
        c == (NetCommand::GuildRoleAssign {
            guild_id: *guild_id,
            user_id: *user_id,
            role_id: *role_id,
        }),
{
    NetCommand::GuildRoleAssign {
        guild_id: guild_id.clone(),
        user_id: user_id.clone(),
        role_id: role_id.clone(),
    }
}

/// The count above a member list: "N members".
pub fn member_count_label(count: usize) -> (r: String)
    ensures
        r@ == decimal(count as nat) + " members"@,
{
    let mut s = String::new();
    push_decimal(&mut s, count as u64);
    push_str(&mut s, " members");
    s
}

/// The names of the channels a client starts with (see
/// `are_default_channels`).
pub open spec fn is_default_channel_name(name: Seq<char>) -> bool {
    name == "general"@ || name == "dev-talk"@ || name == "plugins"@ || name == "lobby"@ || name
        == "gaming"@
}

/// Whether a channel row's menu offers "Delete channel": every channel but
/// the built-in ones.
pub fn offers_channel_delete(name: &str) -> (r: bool)
    ensures
        r == !is_default_channel_name(name@),
{
    !(name.eq("general") || name.eq("dev-talk") || name.eq("plugins") || name.eq("lobby")
        || name.eq("gaming"))
}

/// Deletes the channel named `name`, the name standing for its id.
pub fn channel_delete_command(name: &String) -> (c: NetCommand)
    ensures
        c == (NetCommand::ChannelDelete { channel_id: *name }),
{
    NetCommand::ChannelDelete { channel_id: name.clone() }
}

impl UiState {
    /// The guild the member dialog is about, or the empty string when none is
    /// set.
    pub fn member_dialog_guild(&self) -> (r: String)
        ensures
            r@ == match self.guild_member_list_guild_id {
                Some(g) => g@,
                None => Seq::<char>::empty(),
            },
    {
        match &self.guild_member_list_guild_id {
            Some(g) => g.clone(),
            None => String::new(),
        }
    }

    /// The members button: with a guild selected, the dialog opens for it
    /// with empty member and role lists, and both are loaded. Without one,
    /// nothing happens.
    pub fn open_member_list(&mut self) -> (c: Vec<NetCommand>)
        ensures
            match old(self).active_guild_id {
                Some(g) => {
                    &&& c@ == member_refresh_spec(g)
                    &&& final(self).guild_member_list@.len() == 0
                    &&& final(self).guild_role_list@.len() == 0
                    &&& *final(self) == (UiState {
                        popups: Popups { guild_members_open: true, ..old(self).popups },
                        guild_member_list_guild_id: Some(g),
                        guild_member_list: final(self).guild_member_list,
                        guild_role_list: final(self).guild_role_list,
                        ..*old(self)
                    })
                },
                None => c@.len() == 0 && *final(self) == *old(self),
            },
    {
        match &self.active_guild_id {
            Some(g) => {
                let g = g.clone();
                self.popups.guild_members_open = true;
                self.guild_member_list_guild_id = Some(g.clone());
                self.guild_member_list = Vec::new();
                self.guild_role_list = Vec::new();
                member_refresh_commands(&g)
            },
            None => Vec::new(),
        }
    }

    /// The dialog's refresh button: reloads members and roles of the
    /// dialog's guild, when it has one.
    pub fn refresh_member_list(&self) -> (c: Vec<NetCommand>)
        ensures
            match self.guild_member_list_guild_id {
                Some(g) => c@ == member_refresh_spec(g),
                None => c@.len() == 0,
            },
    {
        match &self.guild_member_list_guild_id {
            Some(g) => member_refresh_commands(g),
            None => Vec::new(),
        }
    }

    /// The dialog's close button.
    pub fn close_member_list(&mut self)
        ensures
            *final(self) == (UiState {
                popups: Popups { guild_members_open: false, ..old(self).popups },
                ..*old(self)
            }),
    {
        self.popups.guild_members_open = false;
    }

    /// The audit-log button: with a guild selected, the log opens for it
    /// empty and its latest entries are asked for. Without one, nothing
    /// happens.
    pub fn open_audit_log(&mut self) -> (c: Option<NetCommand>)
        ensures
            match old(self).active_guild_id {
                Some(g) => {
                    &&& c == Some(NetCommand::GuildAuditLogFetch { guild_id: g, limit: AUDIT_LOG_LIMIT })
                    &&& final(self).audit_log_entries@.len() == 0
                    &&& *final(self) == (UiState {
                        popups: Popups { audit_log_open: true, ..old(self).popups },
                        audit_log_guild_id: Some(g),
                        audit_log_entries: final(self).audit_log_entries,
                        ..*old(self)
                    })
                },
                None => c is None && *final(self) == *old(self),
            },
    {
        match &self.active_guild_id {
            Some(g) => {
                let g = g.clone();
                self.popups.audit_log_open = true;
                self.audit_log_guild_id = Some(g.clone());
                self.audit_log_entries = Vec::new();
                Some(NetCommand::GuildAuditLogFetch { guild_id: g, limit: AUDIT_LOG_LIMIT })
            },
            None => None,
        }
    }

    /// The Leave button, shown while the selected guild is listed: the guild
    /// is deselected and the server is told. Otherwise nothing happens.
    pub fn leave_guild(&mut self) -> (c: Option<NetCommand>)
        ensures
            match old(self).active_guild_id {
                Some(g) => if first_index(old(self).guilds@, guild_has_id(g@)) < old(self).guilds@.len() {
                    &&& c == Some(NetCommand::GuildLeave { guild_id: g })
                    &&& *final(self) == (UiState { active_guild_id: None, ..*old(self) })
                } else {
                    c is None && *final(self) == *old(self)
                },
                None => c is None && *final(self) == *old(self),
            },
    {
        let g = match &self.active_guild_id {
            Some(g) => g.clone(),
            None => {
                return None;
            },
        };
        if find_guild(&self.guilds, &g) == self.guilds.len() {
            return None;
        }
        self.active_guild_id = None;
        Some(NetCommand::GuildLeave { guild_id: g })
    }
}

} // verus!
