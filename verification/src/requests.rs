//! The requests the small dialogs send: each takes what was typed, trimmed,
//! and sends nothing when that is blank.

use vstd::prelude::*;

use crate::events::NetCommand;
use crate::text::{to_string, trim, trim_seq};
use crate::types::{Popups, UiState};

verus! {

/// The typed text with white space trimmed, when something is left.
fn trimmed(input: &str) -> (r: Option<String>)
    ensures
        match r {
            Some(t) => t@ == trim_seq(input@) && t@.len() > 0,
            None => trim_seq(input@).len() == 0,
        },
{
    let t = trim(input);
    if t.as_str().unicode_len() == 0 {
        None
    } else {
        Some(t)
    }
}

/// Creates a guild named as typed.
pub fn guild_create_request(name_input: &str) -> (r: Option<NetCommand>)
    ensures
        match r {
            Some(cmd) => cmd matches NetCommand::GuildCreate { name } && name@ == trim_seq(
                name_input@,
            ) && name@.len() > 0,
            None => trim_seq(name_input@).len() == 0,
        },
{
    match trimmed(name_input) {
        Some(name) => Some(NetCommand::GuildCreate { name }),
        None => None,
    }
}

/// Joins a guild by the invite code typed.
pub fn invite_accept_request(code_input: &str) -> (r: Option<NetCommand>)
    ensures
        match r {
            Some(cmd) => cmd matches NetCommand::InviteAccept { code } && code@ == trim_seq(
                code_input@,
            ) && code@.len() > 0,
            None => trim_seq(code_input@).len() == 0,
        },
{
    match trimmed(code_input) {
        Some(code) => Some(NetCommand::InviteAccept { code }),
        None => None,
    }
}

/// Creates a channel of the chosen kind; the typed name is also its id.
pub fn channel_create_request(name_input: &str, kind: &String) -> (r: Option<NetCommand>)
    ensures
        match r {
            Some(cmd) => cmd matches NetCommand::ChannelCreate { channel_id, channel_name, kind: k }
                && channel_id@ == trim_seq(name_input@) && channel_name@ == trim_seq(name_input@)
                && k == *kind && channel_id@.len() > 0,
            None => trim_seq(name_input@).len() == 0,
        },
{
    match trimmed(name_input) {
        Some(name) => Some(
            NetCommand::ChannelCreate {
                channel_id: name.clone(),
                channel_name: name,
                kind: kind.clone(),
            },
        ),
        None => None,
    }
}

/// Sends a friend request to the user typed.
pub fn friend_request(target_input: &str) -> (r: Option<NetCommand>)
    ensures
        match r {
            Some(cmd) => cmd matches NetCommand::FriendRequest { target_user_id } && target_user_id@
                == trim_seq(target_input@) && target_user_id@.len() > 0,
            None => trim_seq(target_input@).len() == 0,
        },
{
    match trimmed(target_input) {
        Some(target_user_id) => Some(NetCommand::FriendRequest { target_user_id }),
        None => None,
    }
}

/// Blocks the user typed.
pub fn block_request(target_input: &str) -> (r: Option<NetCommand>)
    ensures
        match r {
            Some(cmd) => cmd matches NetCommand::BlockUser { user_id } && user_id@ == trim_seq(
                target_input@,
            ) && user_id@.len() > 0,
            None => trim_seq(target_input@).len() == 0,
        },
{
    match trimmed(target_input) {
        Some(user_id) => Some(NetCommand::BlockUser { user_id }),
        None => None,
    }
}

impl UiState {
    /// The "+" button beside the channels: the create-channel dialog opens
    /// with an empty name.
    pub fn open_create_channel(&mut self)
        ensures
            final(self).popups.create_channel_input@.len() == 0,
            *final(self) == (UiState {
                popups: Popups {
                    create_channel_open: true,
                    create_channel_input: final(self).popups.create_channel_input,
                    ..old(self).popups
                },
                ..*old(self)
            }),
    {
        self.popups.create_channel_open = true;
        self.popups.create_channel_input = String::new();
    }

    /// The dialog's Create button. A name that is not blank is sent, trimmed,
    /// as the new channel's id and name with the chosen kind, and the dialog
    /// closes; the channel list waits for the server's answer. A blank name
    /// sends nothing and leaves the dialog open.
    pub fn submit_create_channel(&mut self) -> (r: Option<NetCommand>)
        ensures
            ({
                let name = trim_seq(old(self).popups.create_channel_input@);
                if name.len() == 0 {
                    r is None && *final(self) == *old(self)
                } else {
                    &&& r matches Some(NetCommand::ChannelCreate { channel_id, channel_name, kind })
                        && channel_id@ == name && channel_name@ == name && kind
                        == old(self).popups.create_channel_kind
                    &&& *final(self) == (UiState {
                        popups: Popups { create_channel_open: false, ..old(self).popups },
                        ..*old(self)
                    })
                }
            }),
    {
        let r = channel_create_request(self.popups.create_channel_input.as_str(), &self.popups.create_channel_kind);
        if r.is_some() {
            self.popups.create_channel_open = false;
        }
        r
    }

    /// The dialog's Cancel button, or Escape in its name field: it closes.
    pub fn close_create_channel(&mut self)
        ensures
            *final(self) == (UiState {
                popups: Popups { create_channel_open: false, ..old(self).popups },
                ..*old(self)
            }),
    {
        self.popups.create_channel_open = false;
    }
}

/// Accepts the friend request of `user_id`.
pub fn friend_accept_command(user_id: &String) -> (c: NetCommand)
    ensures
        c == (NetCommand::FriendAccept { user_id: *user_id }),
{
    NetCommand::FriendAccept { user_id: user_id.clone() }
}

/// Declines the friend request of `user_id`.
pub fn friend_decline_command(user_id: &String) -> (c: NetCommand)
    ensures
        c == (NetCommand::FriendDecline { user_id: *user_id }),
{
    NetCommand::FriendDecline { user_id: user_id.clone() }
}

/// Removes `user_id` from the friends.
pub fn friend_remove_command(user_id: &String) -> (c: NetCommand)
    ensures
        c == (NetCommand::FriendRemove { user_id: *user_id }),
{
    NetCommand::FriendRemove { user_id: user_id.clone() }
}

/// Unblocks `user_id`.
pub fn unblock_command(user_id: &String) -> (c: NetCommand)
    ensures
        c == (NetCommand::UnblockUser { user_id: *user_id }),
{
    NetCommand::UnblockUser { user_id: user_id.clone() }
}

/// What `UiState::show_blocked_tab` does: the first time the blocked list is
/// asked for, and that is recorded; after that nothing happens.
pub open spec fn show_blocked_tab_post(pre: UiState, post: UiState, c: Option<NetCommand>) -> bool {
    if pre.popups.block_list_fetched {
        c is None && post == pre
    } else {
        &&& c == Some(NetCommand::BlockList)
        &&& post == (UiState { popups: Popups { block_list_fetched: true, ..pre.popups }, ..pre })
    }
}

impl UiState {
    /// The blocked tab shows: the blocked list is fetched on its first
    /// showing, and not again.
    pub fn show_blocked_tab(&mut self) -> (c: Option<NetCommand>)
        ensures
            show_blocked_tab_post(*old(self), *final(self), c),
    {
        if self.popups.block_list_fetched {
            None
        } else {
            self.popups.block_list_fetched = true;
            Some(NetCommand::BlockList)
        }
    }
}

/// However often the blocked tab shows, the blocked list is asked for at
/// most once: once it has been, showing the tab again sends nothing and
/// changes nothing.
pub proof fn law_block_list_fetched_once(
    s0: UiState,
    s1: UiState,
    s2: UiState,
    c1: Option<NetCommand>,
    c2: Option<NetCommand>,
)
    requires
        show_blocked_tab_post(s0, s1, c1),
        show_blocked_tab_post(s1, s2, c2),
    ensures
        s1.popups.block_list_fetched,
        c2 is None,
        s2 == s1,
        !s0.popups.block_list_fetched ==> c1 == Some(NetCommand::BlockList),
{
}

/// Searches conversation `dm_id` for the query typed, trimmed.
pub fn dm_search_command(dm_id: &String, query_input: &str) -> (c: NetCommand)
    ensures
        c matches NetCommand::DmSearch { dm_id: d, query } && d == *dm_id && query@ == trim_seq(
            query_input@,
        ),
{
    NetCommand::DmSearch { dm_id: dm_id.clone(), query: trim(query_input) }
}

/// Tells the others what the user shows: the chosen status (`online` when
/// none is chosen), custom status and activity.
pub fn presence_update_command(
    status: Option<String>,
    custom_status: Option<String>,
    activity: Option<String>,
    activity_text: Option<String>,
) -> (c: NetCommand)
    ensures
        c matches NetCommand::PresenceUpdate { status: st, custom_status: cs, activity: a, activity_text: at }
            && st@ == match status {
            Some(x) => x@,
            None => "online"@,
        } && cs == custom_status && a == activity && at == activity_text,
{
    let st = match status {
        Some(x) => x,
        None => to_string("online"),
    };
    NetCommand::PresenceUpdate { status: st, custom_status, activity, activity_text }
}

} // verus!
