//! Taking in network events: each kind goes to its handler, and the session
//! events also steer the voice pipeline.

use vstd::prelude::*;

use crate::chat_channels::{
    apply_channel_created_post, apply_channel_deleted_post, apply_channel_list_post,
    apply_channel_state_post, apply_dm_start_post, apply_user_join_post, apply_user_leave_post,
};
use crate::chat_messages::{
    apply_chat_history_post, apply_chat_message_post, apply_dm_history_post,
    apply_dm_message_post, apply_error_post, apply_message_deleted_post,
    apply_message_edited_post, apply_reaction_added_post, apply_reaction_removed_post,
    apply_read_receipt_post, apply_user_color_post,
};
use crate::clock::now_ms;
use crate::events::{event_group, event_group_spec, EventGroup, NetCommand, NetEvent};
use crate::ids::{is_uuid_v4_text, new_uuid_text};
use crate::social::{
    apply_audit_log_post, apply_block_list_post, apply_blocked_user_post,
    apply_friend_accepted_post, apply_friend_list_post, apply_friend_removed_post,
    apply_friend_requested_post, apply_guild_created_post, apply_guild_deleted_post,
    apply_guild_list_post, apply_guild_member_joined_post, apply_guild_member_left_post,
    apply_invite_accepted_post, apply_member_list_post, apply_role_list_post,
    apply_unblocked_user_post,
};
use crate::status::{
    apply_latency_post, apply_presence_sync_post, apply_presence_updated_post,
    apply_typing_start_post,
};
use crate::status::{handle_disconnected_post, handle_reconnecting_post, note_voice_packet_post, on_connected_post};
use crate::types::UiState;
use crate::voice::{stop_voice, stopped_state, AppState};

verus! {

/// The chat events that need a fresh identifier: a channel's state (for the
/// read receipt sent back) and a direct message (for the message itself).
pub open spec fn needs_fresh_id(e: NetEvent) -> bool {
    e is ChannelState || e is DmMessage
}

/// What a chat event does to the state, with `fresh_id` as the identifier it
/// may need, and the command it asks to send.
pub open spec fn chat_event_post(
    pre: UiState,
    post: UiState,
    e: NetEvent,
    fresh_id: String,
    cmd: Option<NetCommand>,
) -> bool {
    match e {
        NetEvent::ChannelState { channel_id, channel_name, kind, members } => {
            cmd matches Some(c) && apply_channel_state_post(
                pre,
                post,
                channel_id,
                channel_name,
                kind,
                members,
                fresh_id,
                c,
            )
        },
        NetEvent::ChannelCreated { channel_id, channel_name, kind } => {
            cmd is None && apply_channel_created_post(pre, post, channel_id, channel_name, kind)
        },
        NetEvent::ChannelDeleted { channel_id } => {
            cmd is None && apply_channel_deleted_post(pre, post, channel_id)
        },
        NetEvent::ChannelListEvent { channels } => {
            cmd is None && apply_channel_list_post(pre, post, channels)
        },
        NetEvent::ChatMessage { message_id, channel_id, sender_id, content, timestamp, reply_to } => {
            cmd is None && apply_chat_message_post(
                pre,
                post,
                message_id,
                channel_id,
                sender_id,
                content,
                timestamp,
                reply_to,
            )
        },
        NetEvent::ChatHistory { channel_id, messages } => {
            cmd is None && apply_chat_history_post(pre, post, channel_id, messages)
        },
        NetEvent::UserJoin { channel_id, user_id, nickname } => {
            cmd is None && apply_user_join_post(pre, post, channel_id, user_id, nickname)
        },
        NetEvent::UserLeave { channel_id, user_id } => {
            cmd is None && apply_user_leave_post(pre, post, channel_id, user_id)
        },
        NetEvent::Error { message } => { cmd is None && apply_error_post(pre, post, message) },
        NetEvent::ReactionAdded { channel_id, message_id, user_id, emoji } => {
            cmd is None && apply_reaction_added_post(
                pre,
                post,
                channel_id,
                message_id,
                user_id,
                emoji,
            )
        },
        NetEvent::ReactionRemoved { channel_id, message_id, user_id, emoji } => {
            cmd is None && apply_reaction_removed_post(
                pre,
                post,
                channel_id,
                message_id,
                user_id,
                emoji,
            )
        },
        NetEvent::MessageEdited { channel_id, message_id, content } => {
            cmd is None && apply_message_edited_post(pre, post, channel_id, message_id, content)
        },
        NetEvent::MessageDeleted { channel_id, message_id } => {
            cmd is None && apply_message_deleted_post(pre, post, channel_id, message_id)
        },
        NetEvent::DmStart { dm_id, other_user_id, other_nickname, messages, unread_count } => {
            cmd is None && apply_dm_start_post(
                pre,
                post,
                dm_id,
                other_user_id,
                other_nickname,
                messages,
                unread_count,
            )
        },
        NetEvent::DmMessage { dm_id, sender_id, content, timestamp } => {
            cmd is None && apply_dm_message_post(
                pre,
                post,
                dm_id,
                sender_id,
                content,
                timestamp,
                fresh_id,
            )
        },
        NetEvent::DmHistory { dm_id, messages } => {
            cmd is None && apply_dm_history_post(pre, post, dm_id, messages)
        },
        NetEvent::ReadReceiptBroadcast { channel_id, user_id, last_read_message_id } => {
            cmd is None && apply_read_receipt_post(
                pre,
                post,
                channel_id,
                user_id,
                last_read_message_id,
            )
        },
        NetEvent::UserColor { user_id, color } => {
            cmd is None && apply_user_color_post(pre, post, user_id, color)
        },
        _ => cmd is None && post == pre,
    }
}

/// What a guild, friend or block event does to the state, `now_ms` being the
/// time a new friendship is recorded with.
pub open spec fn social_event_post(pre: UiState, post: UiState, e: NetEvent, now_ms: i64) -> bool {
    match e {
        NetEvent::GuildList { guilds } => apply_guild_list_post(pre, post, guilds),
        NetEvent::GuildCreated { guild_id, name, owner_id } => {
            apply_guild_created_post(pre, post, guild_id, name, owner_id)
        },
        NetEvent::GuildDeleted { guild_id } => apply_guild_deleted_post(pre, post, guild_id),
        NetEvent::GuildMemberJoined { guild_id, .. } => {
            apply_guild_member_joined_post(pre, post, guild_id)
        },
        NetEvent::GuildMemberLeft { guild_id, .. } => apply_guild_member_left_post(
            pre,
            post,
            guild_id,
        ),
        NetEvent::GuildMemberKicked { guild_id, .. } => apply_guild_member_left_post(
            pre,
            post,
            guild_id,
        ),
        NetEvent::InviteAccepted { guild_id, guild_name } => {
            apply_invite_accepted_post(pre, post, guild_id, guild_name)
        },
        NetEvent::GuildAuditLog { guild_id, entries } => {
            apply_audit_log_post(pre, post, guild_id, entries)
        },
        NetEvent::GuildMemberList { guild_id, members } => {
            apply_member_list_post(pre, post, guild_id, members)
        },
        NetEvent::GuildRoleList { guild_id, roles } => {
            apply_role_list_post(pre, post, guild_id, roles)
        },
        NetEvent::FriendList { friends } => apply_friend_list_post(pre, post, friends),
        NetEvent::FriendRequested { user_id, nickname } => {
            apply_friend_requested_post(pre, post, user_id, nickname)
        },
        NetEvent::FriendAccepted { user_id, nickname } => {
            apply_friend_accepted_post(pre, post, user_id, nickname, now_ms)
        },
        NetEvent::FriendRemoved { user_id } => apply_friend_removed_post(pre, post, user_id),
        NetEvent::BlockList { blocked } => apply_block_list_post(pre, post, blocked),
        NetEvent::BlockedUser { user_id } => apply_blocked_user_post(pre, post, user_id),
        NetEvent::UnblockedUser { user_id } => apply_unblocked_user_post(pre, post, user_id),
        _ => post == pre,
    }
}

/// What a latency, typing or presence event does to the state, `now_ms` being
/// the time a typing notice is recorded with.
pub open spec fn status_event_post(pre: UiState, post: UiState, e: NetEvent, now_ms: u64) -> bool {
    match e {
        NetEvent::LatencyUpdate { rtt_ms } => apply_latency_post(pre, post, rtt_ms),
        NetEvent::TypingStart { user_id, nickname, channel_id } => {
            apply_typing_start_post(pre, post, user_id, nickname, channel_id, now_ms)
        },
        NetEvent::PresenceSync { presences } => apply_presence_sync_post(pre, post, presences),
        NetEvent::PresenceUpdated { user_id, status, custom_status, activity } => {
            apply_presence_updated_post(pre, post, user_id, status, custom_status, activity)
        },
        _ => post == pre,
    }
}

/// What any event that is not a session event does to the state: it goes to
/// the handler of its group; session events leave the state alone here.
pub open spec fn net_event_post(
    pre: UiState,
    post: UiState,
    e: NetEvent,
    fresh_id: String,
    now_ms: u64,
    cmd: Option<NetCommand>,
) -> bool {
    match event_group_spec(e) {
        EventGroup::Chat => chat_event_post(pre, post, e, fresh_id, cmd),
        EventGroup::Social => cmd is None && social_event_post(pre, post, e, now_ms as i64),
        EventGroup::Status => cmd is None && status_event_post(pre, post, e, now_ms),
        EventGroup::Session => cmd is None && post == pre,
    }
}

impl UiState {
    /// Takes in a chat event; `fresh_id` is the identifier that a channel
    /// state (its read receipt) or a direct message (the message) gets.
    /// Events of other groups leave the state alone.
    #[verifier::rlimit(60)]
    pub fn apply_chat_event(&mut self, event: NetEvent, fresh_id: String) -> (cmd: Option<
        NetCommand,
    >)
        ensures
            chat_event_post(*old(self), *final(self), event, fresh_id, cmd),
    {
        match event {
            NetEvent::ChannelState { channel_id, channel_name, kind, members } => {
                Some(self.apply_channel_state(channel_id, channel_name, kind, members, fresh_id))
            },
            NetEvent::ChannelCreated { channel_id, channel_name, kind } => {
                self.apply_channel_created(channel_id, channel_name, kind);
                None
            },
            NetEvent::ChannelDeleted { channel_id } => {
                self.apply_channel_deleted(channel_id);
                None
            },
            NetEvent::ChannelListEvent { channels } => {
                self.apply_channel_list(channels);
                None
            },
            NetEvent::ChatMessage {
                message_id,
                channel_id,
                sender_id,
                content,
                timestamp,
                reply_to,
            } => {
                self.apply_chat_message(
                    message_id,
                    channel_id,
                    sender_id,
                    content,
                    timestamp,
                    reply_to,
                );
                None
            },
            NetEvent::ChatHistory { channel_id, messages } => {
                self.apply_chat_history(channel_id, messages);
                None
            },
            NetEvent::UserJoin { channel_id, user_id, nickname } => {
                self.apply_user_join(channel_id, user_id, nickname);
                None
            },
            NetEvent::UserLeave { channel_id, user_id } => {
                self.apply_user_leave(channel_id, user_id);
                None
            },
            NetEvent::Error { message } => {
                self.apply_error(message);
                None
            },
            NetEvent::ReactionAdded { channel_id, message_id, user_id, emoji } => {
                self.apply_reaction_added(channel_id, message_id, user_id, emoji);
                None
            },
            NetEvent::ReactionRemoved { channel_id, message_id, user_id, emoji } => {
                self.apply_reaction_removed(channel_id, message_id, user_id, emoji);
                None
            },
            NetEvent::MessageEdited { channel_id, message_id, content } => {
                self.apply_message_edited(channel_id, message_id, content);
                None
            },
            NetEvent::MessageDeleted { channel_id, message_id } => {
                self.apply_message_deleted(channel_id, message_id);
                None
            },
            NetEvent::DmStart { dm_id, other_user_id, other_nickname, messages, unread_count } => {
                self.apply_dm_start(dm_id, other_user_id, other_nickname, messages, unread_count);
                None
            },
            NetEvent::DmMessage { dm_id, sender_id, content, timestamp } => {
                self.apply_dm_message(dm_id, sender_id, content, timestamp, fresh_id);
                None
            },
            NetEvent::DmHistory { dm_id, messages } => {
                self.apply_dm_history(dm_id, messages);
                None
            },
            NetEvent::ReadReceiptBroadcast { channel_id, user_id, last_read_message_id } => {
                self.apply_read_receipt(channel_id, user_id, last_read_message_id);
                None
            },
            NetEvent::UserColor { user_id, color } => {
                self.apply_user_color(user_id, color);
                None
            },
            _ => None,
        }
    }
}

/// Takes in a chat event, drawing a fresh random identifier where the event
/// needs one (see `UiState::apply_chat_event`); returns the command to send.
pub fn chat_handle(ui: &mut UiState, event: NetEvent) -> (cmd: Option<NetCommand>)
    ensures
        exists|fresh_id: String|
            {
                &&& needs_fresh_id(event) ==> is_uuid_v4_text(fresh_id@)
                &&& chat_event_post(*old(ui), *final(ui), event, fresh_id, cmd)
            },
{
    let needs = match &event {
        NetEvent::ChannelState { .. } | NetEvent::DmMessage { .. } => true,
        _ => false,
    };
    let fresh_id = if needs {
        new_uuid_text()
    } else {
        String::new()
    };
    let ghost id = fresh_id;
    let cmd = ui.apply_chat_event(event, fresh_id);
    assert(chat_event_post(*old(ui), *final(ui), event, id, cmd));
    cmd
}

impl UiState {
    /// Takes in a guild, friend or block event; `now_ms` is the time a new
    /// friendship is recorded with. Events of other groups leave the state
    /// alone, and so do invites created or deleted and roles created or
    /// deleted.
    #[verifier::rlimit(40)]
    pub fn apply_social_event(&mut self, event: NetEvent, now_ms: i64)
        ensures
            social_event_post(*old(self), *final(self), event, now_ms),
    {
        match event {
            NetEvent::GuildList { guilds } => self.apply_guild_list(guilds),
            NetEvent::GuildCreated { guild_id, name, owner_id } => {
                self.apply_guild_created(guild_id, name, owner_id)
            },
            NetEvent::GuildDeleted { guild_id } => self.apply_guild_deleted(guild_id),
            NetEvent::GuildMemberJoined { guild_id, .. } => self.apply_guild_member_joined(
                guild_id,
            ),
            NetEvent::GuildMemberLeft { guild_id, .. } => self.apply_guild_member_left(guild_id),
            NetEvent::GuildMemberKicked { guild_id, .. } => self.apply_guild_member_left(
                guild_id,
            ),
            NetEvent::InviteAccepted { guild_id, guild_name } => {
                self.apply_invite_accepted(guild_id, guild_name)
            },
            NetEvent::GuildAuditLog { guild_id, entries } => self.apply_audit_log(
                guild_id,
                entries,
            ),
            NetEvent::GuildMemberList { guild_id, members } => self.apply_member_list(
                guild_id,
                members,
            ),
            NetEvent::GuildRoleList { guild_id, roles } => self.apply_role_list(guild_id, roles),
            NetEvent::FriendList { friends } => self.apply_friend_list(friends),
            NetEvent::FriendRequested { user_id, nickname } => {
                self.apply_friend_requested(user_id, nickname)
            },
            NetEvent::FriendAccepted { user_id, nickname } => {
                self.apply_friend_accepted(user_id, nickname, now_ms)
            },
            NetEvent::FriendRemoved { user_id } => self.apply_friend_removed(user_id),
            NetEvent::BlockList { blocked } => self.apply_block_list(blocked),
            NetEvent::BlockedUser { user_id } => self.apply_blocked_user(user_id),
            NetEvent::UnblockedUser { user_id } => self.apply_unblocked_user(user_id),
            _ => {},
        }
    }

    /// Takes in a latency, typing or presence event; `now_ms` is the time a
    /// typing notice is recorded with. Events of other groups leave the state
    /// alone.
    pub fn apply_status_event(&mut self, event: NetEvent, now_ms: u64)
        ensures
            status_event_post(*old(self), *final(self), event, now_ms),
    {
        match event {
            NetEvent::LatencyUpdate { rtt_ms } => self.apply_latency(rtt_ms),
            NetEvent::TypingStart { user_id, nickname, channel_id } => {
                self.apply_typing_start(user_id, nickname, channel_id, now_ms)
            },
            NetEvent::PresenceSync { presences } => self.apply_presence_sync(presences),
            NetEvent::PresenceUpdated { user_id, status, custom_status, activity } => {
                self.apply_presence_updated(user_id, status, custom_status, activity)
            },
            _ => {},
        }
    }

    /// Takes in an event that is not a session event by handing it to the
    /// handler of its group; session events leave the state alone here.
    pub fn apply_net_event(&mut self, event: NetEvent, fresh_id: String, now_ms: u64) -> (cmd:
        Option<NetCommand>)
        ensures
            net_event_post(*old(self), *final(self), event, fresh_id, now_ms, cmd),
    {
        match event_group(&event) {
            EventGroup::Chat => self.apply_chat_event(event, fresh_id),
            EventGroup::Social => {
                #[verifier::truncate]
                let t = now_ms as i64;
                self.apply_social_event(event, t);
                None
            },
            EventGroup::Status => {
                self.apply_status_event(event, now_ms);
                None
            },
            EventGroup::Session => None,
        }
    }
}

/// Takes in a guild, friend or block event, a new friendship being recorded
/// with the wall-clock time in milliseconds.
pub fn social_handle(ui: &mut UiState, event: NetEvent)
    ensures
        exists|now_ms: i64| social_event_post(*old(ui), *final(ui), event, now_ms),
{
    let stamps = match &event {
        NetEvent::FriendAccepted { .. } => true,
        _ => false,
    };
    let now: i64 = if stamps {
        let t = now_ms();
        #[verifier::truncate]
        (t as i64)
    } else {
        0
    };
    ui.apply_social_event(event, now);
    assert(social_event_post(*old(ui), *final(ui), event, now));
}

/// Takes in a latency, typing or presence event, a typing notice being
/// recorded with the wall-clock time in milliseconds.
pub fn status_handle(ui: &mut UiState, event: NetEvent)
    ensures
        exists|now_ms: u64| status_event_post(*old(ui), *final(ui), event, now_ms),
{
    let stamps = match &event {
        NetEvent::TypingStart { .. } => true,
        _ => false,
    };
    let now: u64 = if stamps {
        now_ms()
    } else {
        0
    };
    ui.apply_status_event(event, now);
    assert(status_event_post(*old(ui), *final(ui), event, now));
}

/// Takes in an event that is not a session event, as its group's handler
/// does (`chat_handle`, `social_handle`, `status_handle`); returns the
/// command to send. Session events leave the state alone here.
pub fn process_net_event(ui: &mut UiState, event: NetEvent) -> (cmd: Option<NetCommand>)
    ensures
        exists|fresh_id: String, now_ms: u64|
            {
                &&& needs_fresh_id(event) ==> is_uuid_v4_text(fresh_id@)
                &&& net_event_post(*old(ui), *final(ui), event, fresh_id, now_ms, cmd)
            },
{
    let needs = match &event {
        NetEvent::ChannelState { .. } | NetEvent::DmMessage { .. } => true,
        _ => false,
    };
    let fresh_id = if needs {
        new_uuid_text()
    } else {
        String::new()
    };
    let stamps = match &event {
        NetEvent::FriendAccepted { .. } | NetEvent::TypingStart { .. } => true,
        _ => false,
    };
    let now: u64 = if stamps {
        now_ms()
    } else {
        0
    };
    let ghost id = fresh_id;
    let cmd = ui.apply_net_event(event, fresh_id, now);
    assert(net_event_post(*old(ui), *final(ui), event, id, now, cmd));
    cmd
}

/// What the caller does after the state has taken in one event.
#[derive(Debug)]
pub struct EventOutcome {
    /// A command to send.
    pub command: Option<NetCommand>,
    /// Whether the voice packet of the event goes to the audio pipeline.
    pub play_voice: bool,
}

/// What one event does to the state and what it asks of the caller, with
/// `fresh_id` as the identifier and `now_ms` as the time it may need. A drop
/// or a reconnect attempt stops voice first; a voice packet is played when
/// the user has not deafened and a pipeline runs.
pub open spec fn take_event_post(
    pre: AppState,
    post: AppState,
    e: NetEvent,
    fresh_id: String,
    now_ms: u64,
    out: EventOutcome,
) -> bool {
    match e {
        NetEvent::Connected { session_id, node_name, restored, private_mode } => {
            &&& !out.play_voice
            &&& on_connected_post(
                pre.ui,
                post.ui,
                session_id,
                node_name,
                restored,
                private_mode,
                out.command,
            )
            &&& post == (AppState { ui: post.ui, ..pre })
        },
        NetEvent::Disconnected { reason, will_retry } => {
            &&& !out.play_voice
            &&& out.command is None
            &&& handle_disconnected_post(stopped_state(pre).ui, post.ui, reason@, will_retry)
            &&& post == (AppState { ui: post.ui, ..stopped_state(pre) })
        },
        NetEvent::Reconnecting { attempt, delay_secs } => {
            &&& !out.play_voice
            &&& out.command is None
            &&& handle_reconnecting_post(stopped_state(pre).ui, post.ui, attempt, delay_secs)
            &&& post == (AppState { ui: post.ui, ..stopped_state(pre) })
        },
        NetEvent::VoicePacket { sender_id, .. } => {
            &&& out.play_voice == (!pre.ui.deafen && pre.audio_running)
            &&& out.command is None
            &&& note_voice_packet_post(pre.ui, post.ui, sender_id, now_ms, !pre.ui.deafen)
            &&& post == (AppState { ui: post.ui, ..pre })
        },
        _ => {
            &&& !out.play_voice
            &&& net_event_post(pre.ui, post.ui, e, fresh_id, now_ms, out.command)
            &&& post == (AppState { ui: post.ui, ..pre })
        },
    }
}

impl AppState {
    /// Takes in one event (see `take_event_post`). Afterwards the caller
    /// brings voice in line with `sync_voice_audio`.
    #[verifier::rlimit(40)]
    pub fn take_event(&mut self, event: NetEvent, fresh_id: String, now_ms: u64) -> (out:
        EventOutcome)
        ensures
            take_event_post(*old(self), *final(self), event, fresh_id, now_ms, out),
    {
        match event {
            NetEvent::Connected { session_id, node_name, restored, private_mode } => {
                let cmd = self.ui.on_connected(session_id, node_name, restored, private_mode);
                EventOutcome { command: cmd, play_voice: false }
            },
            NetEvent::Disconnected { reason, will_retry } => {
                stop_voice(self);
                self.ui.handle_disconnected(reason.as_str(), will_retry);
                EventOutcome { command: None, play_voice: false }
            },
            NetEvent::Reconnecting { attempt, delay_secs } => {
                stop_voice(self);
                self.ui.handle_reconnecting(attempt, delay_secs);
                EventOutcome { command: None, play_voice: false }
            },
            NetEvent::VoicePacket { sender_id, .. } => {
                let play = self.ui.note_voice_packet(sender_id, now_ms);
                EventOutcome { command: None, play_voice: play && self.audio_running }
            },
            other => {
                let cmd = self.ui.apply_net_event(other, fresh_id, now_ms);
                EventOutcome { command: cmd, play_voice: false }
            },
        }
    }

    /// Takes in one event as `take_event` does, drawing a fresh random
    /// identifier where the event needs one and reading the wall clock where
    /// it needs the time.
    pub fn handle_event(&mut self, event: NetEvent) -> (out: EventOutcome)
        ensures
            exists|fresh_id: String, now_ms: u64|
                {
                    &&& needs_fresh_id(event) ==> is_uuid_v4_text(fresh_id@)
                    &&& take_event_post(*old(self), *final(self), event, fresh_id, now_ms, out)
                },
    {
        let needs = match &event {
            NetEvent::ChannelState { .. } | NetEvent::DmMessage { .. } => true,
            _ => false,
        };
        let fresh_id = if needs {
            new_uuid_text()
        } else {
            String::new()
        };
        let stamps = match &event {
            NetEvent::VoicePacket { .. }
            | NetEvent::FriendAccepted { .. }
            | NetEvent::TypingStart { .. } => true,
            _ => false,
        };
        let now: u64 = if stamps {
            now_ms()
        } else {
            0
        };
        let ghost id = fresh_id;
        let out = self.take_event(event, fresh_id, now);
        assert(take_event_post(*old(self), *final(self), event, id, now, out));
        out
    }

    /// Refreshes the speaking indicators from the pipeline's readings (both
    /// off when no pipeline runs), and forgets the last remote speaker once
    /// nobody remote speaks.
    pub fn refresh_speaking(&mut self, local_speaking: bool, remote_speaking: bool)
        ensures
            final(self).ui.local_speaking == (old(self).audio_running && local_speaking),
            final(self).ui.remote_speaking == (old(self).audio_running && remote_speaking),
            final(self).ui.last_remote_speaker_id@ == if final(self).ui.remote_speaking {
                old(self).ui.last_remote_speaker_id@
            } else {
                Seq::<char>::empty()
            },
            *final(self) == (AppState {
                ui: UiState {
                    local_speaking: final(self).ui.local_speaking,
                    remote_speaking: final(self).ui.remote_speaking,
                    last_remote_speaker_id: final(self).ui.last_remote_speaker_id,
                    ..old(self).ui
                },
                ..*old(self)
            }),
    {
        if self.audio_running {
            self.ui.local_speaking = local_speaking;
            self.ui.remote_speaking = remote_speaking;
        } else {
            self.ui.local_speaking = false;
            self.ui.remote_speaking = false;
        }
        if !self.ui.remote_speaking {
            self.ui.last_remote_speaker_id = String::new();
        }
    }
}

} // verus!
