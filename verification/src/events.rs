//! What the network layer reports to the UI, and what the UI asks it to send.

use vstd::prelude::*;

use crate::models::{AuditLogEntry, GuildMemberInfo, GuildRoleInfo, PresenceInfo};

verus! {

/// A user present in a channel.
#[derive(Debug, Clone)]
pub struct MemberInfo {
    pub user_id: String,
    pub nickname: String,
}

/// A channel as the server lists it.
#[derive(Debug, Clone)]
pub struct ChannelInfo {
    pub channel_id: String,
    pub channel_name: String,
    pub kind: String,
}

/// A message as the server sends it in histories.
#[derive(Debug, Clone)]
pub struct ChatMsg {
    pub message_id: String,
    pub sender_id: String,
    pub content: String,
    pub timestamp: i64,
    pub reply_to: Option<String>,
}

/// A guild as the server lists it.
#[derive(Debug, Clone)]
pub struct GuildInfo {
    pub guild_id: String,
    pub name: String,
    pub owner_id: String,
    pub member_count: u32,
}

/// A friend as the server lists it.
#[derive(Debug, Clone)]
pub struct FriendInfo {
    pub user_id: String,
    pub nickname: String,
    pub status: String,
    pub since: i64,
}

/// An event from the network layer.
#[derive(Debug, Clone)]
pub enum NetEvent {
    Connected { session_id: String, node_name: String, restored: bool, private_mode: bool },
    Disconnected { reason: String, will_retry: bool },
    Reconnecting { attempt: u32, delay_secs: u64 },
    VoicePacket { channel_id: String, sender_id: String },
    ChannelState {
        channel_id: String,
        channel_name: String,
        kind: String,
        members: Vec<MemberInfo>,
    },
    ChannelCreated { channel_id: String, channel_name: String, kind: String },
    ChannelDeleted { channel_id: String },
    ChannelListEvent { channels: Vec<ChannelInfo> },
    ChatMessage {
        message_id: String,
        channel_id: String,
        sender_id: String,
        content: String,
        timestamp: i64,
        reply_to: Option<String>,
    },
    ChatHistory { channel_id: String, messages: Vec<ChatMsg> },
    UserJoin { channel_id: String, user_id: String, nickname: String },
    UserLeave { channel_id: String, user_id: String },
    Error { message: String },
    ReactionAdded { channel_id: String, message_id: String, user_id: String, emoji: String },
    ReactionRemoved { channel_id: String, message_id: String, user_id: String, emoji: String },
    MessageEdited { channel_id: String, message_id: String, content: String },
    MessageDeleted { channel_id: String, message_id: String },
    DmStart {
        dm_id: String,
        other_user_id: String,
        other_nickname: String,
        messages: Vec<ChatMsg>,
        unread_count: u32,
    },
    DmMessage { dm_id: String, sender_id: String, content: String, timestamp: i64 },
    DmHistory { dm_id: String, messages: Vec<ChatMsg> },
    ReadReceiptBroadcast { channel_id: String, user_id: String, last_read_message_id: String },
    UserColor { user_id: String, color: String },
    GuildList { guilds: Vec<GuildInfo> },
    GuildCreated { guild_id: String, name: String, owner_id: String },
    GuildDeleted { guild_id: String },
    GuildMemberJoined { guild_id: String, user_id: String, nickname: String },
    GuildMemberLeft { guild_id: String, user_id: String },
    GuildMemberKicked { guild_id: String, user_id: String },
    InviteCreated { guild_id: String, code: String },
    InviteAccepted { guild_id: String, guild_name: String },
    InviteDeleted { guild_id: String, invite_id: String },
    RoleCreated { guild_id: String, role_id: String },
    RoleDeleted { guild_id: String, role_id: String },
    GuildAuditLog { guild_id: String, entries: Vec<AuditLogEntry> },
    GuildMemberList { guild_id: String, members: Vec<GuildMemberInfo> },
    GuildRoleList { guild_id: String, roles: Vec<GuildRoleInfo> },
    FriendList { friends: Vec<FriendInfo> },
    FriendRequested { user_id: String, nickname: String },
    FriendAccepted { user_id: String, nickname: String },
    FriendRemoved { user_id: String },
    BlockList { blocked: Vec<String> },
    BlockedUser { user_id: String },
    UnblockedUser { user_id: String },
    LatencyUpdate { rtt_ms: u32 },
    TypingStart { user_id: String, nickname: String, channel_id: String },
    PresenceSync { presences: Vec<PresenceInfo> },
    PresenceUpdated {
        user_id: String,
        status: String,
        custom_status: Option<String>,
        activity: Option<String>,
    },
}

/// A request for the network layer to send.
#[derive(Debug, Clone)]
pub enum NetCommand {
    Connect { address: String, auto_reconnect: bool },
    Disconnect,
    JoinChannel { channel_id: String },
    ReadReceipt { channel_id: String, last_read_message_id: String },
    SendChat { channel_id: String, content: String, reply_to: Option<String> },
    MessageEdit { channel_id: String, message_id: String, content: String },
    DmSend { dm_id: String, content: String },
    DmReadAck { dm_id: String },
    DmStart { target_user_id: String },
    GuildList,
    GuildCreate { name: String },
    InviteAccept { code: String },
    ChannelCreate { channel_id: String, channel_name: String, kind: String },
    FriendRequest { target_user_id: String },
    BlockUser { user_id: String },
    MessageDelete { channel_id: String, message_id: String },
    TypingStart { channel_id: String },
    ReactionAdd { channel_id: String, message_id: String, emoji: String },
    ReactionRemove { channel_id: String, message_id: String, emoji: String },
    GuildLeave { guild_id: String },
    ChannelDelete { channel_id: String },
    GuildAuditLogFetch { guild_id: String, limit: u32 },
    GuildMemberListFetch { guild_id: String },
    GuildRoleListFetch { guild_id: String },
    GuildMemberKick { guild_id: String, user_id: String },
    GuildRoleAssign { guild_id: String, user_id: String, role_id: String },
    FriendAccept { user_id: String },
    FriendDecline { user_id: String },
    FriendRemove { user_id: String },
    UnblockUser { user_id: String },
    BlockList,
    DmSearch { dm_id: String, query: String },
    PresenceUpdate {
        status: String,
        custom_status: Option<String>,
        activity: Option<String>,
        activity_text: Option<String>,
    },
}

/// Which handler an event goes to.
#[derive(Debug, Clone, Copy, PartialEq, Eq, Structural)]
pub enum EventGroup {
    /// Connection events and voice packets, which the caller handles itself.
    Session,
    /// Channels, messages and direct messages.
    Chat,
    /// Guilds, friends and blocks.
    Social,
    /// Latency, typing and presence.
    Status,
}

/// The group each kind of event belongs to.
pub open spec fn event_group_spec(e: NetEvent) -> EventGroup {
    match e {
        NetEvent::Connected { .. } | NetEvent::Disconnected { .. } | NetEvent::Reconnecting {
            ..
        } | NetEvent::VoicePacket { .. } => EventGroup::Session,
        NetEvent::ChannelState { .. } | NetEvent::ChannelCreated { .. } | NetEvent::ChannelDeleted {
            ..
        } | NetEvent::ChannelListEvent { .. } | NetEvent::ChatMessage { .. } | NetEvent::ChatHistory {
            ..
        } | NetEvent::UserJoin { .. } | NetEvent::UserLeave { .. } | NetEvent::Error { .. }
        | NetEvent::ReactionAdded { .. } | NetEvent::ReactionRemoved { .. }
        | NetEvent::MessageEdited { .. } | NetEvent::MessageDeleted { .. } | NetEvent::DmStart {
            ..
        } | NetEvent::DmMessage { .. } | NetEvent::DmHistory { .. }
        | NetEvent::ReadReceiptBroadcast { .. } | NetEvent::UserColor { .. } => EventGroup::Chat,
        NetEvent::LatencyUpdate { .. } | NetEvent::TypingStart { .. } | NetEvent::PresenceSync {
            ..
        } | NetEvent::PresenceUpdated { .. } => EventGroup::Status,
        _ => EventGroup::Social,
    }
}

/// Classifies an event.
pub fn event_group(e: &NetEvent) -> (g: EventGroup)
    ensures
        g == event_group_spec(*e),
{
    match e {
        NetEvent::Connected { .. } | NetEvent::Disconnected { .. } | NetEvent::Reconnecting {
            ..
        } | NetEvent::VoicePacket { .. } => EventGroup::Session,
        NetEvent::ChannelState { .. } | NetEvent::ChannelCreated { .. } | NetEvent::ChannelDeleted {
            ..
        } | NetEvent::ChannelListEvent { .. } | NetEvent::ChatMessage { .. } | NetEvent::ChatHistory {
            ..
        } | NetEvent::UserJoin { .. } | NetEvent::UserLeave { .. } | NetEvent::Error { .. }
        | NetEvent::ReactionAdded { .. } | NetEvent::ReactionRemoved { .. }
        | NetEvent::MessageEdited { .. } | NetEvent::MessageDeleted { .. } | NetEvent::DmStart {
            ..
        } | NetEvent::DmMessage { .. } | NetEvent::DmHistory { .. }
        | NetEvent::ReadReceiptBroadcast { .. } | NetEvent::UserColor { .. } => EventGroup::Chat,
        NetEvent::LatencyUpdate { .. } | NetEvent::TypingStart { .. } | NetEvent::PresenceSync {
            ..
        } | NetEvent::PresenceUpdated { .. } => EventGroup::Status,
        _ => EventGroup::Social,
    }
}

/// Every kind of event goes to the group whose handler knows it: connection
/// events and voice packets are the caller's; channels, messages, reactions,
/// edits, deletions, direct messages, read receipts and colours are chat;
/// latency, typing and presence are status; guilds, invites, roles, friends
/// and blocks are social.
pub proof fn law_event_groups(e: NetEvent)
    ensures
        (e is Connected || e is Disconnected || e is Reconnecting || e is VoicePacket)
            <==> event_group_spec(e) == EventGroup::Session,
        (e is ChannelState || e is ChannelCreated || e is ChannelDeleted || e is ChannelListEvent
            || e is ChatMessage || e is ChatHistory || e is UserJoin || e is UserLeave || e is Error
            || e is ReactionAdded || e is ReactionRemoved || e is MessageEdited || e is MessageDeleted
            || e is DmStart || e is DmMessage || e is DmHistory || e is ReadReceiptBroadcast
            || e is UserColor) <==> event_group_spec(e) == EventGroup::Chat,
        (e is LatencyUpdate || e is TypingStart || e is PresenceSync || e is PresenceUpdated)
            <==> event_group_spec(e) == EventGroup::Status,
        (e is GuildList || e is GuildCreated || e is GuildDeleted || e is GuildMemberJoined
            || e is GuildMemberLeft || e is GuildMemberKicked || e is InviteCreated
            || e is InviteAccepted || e is InviteDeleted || e is RoleCreated || e is RoleDeleted
            || e is GuildAuditLog || e is GuildMemberList || e is GuildRoleList || e is FriendList
            || e is FriendRequested || e is FriendAccepted || e is FriendRemoved || e is BlockList
            || e is BlockedUser || e is UnblockedUser) <==> event_group_spec(e) == EventGroup::Social,
{
}

} // verus!
