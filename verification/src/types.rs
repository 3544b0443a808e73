//! The client's UI state: connection, voice, chat, social and settings data.

use vstd::prelude::*;

use crate::models::{
    AuditLogEntry, Channel, ChatMessage, DmConversation, FriendState, GuildMemberInfo,
    GuildRoleInfo, GuildState, NodeBookmark, PresenceInfo, default_bookmarks,
};
use crate::strmap::StrMap;
use crate::text::to_string;

verus! {

/// Where the voice pipeline stands, as the UI shows it.
#[derive(Debug, Clone, PartialEq)]
pub enum VoiceUiState {
    Off,
    Active { channel: String },
    Error(String),
}

/// The connection to a server node.
#[derive(Debug, Clone, PartialEq)]
pub enum ConnState {
    Disconnected,
    Connecting,
    Reconnecting { attempt: u32 },
    Connected { session_id: String, node_name: String },
}

/// What the menus, dialogs and tabs hold: which are open, what was typed
/// into them, and what they have already asked the server for.
#[derive(Debug, Clone)]
pub struct Popups {
    /// The message whose context menu was last shown.
    pub context_menu_message_id: Option<String>,
    pub create_channel_open: bool,
    pub create_channel_input: String,
    /// The kind a new channel gets: `text` or `voice`.
    pub create_channel_kind: String,
    pub guild_members_open: bool,
    pub audit_log_open: bool,
    /// The blocked list has been asked for since the client started.
    pub block_list_fetched: bool,
}

/// Everything the client UI shows and edits.
///
/// Times are milliseconds on a clock that the caller supplies.
#[derive(Debug)]
pub struct UiState {
    pub conn: ConnState,
    pub connect_input: String,
    pub bookmarks: Vec<NodeBookmark>,
    pub selected_bookmark: usize,
    pub status_msg: Option<String>,
    pub channels: Vec<Channel>,
    pub active_channel: Option<String>,
    /// The channel the server last put this session in.
    pub server_channel: Option<String>,
    /// Channel id to its messages, oldest first.
    pub messages: StrMap<Vec<ChatMessage>>,
    pub chat_input: String,
    pub scroll_bottom: bool,
    pub voice: VoiceUiState,
    pub voice_joined_at: Option<u64>,
    /// User id to nickname.
    pub user_names: StrMap<String>,
    pub rtt_ms: Option<u32>,
    pub settings_open: bool,
    pub mic_enabled: bool,
    pub deafen: bool,
    pub vad_mode: usize,
    pub packet_interval: usize,
    pub mic_device: usize,
    pub output_device: usize,
    pub auto_reconnect: bool,
    pub private_mode: bool,
    pub guilds: Vec<GuildState>,
    pub active_guild_id: Option<String>,
    /// User id to presence.
    pub presences: StrMap<PresenceInfo>,
    pub friends: Vec<FriendState>,
    pub pending_friend_requests: Vec<FriendState>,
    pub blocked_users: Vec<String>,
    pub dm_conversations: Vec<DmConversation>,
    /// DM id to its messages, oldest first.
    pub dm_messages: StrMap<Vec<ChatMessage>>,
    pub active_dm_id: Option<String>,
    pub new_dm_input: Option<String>,
    /// User id to the colour the server assigned, as six hex digits.
    pub user_colors: StrMap<String>,
    /// Channel id to the names that are typing there and when they started.
    pub typing_users: StrMap<Vec<(String, u64)>>,
    /// Channel id to (user id to last message read).
    pub read_receipts: StrMap<StrMap<String>>,
    pub friends_tab: String,
    pub local_speaking: bool,
    pub remote_speaking: bool,
    pub last_remote_speaker_id: String,
    pub last_voice_packet_ms: u64,
    pub replying_to_message: Option<String>,
    pub replying_to_sender: String,
    pub replying_to_content: String,
    pub editing_message_id: Option<String>,
    pub popups: Popups,
    pub audit_log_guild_id: Option<String>,
    pub audit_log_entries: Vec<AuditLogEntry>,
    pub guild_member_list_guild_id: Option<String>,
    pub guild_member_list: Vec<GuildMemberInfo>,
    pub guild_role_list_guild_id: Option<String>,
    pub guild_role_list: Vec<GuildRoleInfo>,
    pub settings_passphrase_open: bool,
    pub settings_passphrase_input: String,
    pub settings_passphrase_confirm: String,
    pub settings_passphrase_error: Option<String>,
    pub settings_export_open: bool,
    pub settings_export_pass: String,
    pub settings_export_confirm: String,
    pub settings_export_output: Option<String>,
    pub settings_export_error: Option<String>,
    pub settings_import_open: bool,
    pub settings_import_input: String,
    pub settings_import_pass: String,
    pub settings_import_error: Option<String>,
}

impl UiState {
    /// The state of a client that has just started.
    pub open spec fn is_initial(self) -> bool {
        &&& self.conn is Disconnected
        &&& self.connect_input@ == "127.0.0.1:7600"@
        &&& self.bookmarks@.len() == 0
        &&& self.selected_bookmark == 0
        &&& self.status_msg is None
        &&& self.channels@.len() == 0
        &&& self.active_channel is None
        &&& self.server_channel is None
        &&& self.messages@ == Map::<Seq<char>, Vec<ChatMessage>>::empty()
        &&& self.chat_input@.len() == 0
        &&& !self.scroll_bottom
        &&& self.voice is Off
        &&& self.voice_joined_at is None
        &&& self.user_names@ == Map::<Seq<char>, String>::empty()
        &&& self.rtt_ms is None
        &&& !self.settings_open
        &&& self.mic_enabled
        &&& !self.deafen
        &&& self.vad_mode == 0
        &&& self.packet_interval == 1
        &&& self.mic_device == 0
        &&& self.output_device == 0
        &&& self.auto_reconnect
        &&& !self.private_mode
        &&& self.guilds@.len() == 0
        &&& self.active_guild_id is None
        &&& self.presences@ == Map::<Seq<char>, PresenceInfo>::empty()
        &&& self.friends@.len() == 0
        &&& self.pending_friend_requests@.len() == 0
        &&& self.blocked_users@.len() == 0
        &&& self.dm_conversations@.len() == 0
        &&& self.dm_messages@ == Map::<Seq<char>, Vec<ChatMessage>>::empty()
        &&& self.active_dm_id is None
        &&& self.new_dm_input is None
        &&& self.user_colors@ == Map::<Seq<char>, String>::empty()
        &&& self.typing_users@ == Map::<Seq<char>, Vec<(String, u64)>>::empty()
        &&& self.read_receipts@ == Map::<Seq<char>, StrMap<String>>::empty()
        &&& self.friends_tab@ == "all"@
        &&& !self.local_speaking
        &&& !self.remote_speaking
        &&& self.last_remote_speaker_id@.len() == 0
        &&& self.last_voice_packet_ms == 0
        &&& self.replying_to_message is None
        &&& self.replying_to_sender@.len() == 0
        &&& self.replying_to_content@.len() == 0
        &&& self.editing_message_id is None
        &&& self.popups.context_menu_message_id is None
        &&& !self.popups.create_channel_open
        &&& self.popups.create_channel_input@.len() == 0
        &&& self.popups.create_channel_kind@ == "text"@
        &&& !self.popups.guild_members_open
        &&& !self.popups.audit_log_open
        &&& !self.popups.block_list_fetched
        &&& self.audit_log_guild_id is None
        &&& self.audit_log_entries@.len() == 0
        &&& self.guild_member_list_guild_id is None
        &&& self.guild_member_list@.len() == 0
        &&& self.guild_role_list_guild_id is None
        &&& self.guild_role_list@.len() == 0
        &&& !self.settings_passphrase_open
        &&& self.settings_passphrase_input@.len() == 0
        &&& self.settings_passphrase_confirm@.len() == 0
        &&& self.settings_passphrase_error is None
        &&& !self.settings_export_open
        &&& self.settings_export_pass@.len() == 0
        &&& self.settings_export_confirm@.len() == 0
        &&& self.settings_export_output is None
        &&& self.settings_export_error is None
        &&& !self.settings_import_open
        &&& self.settings_import_input@.len() == 0
        &&& self.settings_import_pass@.len() == 0
        &&& self.settings_import_error is None
    }
}

impl Default for UiState {
    /// A disconnected client with the default server address filled in.
    fn default() -> (s: Self)
        ensures
            s.is_initial(),
    {
        UiState {
            conn: ConnState::Disconnected,
            connect_input: to_string("127.0.0.1:7600"),
            bookmarks: default_bookmarks(),
            selected_bookmark: 0,
            status_msg: None,
            channels: Vec::new(),
            active_channel: None,
            server_channel: None,
            messages: StrMap::new(),
            chat_input: String::new(),
            scroll_bottom: false,
            voice: VoiceUiState::Off,
            voice_joined_at: None,
            user_names: StrMap::new(),
            rtt_ms: None,
            settings_open: false,
            mic_enabled: true,
            deafen: false,
            vad_mode: 0,
            packet_interval: 1,
            mic_device: 0,
            output_device: 0,
            auto_reconnect: true,
            private_mode: false,
            guilds: Vec::new(),
            active_guild_id: None,
            presences: StrMap::new(),
            friends: Vec::new(),
            pending_friend_requests: Vec::new(),
            blocked_users: Vec::new(),
            dm_conversations: Vec::new(),
            dm_messages: StrMap::new(),
            active_dm_id: None,
            new_dm_input: None,
            user_colors: StrMap::new(),
            typing_users: StrMap::new(),
            read_receipts: StrMap::new(),
            friends_tab: to_string("all"),
            local_speaking: false,
            remote_speaking: false,
            last_remote_speaker_id: String::new(),
            last_voice_packet_ms: 0,
            replying_to_message: None,
            replying_to_sender: String::new(),
            replying_to_content: String::new(),
            editing_message_id: None,
            popups: Popups {
                context_menu_message_id: None,
                create_channel_open: false,
                create_channel_input: String::new(),
                create_channel_kind: to_string("text"),
                guild_members_open: false,
                audit_log_open: false,
                block_list_fetched: false,
            },
            audit_log_guild_id: None,
            audit_log_entries: Vec::new(),
            guild_member_list_guild_id: None,
            guild_member_list: Vec::new(),
            guild_role_list_guild_id: None,
            guild_role_list: Vec::new(),
            settings_passphrase_open: false,
            settings_passphrase_input: String::new(),
            settings_passphrase_confirm: String::new(),
            settings_passphrase_error: None,
            settings_export_open: false,
            settings_export_pass: String::new(),
            settings_export_confirm: String::new(),
            settings_export_output: None,
            settings_export_error: None,
            settings_import_open: false,
            settings_import_input: String::new(),
            settings_import_pass: String::new(),
            settings_import_error: None,
        }
    }
}

} // verus!
