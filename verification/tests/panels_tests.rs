use vnox_ui::panels::rtt_text;
use vnox_ui::theme::{rtt_color, Color};
use vnox_ui::models::{ChatMessage, DmConversation, FriendState, GuildState, NodeBookmark, PresenceInfo};
use vnox_ui::panels::{message_items, MainView};
use vnox_ui::strmap::StrMap;
use vnox_ui::types::{ConnState, UiState, VoiceUiState};

fn s(x: &str) -> String {
    x.to_string()
}

fn presence(id: &str, status: &str) -> PresenceInfo {
    PresenceInfo { user_id: s(id), status: s(status), custom_status: None, activity: None, activity_text: None }
}

#[test]
fn member_rows_resolve_ids_and_statuses() {
    let mut ui = UiState::default();
    ui.seed_default_channels();
    ui.channels[0].members = vec![s("ann"), s("ghost")];
    ui.user_names.insert(s("u1"), s("ann"));
    ui.presences.insert(s("u1"), presence("u1", "idle"));
    let rows = ui.channel_members(&s("general")).unwrap();
    assert_eq!(rows.len(), 2);
    assert_eq!(rows[0].user_id, "u1");
    assert_eq!(rows[0].nickname, "ann");
    assert_eq!(rows[0].status, "idle");
    assert_eq!(rows[1].user_id, "ghost");
    assert_eq!(rows[1].status, "offline");
    assert!(ui.channel_members(&s("nope")).is_none());
}

#[test]
fn channel_and_bookmark_rows() {
    let mut ui = UiState::default();
    ui.seed_default_channels();
    let rows = ui.channel_items();
    assert_eq!(rows.len(), 5);
    assert_eq!(rows[3].channel_id, "lobby");
    assert_eq!(rows[3].kind, "voice");
    ui.bookmarks = vec![NodeBookmark { label: s("home"), address: s("home:1") }];
    let b = ui.bookmark_items();
    assert_eq!(b[0].name, "home");
    assert_eq!(b[0].address, "home:1");
}

#[test]
fn guild_rows_and_selection() {
    let mut ui = UiState::default();
    ui.guilds = vec![
        GuildState { guild_id: s("g1"), name: s("Rustaceans"), owner_id: s("o"), member_count: 1 },
        GuildState { guild_id: s("g2"), name: s("X"), owner_id: s("o"), member_count: 1 },
        GuildState { guild_id: s("g3"), name: s("éclair"), owner_id: s("o"), member_count: 1 },
    ];
    assert_eq!(ui.active_guild_index(), -1);
    ui.active_guild_id = Some(s("g2"));
    let rows = ui.guild_items();
    assert_eq!(rows[0].short_name, "Ru");
    assert_eq!(rows[1].short_name, "X");
    assert_eq!(rows[2].short_name, "é");
    assert!(!rows[0].selected);
    assert!(rows[1].selected);
    assert_eq!(ui.active_guild_index(), 1);
    ui.active_guild_id = Some(s("missing"));
    assert_eq!(ui.active_guild_index(), -1);
}

#[test]
fn dms_shown_without_guild() {
    let mut ui = UiState::default();
    assert!(!ui.show_dms());
    ui.dm_conversations.push(DmConversation {
        dm_id: s("d"),
        other_user_id: s("u"),
        other_nickname: s("n"),
        unread_count: 0,
        e2ee_enabled: false,
        e2ee_peer_public_key: None,
        e2ee_shared_secret: None,
    });
    assert!(ui.show_dms());
    ui.active_guild_id = Some(s("g"));
    assert!(!ui.show_dms());
}

#[test]
fn main_views() {
    let mut ui = UiState::default();
    assert_eq!(ui.main_view(), MainView::Friends);
    ui.seed_default_channels();
    ui.active_channel = Some(s("general"));
    assert_eq!(ui.main_view(), MainView::Text);
    ui.active_channel = Some(s("gaming"));
    assert_eq!(ui.main_view(), MainView::Voice);
    ui.active_channel = Some(s("zzz"));
    assert_eq!(ui.main_view(), MainView::Unchanged);
}

#[test]
fn friend_rows() {
    let mut ui = UiState::default();
    ui.friends = vec![
        FriendState { user_id: s("a"), nickname: s("A"), status: s("x"), since: 0 },
        FriendState { user_id: s("b"), nickname: s("B"), status: s("x"), since: 0 },
    ];
    ui.pending_friend_requests = vec![FriendState { user_id: s("c"), nickname: s("C"), status: s("offline"), since: 0 }];
    ui.presences.insert(s("b"), presence("b", "dnd"));
    let f = ui.friend_items();
    assert_eq!(f[0].status, "offline");
    assert_eq!(f[1].status, "dnd");
    let p = ui.pending_items();
    assert_eq!(p[0].nickname, "C");
    assert_eq!(p[0].status, "pending");
}

#[test]
fn connection_rows() {
    let mut ui = UiState::default();
    assert!(!ui.is_connecting());
    assert_eq!(ui.node_name(), "");
    ui.conn = ConnState::Reconnecting { attempt: 1 };
    assert!(ui.is_connecting());
    ui.conn = ConnState::Connected { session_id: s("s"), node_name: s("alpha") };
    assert!(!ui.is_connecting());
    assert_eq!(ui.node_name(), "alpha");
}

#[test]
fn voice_panel_rows() {
    let mut ui = UiState::default();
    ui.seed_default_channels();
    ui.channels[3].members = vec![s("ann"), s("bob")];
    ui.user_names.insert(s("u1"), s("ann"));
    assert!(ui.voice_members().is_empty());
    assert!(ui.voice_channel_name().is_none());
    ui.voice = VoiceUiState::Active { channel: s("lobby") };
    ui.last_remote_speaker_id = s("u1");
    let v = ui.voice_members();
    assert_eq!(v.len(), 2);
    assert_eq!(v[0].user_id, "u1");
    assert!(v[0].speaking);
    assert_eq!(v[1].user_id, "bob");
    assert!(!v[1].speaking);
    assert_eq!(ui.voice_channel_name().as_deref(), Some("lobby"));
}

#[test]
fn activity_banners() {
    let mut ui = UiState::default();
    assert_eq!(ui.activity_banner(), "");
    ui.remote_speaking = true;
    ui.last_remote_speaker_id = s("u1");
    assert_eq!(ui.activity_banner(), "u1 is talking");
    ui.user_names.insert(s("u1"), s("ann"));
    assert_eq!(ui.activity_banner(), "ann is talking");
    ui.local_speaking = true;
    assert_eq!(ui.activity_banner(), "you and others are talking");
    ui.remote_speaking = false;
    assert_eq!(ui.activity_banner(), "you are talking");
}

#[test]
fn message_rows() {
    let msgs = vec![
        ChatMessage {
            message_id: s("m1"),
            sender_id: s("me"),
            content: s("hi"),
            timestamp: 3_600_000,
            edited: true,
            reactions: StrMap::new(),
            reply_to: Some(s("m0")),
        },
        ChatMessage {
            message_id: s("m2"),
            sender_id: s("you"),
            content: s("yo"),
            timestamp: 0,
            edited: false,
            reactions: StrMap::new(),
            reply_to: None,
        },
    ];
    let rows = message_items(&msgs, "me");
    assert_eq!(rows[0].timestamp, "01:00");
    assert!(rows[0].is_own);
    assert!(rows[0].edited);
    assert_eq!(rows[0].reply_to, "m0");
    assert_eq!(rows[0].sender_name, "me");
    assert!(!rows[1].is_own);
    assert_eq!(rows[1].reply_to, "");
}

#[test]
fn titles_follow_connection_and_guild() {
    let mut ui = UiState::default();
    assert_eq!(ui.sidebar_title(), "not connected");
    assert_eq!(ui.window_title(), "VNOX  \u{b7}  offline");
    assert_eq!(ui.transport_label(), "idle");
    ui.conn = ConnState::Connecting;
    assert_eq!(ui.sidebar_title(), "connecting\u{2026}");
    assert_eq!(ui.window_title(), "VNOX  \u{b7}  connecting\u{2026}");
    ui.conn = ConnState::Reconnecting { attempt: 12 };
    assert_eq!(ui.sidebar_title(), "reconnect #12");
    assert_eq!(ui.window_title(), "VNOX  \u{b7}  reconnect #12");
    assert_eq!(ui.transport_label(), "reconnecting\u{2026}");
    ui.conn = ConnState::Connected { session_id: s("s"), node_name: s("alpha") };
    assert_eq!(ui.sidebar_title(), "alpha");
    assert_eq!(ui.window_title(), "VNOX  \u{b7}  alpha");
    assert_eq!(ui.transport_label(), "quic/v1");
    ui.guilds = vec![GuildState { guild_id: s("g"), name: s("Guild"), owner_id: s("o"), member_count: 1 }];
    ui.active_guild_id = Some(s("g"));
    assert_eq!(ui.sidebar_title(), "Guild");
    ui.active_guild_id = Some(s("gone"));
    assert_eq!(ui.sidebar_title(), "alpha");
}

#[test]
fn round_trip_times() {
    assert_eq!(rtt_text(42), "42 ms");
    assert_eq!(rtt_text(0), "0 ms");
    assert_eq!(rtt_color(79), Color { r: 80, g: 180, b: 90, a: 255 });
    assert_eq!(rtt_color(80), Color { r: 220, g: 170, b: 60, a: 255 });
    assert_eq!(rtt_color(200), Color { r: 210, g: 90, b: 80, a: 255 });
}
