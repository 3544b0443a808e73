use vnox_ui::events::{NetCommand, NetEvent};
use vnox_ui::types::{ConnState, UiState, VoiceUiState};
use vnox_ui::voice::{
    start_voice, stop_voice, sync_voice_audio, voice_failed, voice_started, voice_started_now,
    AppState, VoiceAction, VoiceStart,
};

fn s(x: &str) -> String {
    x.to_string()
}

fn app() -> AppState {
    AppState {
        ui: UiState::default(),
        audio_running: false,
        voice_channel: None,
        pipeline_settings: None,
    }
}

fn connected(restored: bool) -> NetEvent {
    NetEvent::Connected {
        session_id: s("sess"),
        node_name: s("node"),
        restored,
        private_mode: true,
    }
}

#[test]
fn fresh_connection_seeds_channels_and_joins_general() {
    let mut st = app();
    let out = st.handle_event(connected(false));
    assert!(matches!(st.ui.conn, ConnState::Connected { .. }));
    assert!(st.ui.private_mode);
    assert_eq!(st.ui.channels.len(), 5);
    assert_eq!(st.ui.channels[0].id, "general");
    assert_eq!(st.ui.active_channel.as_deref(), Some("general"));
    assert!(st.ui.status_msg.is_none());
    assert!(!out.play_voice);
    match out.command {
        Some(NetCommand::JoinChannel { channel_id }) => assert_eq!(channel_id, "general"),
        other => panic!("unexpected {other:?}"),
    }
}

#[test]
fn restored_connection_rejoins_active_channel() {
    let mut st = app();
    st.ui.active_channel = Some(s("dev-talk"));
    let out = st.handle_event(connected(true));
    assert_eq!(st.ui.status_msg.as_deref(), Some("reconnected"));
    assert!(st.ui.channels.is_empty());
    match out.command {
        Some(NetCommand::JoinChannel { channel_id }) => assert_eq!(channel_id, "dev-talk"),
        other => panic!("unexpected {other:?}"),
    }
    let mut st2 = app();
    let out2 = st2.handle_event(connected(true));
    assert!(out2.command.is_none());
}

#[test]
fn drop_with_retry_keeps_channels() {
    let mut st = app();
    st.handle_event(connected(false));
    st.audio_running = true;
    st.voice_channel = Some(s("lobby"));
    st.ui.voice = VoiceUiState::Active { channel: s("lobby") };
    let out = st.handle_event(NetEvent::Disconnected { reason: s("timeout"), will_retry: true });
    assert!(out.command.is_none());
    assert!(!st.audio_running);
    assert!(st.voice_channel.is_none());
    assert_eq!(st.ui.voice, VoiceUiState::Off);
    assert_eq!(st.ui.status_msg.as_deref(), Some("connection lost: timeout"));
    assert_eq!(st.ui.channels.len(), 5);
    assert!(matches!(st.ui.conn, ConnState::Connected { .. }));
}

#[test]
fn final_drop_forgets_session() {
    let mut st = app();
    st.handle_event(connected(false));
    st.ui.rtt_ms = Some(20);
    st.handle_event(NetEvent::Disconnected { reason: s("bye"), will_retry: false });
    assert_eq!(st.ui.conn, ConnState::Disconnected);
    assert!(st.ui.channels.is_empty());
    assert!(st.ui.active_channel.is_none());
    assert!(st.ui.rtt_ms.is_none());
    assert!(!st.ui.private_mode);
    assert_eq!(st.ui.status_msg.as_deref(), Some("disconnected: bye"));
}

#[test]
fn reconnecting_reports_attempt() {
    let mut st = app();
    st.audio_running = true;
    st.handle_event(NetEvent::Reconnecting { attempt: 3, delay_secs: 8 });
    assert_eq!(st.ui.conn, ConnState::Reconnecting { attempt: 3 });
    assert_eq!(st.ui.status_msg.as_deref(), Some("reconnecting in 8s (attempt 3)"));
    assert!(!st.audio_running);
}

#[test]
fn voice_packets_are_played_unless_deafened() {
    let mut st = app();
    st.audio_running = true;
    let out = st.handle_event(NetEvent::VoicePacket { channel_id: s("v"), sender_id: s("peer") });
    assert!(out.play_voice);
    assert_eq!(st.ui.last_remote_speaker_id, "peer");
    assert!(st.ui.last_voice_packet_ms > 0);
    st.ui.deafen = true;
    let out = st.handle_event(NetEvent::VoicePacket { channel_id: s("v"), sender_id: s("") });
    assert!(!out.play_voice);
    assert_eq!(st.ui.last_remote_speaker_id, "peer");
    st.ui.deafen = false;
    st.audio_running = false;
    let out = st.handle_event(NetEvent::VoicePacket { channel_id: s("v"), sender_id: s("x") });
    assert!(!out.play_voice);
}

#[test]
fn take_event_uses_given_id_and_time() {
    let mut st = app();
    st.take_event(
        NetEvent::DmMessage { dm_id: s("d"), sender_id: s("u"), content: s("c"), timestamp: 3 },
        s("my-id"),
        77,
    );
    assert_eq!(st.ui.dm_messages.get("d").unwrap()[0].message_id, "my-id");
    st.take_event(NetEvent::VoicePacket { channel_id: s("v"), sender_id: s("p") }, s(""), 1234);
    assert_eq!(st.ui.last_voice_packet_ms, 1234);
}

#[test]
fn speaking_indicators() {
    let mut st = app();
    st.ui.last_remote_speaker_id = s("p");
    st.refresh_speaking(true, true);
    assert!(!st.ui.local_speaking);
    assert!(!st.ui.remote_speaking);
    assert_eq!(st.ui.last_remote_speaker_id, "");
    st.audio_running = true;
    st.ui.last_remote_speaker_id = s("p");
    st.refresh_speaking(true, true);
    assert!(st.ui.local_speaking);
    assert!(st.ui.remote_speaking);
    assert_eq!(st.ui.last_remote_speaker_id, "p");
}

#[test]
fn sync_voice_follows_selected_voice_channel() {
    let mut st = app();
    assert_eq!(sync_voice_audio(&mut st), VoiceAction::Stopped);
    st.handle_event(connected(false));
    // "general" is a text channel.
    assert_eq!(sync_voice_audio(&mut st), VoiceAction::Stopped);
    st.ui.active_channel = Some(s("lobby"));
    assert_eq!(sync_voice_audio(&mut st), VoiceAction::Start(s("lobby")));
    st.ui.active_channel = Some(s("missing"));
    assert_eq!(sync_voice_audio(&mut st), VoiceAction::Stopped);
}

#[test]
fn start_and_stop_voice() {
    let mut st = app();
    st.ui.status_msg = Some(s("old"));
    assert_eq!(start_voice(&mut st, "v", true), VoiceStart::Restart);
    voice_started(&mut st, "v", 500);
    assert!(st.audio_running);
    assert_eq!(st.voice_channel.as_deref(), Some("v"));
    assert_eq!(st.ui.voice, VoiceUiState::Active { channel: s("v") });
    assert_eq!(st.ui.voice_joined_at, Some(500));
    assert!(st.ui.status_msg.is_none());
    assert_eq!(start_voice(&mut st, "v", true), VoiceStart::Unchanged);
    assert_eq!(start_voice(&mut st, "v", false), VoiceStart::Restart);
    assert!(!st.audio_running);
    voice_started(&mut st, "v", 900);
    assert_eq!(st.ui.voice_joined_at, Some(500));
    stop_voice(&mut st);
    assert!(!st.audio_running);
    assert!(st.voice_channel.is_none());
    assert_eq!(st.ui.voice, VoiceUiState::Off);
    assert!(st.ui.voice_joined_at.is_none());
    stop_voice(&mut st);
    assert_eq!(st.ui.voice, VoiceUiState::Off);
}

#[test]
fn voice_failure_is_reported() {
    let mut st = app();
    voice_failed(&mut st, "no device");
    assert_eq!(st.ui.voice, VoiceUiState::Error(s("no device")));
    assert_eq!(st.ui.status_msg.as_deref(), Some("microphone error: no device"));
    assert!(st.voice_channel.is_none());
}

#[test]
fn voice_started_reads_clock_once() {
    let mut st = app();
    voice_started_now(&mut st, "lobby");
    let t = st.ui.voice_joined_at.unwrap();
    assert!(t > 1_000_000_000_000);
    voice_started_now(&mut st, "lobby");
    assert_eq!(st.ui.voice_joined_at, Some(t));
    assert!(st.audio_running);
}

#[test]
fn second_sync_keeps_the_running_pipeline() {
    let mut st = app();
    st.handle_event(connected(false));
    st.ui.active_channel = Some(s("lobby"));
    assert_eq!(sync_voice_audio(&mut st), VoiceAction::Start(s("lobby")));
    assert_eq!(start_voice(&mut st, "lobby", true), VoiceStart::Restart);
    voice_started(&mut st, "lobby", 100);
    assert_eq!(sync_voice_audio(&mut st), VoiceAction::Start(s("lobby")));
    assert_eq!(start_voice(&mut st, "lobby", true), VoiceStart::Unchanged);
    assert!(st.audio_running);
    assert_eq!(st.ui.voice_joined_at, Some(100));
}

#[test]
fn changed_devices_restart_the_pipeline() {
    let mut st = app();
    assert_eq!(start_voice(&mut st, "v", true), VoiceStart::Restart);
    voice_started(&mut st, "v", 1);
    assert_eq!(start_voice(&mut st, "v", true), VoiceStart::Unchanged);
    st.ui.mic_device = 2;
    assert_eq!(start_voice(&mut st, "v", true), VoiceStart::Restart);
    voice_started(&mut st, "v", 2);
    assert_eq!(start_voice(&mut st, "v", true), VoiceStart::Unchanged);
    st.ui.packet_interval = 3;
    assert_eq!(start_voice(&mut st, "v", true), VoiceStart::Restart);
}
