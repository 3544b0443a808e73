//! When the voice pipeline runs: the decisions around starting and stopping
//! it. The pipeline itself lives with the caller, which reports back.

use vstd::prelude::*;

use crate::chat_channels::channel_has_id;
use crate::seqs::first_index;
use crate::clock::now_ms;
use crate::text::{push_str, to_string};
use crate::types::{ConnState, UiState, VoiceUiState};

verus! {

/// The UI state together with what the caller's voice pipeline is doing.
#[derive(Debug)]
pub struct AppState {
    pub ui: UiState,
    /// Whether an audio pipeline is running.
    pub audio_running: bool,
    /// The channel the pipeline was started for.
    pub voice_channel: Option<String>,
    /// The device and packet settings the running pipeline was started with,
    /// when recorded.
    pub pipeline_settings: Option<PipelineSettings>,
}

/// The device and packet settings a voice pipeline is started with. (The
/// bitrate, a float, is compared by the caller.)
#[derive(Debug, Clone, Copy, PartialEq, Eq, Structural)]
pub struct PipelineSettings {
    pub mic_device: usize,
    pub output_device: usize,
    pub packet_interval: usize,
}

/// The settings now chosen in the UI.
pub open spec fn chosen_settings(ui: UiState) -> PipelineSettings {
    PipelineSettings {
        mic_device: ui.mic_device,
        output_device: ui.output_device,
        packet_interval: ui.packet_interval,
    }
}

/// The settings now chosen in the UI.
pub fn current_settings(ui: &UiState) -> (r: PipelineSettings)
    ensures
        r == chosen_settings(*ui),
{
    PipelineSettings {
        mic_device: ui.mic_device,
        output_device: ui.output_device,
        packet_interval: ui.packet_interval,
    }
}

/// What the caller should do with the voice pipeline.
#[derive(Debug, Clone, PartialEq)]
pub enum VoiceAction {
    /// Nothing runs; the pipeline, if any, has been dropped.
    Stopped,
    /// Voice should run for this channel (see `start_voice`).
    Start(String),
}

/// Whether starting voice for a channel needs a new pipeline.
#[derive(Debug, Clone, Copy, PartialEq, Eq, Structural)]
pub enum VoiceStart {
    /// The pipeline already runs for this channel with these settings.
    Unchanged,
    /// The old pipeline is dropped; the caller starts a new one and reports
    /// with `voice_started` or `voice_failed`.
    Restart,
}

/// The channel that voice should run for: the selected channel, when it is
/// listed and is a voice channel.
pub open spec fn active_voice_channel_spec(ui: UiState) -> Option<Seq<char>> {
    match ui.active_channel {
        Some(id) => {
            let i = first_index(ui.channels@, channel_has_id(id@));
            if i < ui.channels@.len() && ui.channels@[i].kind@ == "voice"@ {
                Some(ui.channels@[i].id@)
            } else {
                None
            }
        },
        None => None,
    }
}

/// `pre` with the voice pipeline dropped and voice off.
pub open spec fn stopped_state(pre: AppState) -> AppState {
    AppState {
        ui: UiState { voice: VoiceUiState::Off, voice_joined_at: None, ..pre.ui },
        audio_running: false,
        voice_channel: None,
        pipeline_settings: None,
    }
}

/// `post` is `pre` with the voice pipeline dropped and voice off.
pub open spec fn stopped(pre: AppState, post: AppState) -> bool {
    post == stopped_state(pre)
}

/// What `sync_voice_audio` does: asks for voice on the active voice channel
/// while connected, and otherwise stops it.
pub open spec fn sync_voice_post(pre: AppState, post: AppState, action: VoiceAction) -> bool {
    match (pre.ui.conn, active_voice_channel_spec(pre.ui)) {
        (ConnState::Connected { .. }, Some(id)) => {
            &&& action matches VoiceAction::Start(c) && c@ == id
            &&& post == pre
        },
        _ => {
            &&& action == VoiceAction::Stopped
            &&& stopped(pre, post)
        },
    }
}

/// Drops the voice pipeline and turns voice off.
pub fn stop_voice(state: &mut AppState)
    ensures
        stopped(*old(state), *final(state)),
{
    state.audio_running = false;
    state.voice_channel = None;
    state.pipeline_settings = None;
    state.ui.voice = VoiceUiState::Off;
    state.ui.voice_joined_at = None;
}

/// Keeps voice in line with the UI: off unless connected and a voice channel
/// is selected; for such a channel it asks the caller to start voice.
pub fn sync_voice_audio(state: &mut AppState) -> (action: VoiceAction)
    ensures
        sync_voice_post(*old(state), *final(state), action),
{
    let connected = match &state.ui.conn {
        ConnState::Connected { .. } => true,
        _ => false,
    };
    if !connected {
        stop_voice(state);
        return VoiceAction::Stopped;
    }
    match state.ui.active_voice_channel_id() {
        Some(id) => VoiceAction::Start(id),
        None => {
            stop_voice(state);
            VoiceAction::Stopped
        },
    }
}

/// What `start_voice` does: with the pipeline already running for the
/// channel, started with the settings now chosen and a bitrate that the
/// caller finds unchanged, nothing; otherwise the old pipeline is dropped and
/// a new one is asked for.
pub open spec fn start_voice_post(
    pre: AppState,
    post: AppState,
    channel_id: Seq<char>,
    bitrate_unchanged: bool,
    r: VoiceStart,
) -> bool {
    let same = pre.voice_channel matches Some(c) && c@ == channel_id;
    if same && pre.audio_running && pre.pipeline_settings == Some(chosen_settings(pre.ui))
        && bitrate_unchanged {
        &&& r == VoiceStart::Unchanged
        &&& post == pre
    } else {
        &&& r == VoiceStart::Restart
        &&& post == (AppState { audio_running: false, ..pre })
    }
}

/// Whether voice for `channel_id` needs a new pipeline; when it does, the
/// old one is dropped first. `bitrate_unchanged` says whether the bitrate now
/// chosen equals the one the running pipeline was started with.
pub fn start_voice(state: &mut AppState, channel_id: &str, bitrate_unchanged: bool) -> (r: VoiceStart)
    ensures
        start_voice_post(*old(state), *final(state), channel_id@, bitrate_unchanged, r),
{
    let same = match &state.voice_channel {
        Some(c) => c.as_str().eq(channel_id),
        None => false,
    };
    let settings_same = match &state.pipeline_settings {
        Some(p) => *p == current_settings(&state.ui),
        None => false,
    };
    if same && state.audio_running && settings_same && bitrate_unchanged {
        return VoiceStart::Unchanged;
    }
    state.audio_running = false;
    VoiceStart::Restart
}

/// What `voice_started` does.
pub open spec fn voice_started_post(pre: AppState, post: AppState, channel_id: Seq<char>, now_ms: u64) -> bool {
    &&& post.voice_channel matches Some(c) && c@ == channel_id
    &&& post.ui.voice matches VoiceUiState::Active { channel } && channel@ == channel_id
    &&& post.ui.voice_joined_at == if pre.ui.voice_joined_at is None {
        Some(now_ms)
    } else {
        pre.ui.voice_joined_at
    }
    &&& post == (AppState {
        ui: UiState {
            voice: post.ui.voice,
            voice_joined_at: post.ui.voice_joined_at,
            status_msg: None,
            ..pre.ui
        },
        audio_running: true,
        voice_channel: post.voice_channel,
        pipeline_settings: Some(chosen_settings(pre.ui)),
    })
}

/// The caller started a pipeline for `channel_id` at `now_ms`: voice is
/// active there, the join time is kept if already set, and the status clears.
pub fn voice_started(state: &mut AppState, channel_id: &str, now_ms: u64)
    ensures
        voice_started_post(*old(state), *final(state), channel_id@, now_ms),
{
    state.audio_running = true;
    state.voice_channel = Some(to_string(channel_id));
    state.pipeline_settings = Some(current_settings(&state.ui));
    state.ui.voice = VoiceUiState::Active { channel: to_string(channel_id) };
    if state.ui.voice_joined_at.is_none() {
        state.ui.voice_joined_at = Some(now_ms);
    }
    state.ui.status_msg = None;
}

/// The caller started a pipeline for `channel_id`: as `voice_started`, the
/// join time (when not already set) read from the wall clock.
pub fn voice_started_now(state: &mut AppState, channel_id: &str)
    ensures
        exists|now_ms: u64| voice_started_post(*old(state), *final(state), channel_id@, now_ms),
{
    let now = if state.ui.voice_joined_at.is_none() {
        now_ms()
    } else {
        0
    };
    voice_started(state, channel_id, now);
    assert(voice_started_post(*old(state), *final(state), channel_id@, now));
}

/// The caller could not start a pipeline: voice shows the error, and so does
/// the status line.
pub fn voice_failed(state: &mut AppState, error: &str)
    ensures
        final(state).ui.voice matches VoiceUiState::Error(e) && e@ == error@,
        final(state).ui.status_msg matches Some(s) && s@ == "microphone error: "@ + error@,
        *final(state) == (AppState {
            ui: UiState {
                voice: final(state).ui.voice,
                status_msg: final(state).ui.status_msg,
                ..old(state).ui
            },
            voice_channel: None,
            pipeline_settings: None,
            ..*old(state)
        }),
{
    state.voice_channel = None;
    state.pipeline_settings = None;
    state.ui.voice = VoiceUiState::Error(to_string(error));
    let mut s = to_string("microphone error: ");
    push_str(&mut s, error);
    state.ui.status_msg = Some(s);
}

impl UiState {
    /// The id of the channel voice should run for, if any.
    pub fn active_voice_channel_id(&self) -> (r: Option<String>)
        ensures
            match r {
                Some(id) => active_voice_channel_spec(*self) == Some(id@),
                None => active_voice_channel_spec(*self) is None,
            },
    {
        match &self.active_channel {
            Some(id) => {
                let i = crate::chat_channels::find_channel(&self.channels, id);
                if i < self.channels.len() && self.channels[i].kind.as_str().eq("voice") {
                    Some(self.channels[i].id.clone())
                } else {
                    None
                }
            },
            None => None,
        }
    }
}

/// `start_voice` keeps the running pipeline only when it runs for that
/// channel, the bitrate is unchanged, and the recorded microphone, output
/// device and packet interval are each the one now chosen; in every other
/// case the pipeline is dropped for a new one.
pub proof fn law_start_voice_keeps_only_same_settings(
    pre: AppState,
    post: AppState,
    channel_id: Seq<char>,
    bitrate_unchanged: bool,
    r: VoiceStart,
)
    requires
        start_voice_post(pre, post, channel_id, bitrate_unchanged, r),
    ensures
        r == VoiceStart::Unchanged <==> ({
            &&& pre.voice_channel matches Some(c) && c@ == channel_id
            &&& pre.audio_running
            &&& bitrate_unchanged
            &&& pre.pipeline_settings matches Some(p) && p.mic_device == pre.ui.mic_device
                && p.output_device == pre.ui.output_device && p.packet_interval
                == pre.ui.packet_interval
        }),
        r == VoiceStart::Unchanged ==> post == pre,
        r == VoiceStart::Restart ==> !post.audio_running,
{
}

/// A started pipeline records the microphone, output device and packet
/// interval chosen when it started.
pub proof fn law_started_pipeline_records_settings(
    pre: AppState,
    post: AppState,
    channel_id: Seq<char>,
    now_ms: u64,
)
    requires
        voice_started_post(pre, post, channel_id, now_ms),
    ensures
        post.pipeline_settings matches Some(p) && p.mic_device == pre.ui.mic_device && p.output_device
            == pre.ui.output_device && p.packet_interval == pre.ui.packet_interval,
        post.audio_running,
{
}

} // verus!
