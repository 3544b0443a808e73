//! Properties that hold across the event handlers.

use vstd::prelude::*;

use crate::chat_channels::{apply_channel_created_post, apply_channel_deleted_post, channel_has_id};
use crate::chat_messages::{
    apply_message_deleted_post, apply_reaction_added_post, apply_reaction_removed_post,
    list_or_empty, msg_has_id, parse_hex_color_spec,
};
use crate::compose::{bookmark_has_address, connect_to_post};
use crate::events::{NetCommand, NetEvent};
use crate::format::fmt_ts_spec;
use crate::models::{Channel, ChatMessage, FriendState};
use crate::poll::{net_event_post, take_event_post, EventOutcome};
use crate::seqs::{
    distinct_by, first_index, lemma_filter_all, lemma_filter_distinct, lemma_first_index,
    lemma_first_index_props,
};
use crate::social::{
    apply_blocked_user_post, apply_friend_accepted_post, apply_guild_member_joined_post,
    apply_guild_member_left_post, apply_unblocked_user_post, friend_has_id, guild_has_id,
    has_string,
};
use crate::status::{apply_typing_start_post, handle_disconnected_post};
use crate::state::has_bookmark_address;
use crate::types::{UiState, VoiceUiState};
use crate::view::{typing_fresh, typing_notice_post};
use crate::voice::{
    active_voice_channel_spec, start_voice_post, stopped, sync_voice_post, voice_started_post, AppState,
    VoiceAction, VoiceStart,
};

verus! {

broadcast use vstd::seq_lib::group_filter_ensures;

/// The text of a string.
pub open spec fn string_key() -> spec_fn(String) -> Seq<char> {
    |s: String| s@
}

/// The id of a channel.
pub open spec fn channel_key() -> spec_fn(Channel) -> Seq<char> {
    |c: Channel| c.id@
}

/// The user id of a friend entry.
pub open spec fn friend_key() -> spec_fn(FriendState) -> Seq<char> {
    |f: FriendState| f.user_id@
}

/// Blocking a user lists them, and lists every user at most once if that held
/// before.
pub proof fn law_block_lists_once(pre: UiState, post: UiState, user_id: String)
    requires
        distinct_by(pre.blocked_users@, string_key()),
        apply_blocked_user_post(pre, post, user_id),
    ensures
        distinct_by(post.blocked_users@, string_key()),
        has_string(post.blocked_users@, user_id@),
{
    let b = pre.blocked_users@;
    if !has_string(b, user_id@) {
        let a = post.blocked_users@;
        assert(a[b.len() as int] == user_id);
        assert forall|i: int, j: int| 0 <= i < j < a.len() implies string_key()(
            #[trigger] a[i],
        ) != string_key()(#[trigger] a[j]) by {
            assert(a[i] == b[i]);
            if j < b.len() {
                assert(a[j] == b[j]);
            } else {
                assert(b[i]@ != user_id@);
            }
        }
    }
}

/// Unblocking a user leaves them off the list, and keeps every other user
/// listed at most once.
pub proof fn law_unblock_removes(pre: UiState, post: UiState, user_id: String)
    requires
        distinct_by(pre.blocked_users@, string_key()),
        apply_unblocked_user_post(pre, post, user_id),
    ensures
        distinct_by(post.blocked_users@, string_key()),
        !has_string(post.blocked_users@, user_id@),
{
    let p = |u: String| u@ != user_id@;
    let b = pre.blocked_users@;
    lemma_filter_distinct(b, p, string_key());
    if has_string(post.blocked_users@, user_id@) {
        let i = choose|i: int|
            0 <= i < post.blocked_users@.len() && #[trigger] post.blocked_users@[i]@ == user_id@;
        assert(p(b.filter(p)[i]));
    }
}

/// Blocking a user who was not blocked and then unblocking them gives back
/// the list as it was.
pub proof fn law_block_then_unblock(s0: UiState, s1: UiState, s2: UiState, user_id: String)
    requires
        !has_string(s0.blocked_users@, user_id@),
        apply_blocked_user_post(s0, s1, user_id),
        apply_unblocked_user_post(s1, s2, user_id),
    ensures
        s2.blocked_users@ == s0.blocked_users@,
        s2 == (UiState { blocked_users: s2.blocked_users, ..s0 }),
{
    let p = |u: String| u@ != user_id@;
    let b = s0.blocked_users@;
    assert forall|i: int| 0 <= i < b.len() implies p(#[trigger] b[i]) by {
        if b[i]@ == user_id@ {
            assert(has_string(b, user_id@));
        }
    }
    lemma_filter_all(b, p);
    b.lemma_filter_push(user_id, p);
}

/// Accepting a friend request makes the user a friend, listed at most once if
/// every friend was listed at most once before, and no longer pending.
pub proof fn law_friend_accepted(
    pre: UiState,
    post: UiState,
    user_id: String,
    nickname: String,
    now_ms: i64,
)
    requires
        distinct_by(pre.friends@, friend_key()),
        apply_friend_accepted_post(pre, post, user_id, nickname, now_ms),
    ensures
        distinct_by(post.friends@, friend_key()),
        exists|i: int| 0 <= i < post.friends@.len() && #[trigger] post.friends@[i].user_id@ == user_id@,
        forall|i: int|
            0 <= i < post.pending_friend_requests@.len()
                ==> #[trigger] post.pending_friend_requests@[i].user_id@ != user_id@,
{
    let fs = pre.friends@;
    let pr = |f: FriendState| f.user_id@ != user_id@;
    lemma_first_index_props(fs, friend_has_id(user_id@));
    let k = first_index(fs, friend_has_id(user_id@));
    if k < fs.len() {
        assert(post.friends@[k].user_id@ == user_id@);
    } else {
        let a = post.friends@;
        assert(a[fs.len() as int].user_id@ == user_id@);
        assert forall|i: int, j: int| 0 <= i < j < a.len() implies friend_key()(
            #[trigger] a[i],
        ) != friend_key()(#[trigger] a[j]) by {
            assert(a.take(fs.len() as int)[i] == a[i]);
            if j < fs.len() {
                assert(a.take(fs.len() as int)[j] == a[j]);
            } else {
                assert(!friend_has_id(user_id@)(fs[i]));
            }
        }
    }
}

/// A created channel is listed afterwards, and channel ids stay distinct.
pub proof fn law_channel_created(
    pre: UiState,
    post: UiState,
    channel_id: String,
    channel_name: String,
    kind: String,
)
    requires
        distinct_by(pre.channels@, channel_key()),
        apply_channel_created_post(pre, post, channel_id, channel_name, kind),
    ensures
        distinct_by(post.channels@, channel_key()),
        first_index(post.channels@, channel_has_id(channel_id@)) < post.channels@.len(),
{
    let cs = pre.channels@;
    let n = cs.len();
    lemma_first_index_props(cs, channel_has_id(channel_id@));
    if first_index(cs, channel_has_id(channel_id@)) >= n {
        let a = post.channels@;
        assert(a[n as int].id@ == channel_id@);
        assert forall|i: int, j: int| 0 <= i < j < a.len() implies channel_key()(
            #[trigger] a[i],
        ) != channel_key()(#[trigger] a[j]) by {
            assert(a.take(n as int)[i] == a[i]);
            if j < n {
                assert(a.take(n as int)[j] == a[j]);
            } else {
                assert(!channel_has_id(channel_id@)(cs[i]));
            }
        }
        lemma_first_index_props(a, channel_has_id(channel_id@));
        assert(channel_has_id(channel_id@)(a[n as int]));
    }
}

/// A channel created twice is listed once: the second creation changes
/// nothing.
pub proof fn law_channel_created_twice(
    s0: UiState,
    s1: UiState,
    s2: UiState,
    channel_id: String,
    channel_name: String,
    kind: String,
)
    requires
        apply_channel_created_post(s0, s1, channel_id, channel_name, kind),
        apply_channel_created_post(s1, s2, channel_id, channel_name, kind),
    ensures
        s2 == s1,
{
    let cs = s0.channels@;
    lemma_first_index_props(cs, channel_has_id(channel_id@));
    if first_index(cs, channel_has_id(channel_id@)) >= cs.len() {
        let a = s1.channels@;
        lemma_first_index_props(a, channel_has_id(channel_id@));
        assert(channel_has_id(channel_id@)(a[cs.len() as int]));
    }
}

/// After a channel is deleted no channel has its id, the selection no longer
/// points at it, and its messages are gone.
pub proof fn law_channel_deleted(pre: UiState, post: UiState, channel_id: String)
    requires
        apply_channel_deleted_post(pre, post, channel_id),
    ensures
        forall|i: int| 0 <= i < post.channels@.len() ==> #[trigger] post.channels@[i].id@ != channel_id@,
        !(post.active_channel matches Some(a) && a@ == channel_id@),
        !post.messages@.dom().contains(channel_id@),
{
    let p = |c: Channel| c.id@ != channel_id@;
    if post.channels@.len() > 0 {
        assert(p(post.channels@[0]));
    }
}

/// The users behind each reaction, by emoji.
pub open spec fn reaction_lists(m: Map<Seq<char>, Vec<String>>) -> Map<Seq<char>, Seq<String>> {
    m.map_values(|v: Vec<String>| v@)
}

/// Two message lists that differ at most in which reaction objects hold the
/// same lists of users.
pub open spec fn same_but_reaction_storage(a: Seq<ChatMessage>, b: Seq<ChatMessage>) -> bool {
    &&& a.len() == b.len()
    &&& forall|j: int|
        0 <= j < a.len() ==> {
            &&& #[trigger] a[j] == (ChatMessage { reactions: a[j].reactions, ..b[j] })
            &&& reaction_lists(a[j].reactions@) == reaction_lists(b[j].reactions@)
        }
}

/// A reaction added by a user who had not reacted with that emoji on the
/// target message, then removed, leaves every message as it was (reaction
/// lists compared by their users), given that the target message did not keep
/// that emoji with nobody behind it.
pub proof fn law_reaction_added_then_removed(
    s0: UiState,
    s1: UiState,
    s2: UiState,
    channel_id: String,
    message_id: String,
    user_id: String,
    emoji: String,
)
    requires
        s0.messages@.dom().contains(channel_id@) ==> ({
            let m0 = s0.messages@[channel_id@]@;
            let i = first_index(m0, msg_has_id(message_id@));
            i < m0.len() ==> {
                &&& !has_string(list_or_empty(m0[i].reactions@, emoji@), user_id@)
                &&& (m0[i].reactions@.dom().contains(emoji@) ==> m0[i].reactions@[emoji@]@.len() > 0)
            }
        }),
        apply_reaction_added_post(s0, s1, channel_id, message_id, user_id, emoji),
        apply_reaction_removed_post(s1, s2, channel_id, message_id, user_id, emoji),
    ensures
        s2.messages@.dom() == s0.messages@.dom(),
        forall|k: Seq<char>|
            k != channel_id@ && s0.messages@.dom().contains(k) ==> #[trigger] s2.messages@[k]
                == s0.messages@[k],
        s0.messages@.dom().contains(channel_id@) ==> same_but_reaction_storage(
            s2.messages@[channel_id@]@,
            s0.messages@[channel_id@]@,
        ),
        s2 == (UiState { messages: s2.messages, ..s0 }),
{
    let had = s0.messages@.dom().contains(channel_id@);
    let m0 = s0.messages@[channel_id@]@;
    let p = msg_has_id(message_id@);
    let i = first_index(m0, p);
    lemma_first_index_props(m0, p);
    if had && i < m0.len() {
        let m1 = s1.messages@[channel_id@]@;
        let r0 = m0[i].reactions@;
        let r1 = m1[i].reactions@;
        assert forall|k: int| 0 <= k < i implies !p(#[trigger] m1[k]) by {
            assert(m1[k] == m0[k]);
        }
        assert(m1[i].message_id == m0[i].message_id);
        lemma_first_index(m1, p, i);
        assert(r1.dom().contains(emoji@));
        let l0 = list_or_empty(r0, emoji@);
        let q = |u: String| u@ != user_id@;
        assert forall|k: int| 0 <= k < l0.len() implies q(#[trigger] l0[k]) by {
            if l0[k]@ == user_id@ {
                assert(has_string(l0, user_id@));
            }
        }
        lemma_filter_all(l0, q);
        l0.lemma_filter_push(user_id, q);
        assert(r1[emoji@]@.filter(q) == l0);
        let m2 = s2.messages@[channel_id@]@;
        let r2 = m2[i].reactions@;
        if r0.dom().contains(emoji@) {
            assert(l0.len() > 0);
            assert(reaction_lists(r2) =~= reaction_lists(r0));
        } else {
            assert(l0.len() == 0);
            assert(r2 =~= r0);
        }
        assert forall|j: int| 0 <= j < m2.len() implies {
            &&& #[trigger] m2[j] == (ChatMessage { reactions: m2[j].reactions, ..m0[j] })
            &&& reaction_lists(m2[j].reactions@) == reaction_lists(m0[j].reactions@)
        } by {
            if j != i {
                assert(m2[j] == m1[j]);
                assert(m1[j] == m0[j]);
            }
        }
        assert(s2.messages@ =~= s0.messages@.insert(channel_id@, s2.messages@[channel_id@]));
    } else {
        if had {
            assert forall|j: int| 0 <= j < m0.len() implies {
                &&& #[trigger] m0[j] == (ChatMessage { reactions: m0[j].reactions, ..m0[j] })
                &&& reaction_lists(m0[j].reactions@) == reaction_lists(m0[j].reactions@)
            } by {}
        }
    }
}

/// A member joining a guild and then leaving it gives back the guild list as
/// it was, unless the member count was at the largest `u32`.
pub proof fn law_member_joined_then_left(s0: UiState, s1: UiState, s2: UiState, guild_id: String)
    requires
        ({
            let i = first_index(s0.guilds@, guild_has_id(guild_id@));
            i < s0.guilds@.len() ==> s0.guilds@[i].member_count < u32::MAX
        }),
        apply_guild_member_joined_post(s0, s1, guild_id),
        apply_guild_member_left_post(s1, s2, guild_id),
    ensures
        s2.guilds@ == s0.guilds@,
        s2 == (UiState { guilds: s2.guilds, ..s0 }),
{
    let g0 = s0.guilds@;
    let p = guild_has_id(guild_id@);
    let i = first_index(g0, p);
    lemma_first_index_props(g0, p);
    if i < g0.len() {
        let g1 = s1.guilds@;
        assert forall|k: int| 0 <= k < i implies !p(#[trigger] g1[k]) by {
            assert(g1[k] == g0[k]);
        }
        lemma_first_index(g1, p, i);
        let g2 = s2.guilds@;
        assert forall|k: int| 0 <= k < g0.len() implies #[trigger] g2[k] == g0[k] by {
            if k != i {
                assert(g2[k] == g1[k]);
            }
        }
        assert(g2 =~= g0);
    }
}

/// Stopping voice a second time changes nothing.
pub proof fn law_stop_voice_twice(s0: AppState, s1: AppState, s2: AppState)
    requires
        stopped(s0, s1),
        stopped(s1, s2),
    ensures
        s2 == s1,
{
}

/// Voice never keeps running without a connection: keeping voice in line
/// stops it whenever the client is not connected.
pub proof fn law_no_voice_without_connection(pre: AppState, post: AppState, action: VoiceAction)
    requires
        !(pre.ui.conn is Connected),
        sync_voice_post(pre, post, action),
    ensures
        action == VoiceAction::Stopped,
        !post.audio_running,
        post.voice_channel is None,
        post.ui.voice == VoiceUiState::Off,
{
}

/// A dropped connection or a reconnect attempt stops voice, whether or not
/// the connection will be retried.
pub proof fn law_drop_stops_voice(
    pre: AppState,
    post: AppState,
    e: NetEvent,
    fresh_id: String,
    now_ms: u64,
    out: EventOutcome,
)
    requires
        e is Disconnected || e is Reconnecting,
        take_event_post(pre, post, e, fresh_id, now_ms, out),
    ensures
        !post.audio_running,
        post.voice_channel is None,
        post.ui.voice == VoiceUiState::Off,
        out.command is None,
        !out.play_voice,
{
}

/// A message time is always five characters: two digits, a colon, two digits.
pub proof fn law_fmt_ts_shape(ts: i64)
    ensures
        fmt_ts_spec(ts).len() == 5,
        fmt_ts_spec(ts)[2] == ':',
{
}

/// A kept user colour is always six characters.
pub proof fn law_parse_hex_color_six(hex: Seq<char>)
    ensures
        parse_hex_color_spec(hex) matches Some(t) ==> t.len() == 6,
{
}

/// After a message is deleted no message of its channel has its id.
pub proof fn law_message_deleted(pre: UiState, post: UiState, channel_id: String, message_id: String)
    requires
        apply_message_deleted_post(pre, post, channel_id, message_id),
        pre.messages@.dom().contains(channel_id@),
    ensures
        forall|i: int|
            0 <= i < post.messages@[channel_id@]@.len()
                ==> #[trigger] post.messages@[channel_id@]@[i].message_id@ != message_id@,
{
    let p = |m: ChatMessage| m.message_id@ != message_id@;
    assert forall|i: int| 0 <= i < post.messages@[channel_id@]@.len() implies #[trigger] post.messages@[
        channel_id@]@[i].message_id@ != message_id@ by {
        assert(p(post.messages@[channel_id@]@[i]));
    }
}

/// A drop that will not be retried forgets the session: no connection, no
/// channels, no selected channel, no known names, no conversations.
pub proof fn law_final_disconnect_forgets(pre: UiState, post: UiState, reason: Seq<char>)
    requires
        handle_disconnected_post(pre, post, reason, false),
    ensures
        post.conn is Disconnected,
        post.channels@.len() == 0,
        post.active_channel is None,
        post.user_names@.dom().len() == 0,
        post.dm_conversations@.len() == 0,
        post.dm_messages@.dom().len() == 0,
        post.active_dm_id is None,
{
}

/// Connecting to a saved address selects its bookmark.
pub proof fn law_connect_selects_bookmark(
    pre: UiState,
    post: UiState,
    addr: Seq<char>,
    cmd: Option<NetCommand>,
)
    requires
        addr.len() > 0,
        has_bookmark_address(pre.bookmarks@, addr),
        connect_to_post(pre, post, addr, cmd),
    ensures
        post.selected_bookmark < post.bookmarks@.len(),
        post.bookmarks@[post.selected_bookmark as int].address@ == addr,
{
    let b = pre.bookmarks@;
    let p = bookmark_has_address(addr);
    lemma_first_index_props(b, p);
    let k = choose|k: int| 0 <= k < b.len() && #[trigger] b[k].address@ == addr;
    if first_index(b, p) >= b.len() {
        assert(!p(b[k]));
    }
    let i = first_index(b, p);
    assert(p(b[i]));
    assert(post.bookmarks == pre.bookmarks);
    assert(pre.bookmarks.len() == b.len());
    assert(post.selected_bookmark as int == i);
}

/// After a typing notice is computed, every entry kept for the channel is
/// younger than the timeout.
pub proof fn law_typing_entries_fresh(
    pre: UiState,
    post: UiState,
    ch_id: Seq<char>,
    now_ms: u64,
    timeout_ms: u64,
    label: Option<String>,
)
    requires
        typing_notice_post(pre, post, ch_id, now_ms, timeout_ms, label),
        pre.typing_users@.dom().contains(ch_id),
    ensures
        post.typing_users@.dom().contains(ch_id) ==> forall|i: int|
            0 <= i < post.typing_users@[ch_id]@.len() ==> typing_fresh(now_ms, timeout_ms)(
                #[trigger] post.typing_users@[ch_id]@[i],
            ),
        label is Some <==> post.typing_users@.dom().contains(ch_id),
{
}

/// A typing notice lists its user last and removes earlier entries under the
/// user's id. Entries are kept under nicknames, so the user is listed exactly
/// once when id and nickname coincide.
pub proof fn law_typing_lists_user_once(
    pre: UiState,
    post: UiState,
    user_id: String,
    nickname: String,
    channel_id: String,
    now_ms: u64,
)
    requires
        apply_typing_start_post(pre, post, user_id, nickname, channel_id, now_ms),
    ensures
        ({
            let l = post.typing_users@[channel_id@]@;
            &&& l.len() > 0
            &&& l.last() == (nickname, now_ms)
            &&& forall|i: int| 0 <= i < l.len() - 1 ==> (#[trigger] l[i]).0@ != user_id@
        }),
{
    let old_list = list_or_empty(pre.typing_users@, channel_id@);
    let q = |e: (String, u64)| e.0@ != user_id@;
    let l = post.typing_users@[channel_id@]@;
    assert forall|i: int| 0 <= i < l.len() - 1 implies (#[trigger] l[i]).0@ != user_id@ by {
        assert(l[i] == old_list.filter(q)[i]);
        assert(q(old_list.filter(q)[i]));
    }
}

/// The user's own settings and typing are never changed by what the network
/// reports: bookmarks, the address and message inputs, microphone, deafening,
/// voice mode, devices, packet interval and reconnection stay as they were.
#[verifier::rlimit(80)]
pub proof fn law_events_keep_user_settings(
    pre: AppState,
    post: AppState,
    e: NetEvent,
    fresh_id: String,
    now_ms: u64,
    out: EventOutcome,
)
    requires
        take_event_post(pre, post, e, fresh_id, now_ms, out),
    ensures
        post.ui.bookmarks == pre.ui.bookmarks,
        post.ui.selected_bookmark == pre.ui.selected_bookmark,
        post.ui.connect_input == pre.ui.connect_input,
        post.ui.chat_input == pre.ui.chat_input,
        post.ui.mic_enabled == pre.ui.mic_enabled,
        post.ui.deafen == pre.ui.deafen,
        post.ui.vad_mode == pre.ui.vad_mode,
        post.ui.packet_interval == pre.ui.packet_interval,
        post.ui.mic_device == pre.ui.mic_device,
        post.ui.output_device == pre.ui.output_device,
        post.ui.auto_reconnect == pre.ui.auto_reconnect,
{
}

/// Once voice runs for the selected voice channel, syncing again keeps the
/// running pipeline: the sync asks for the same channel, the start finds the
/// channel and the device and packet settings unchanged and has nothing to
/// do, and the state stays as it is. The caller compares the bitrate, a
/// float; here it reports it unchanged, as a bitrate that is not NaN is.
pub proof fn law_second_sync_keeps_pipeline(
    s0: AppState,
    s1: AppState,
    s2: AppState,
    s3: AppState,
    s4: AppState,
    s5: AppState,
    a1: VoiceAction,
    a2: VoiceAction,
    bitrate_unchanged: bool,
    r1: VoiceStart,
    r2: VoiceStart,
    now_ms: u64,
)
    requires
        sync_voice_post(s0, s1, a1),
        a1 matches VoiceAction::Start(c) && start_voice_post(s1, s2, c@, bitrate_unchanged, r1),
        r1 == VoiceStart::Unchanged ==> s3 == s2,
        r1 == VoiceStart::Restart ==> (a1 matches VoiceAction::Start(c) && voice_started_post(
            s2,
            s3,
            c@,
            now_ms,
        )),
        sync_voice_post(s3, s4, a2),
        a1 matches VoiceAction::Start(c) && start_voice_post(s4, s5, c@, true, r2),
    ensures
        a2 matches VoiceAction::Start(c2) && a1 matches VoiceAction::Start(c1) && c2@ == c1@,
        r2 == VoiceStart::Unchanged,
        s4 == s3,
        s5 == s3,
        s3.audio_running,
{
    assert(active_voice_channel_spec(s3.ui) == active_voice_channel_spec(s0.ui));
}

/// An edit from the server rewrites the message it names: in its channel,
/// the first message with that id gets the new text and is marked edited,
/// every other message and every other channel stays as it was, nothing is
/// sent, and an edit of a message the client does not hold changes nothing.
pub proof fn law_edit_event_rewrites_message(
    pre: UiState,
    post: UiState,
    channel_id: String,
    message_id: String,
    content: String,
    fresh_id: String,
    now_ms: u64,
    cmd: Option<NetCommand>,
)
    requires
        net_event_post(
            pre,
            post,
            NetEvent::MessageEdited { channel_id, message_id, content },
            fresh_id,
            now_ms,
            cmd,
        ),
    ensures
        cmd is None,
        post == (UiState { messages: post.messages, ..pre }),
        ({
            let msgs = pre.messages@[channel_id@]@;
            let i = first_index(msgs, msg_has_id(message_id@));
            if pre.messages@.dom().contains(channel_id@) && i < msgs.len() {
                let nm = post.messages@[channel_id@]@;
                &&& post.messages@.dom() == pre.messages@.dom()
                &&& forall|k: Seq<char>| k != channel_id@ && pre.messages@.dom().contains(k)
                    ==> #[trigger] post.messages@[k] == pre.messages@[k]
                &&& nm.len() == msgs.len()
                &&& msgs[i].message_id@ == message_id@
                &&& nm[i].content == content
                &&& nm[i].edited
                &&& nm[i].message_id == msgs[i].message_id
                &&& nm[i].sender_id == msgs[i].sender_id
                &&& nm[i].timestamp == msgs[i].timestamp
                &&& nm[i].reply_to == msgs[i].reply_to
                &&& forall|j: int| 0 <= j < msgs.len() && j != i ==> #[trigger] nm[j] == msgs[j]
            } else {
                post.messages == pre.messages
            }
        }),
{
    let msgs = pre.messages@[channel_id@]@;
    lemma_first_index_props(msgs, msg_has_id(message_id@));
    if pre.messages@.dom().contains(channel_id@) && first_index(msgs, msg_has_id(message_id@))
        < msgs.len() {
        assert(post.messages@.dom() =~= pre.messages@.dom());
    }
}

} // verus!
