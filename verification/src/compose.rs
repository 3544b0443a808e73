//! What the user does from the connect screen and the message input:
//! connecting, disconnecting, sending, editing and direct messages.

use vstd::prelude::*;

use crate::chat_channels::{dm_has_id, find_dm};
use crate::chat_messages::{appended, list_or_empty, push_to_list, replaced_at};
use crate::models::DmConversation;
use crate::clock::now_ms;
use crate::events::NetCommand;
use crate::ids::{is_uuid_v4_text, new_uuid_text};
use crate::models::{ChatMessage, NodeBookmark};
use crate::seqs::first_index;
use crate::strmap::StrMap;
use crate::text::{push_str, to_string, trim, trim_seq};
use crate::models::bookmark_label_spec;
use crate::state::{has_bookmark_address, seed_default_channels_post};
use crate::types::{ConnState, UiState};

verus! {

/// The bookmark has the address `a`.
pub open spec fn bookmark_has_address(a: Seq<char>) -> spec_fn(NodeBookmark) -> bool {
    |b: NodeBookmark| b.address@ == a
}

/// What `UiState::connect_to` does.
pub open spec fn connect_to_post(pre: UiState, post: UiState, addr: Seq<char>, cmd: Option<
    NetCommand,
>) -> bool {
    if addr.len() == 0 {
        post == pre && cmd is None
    } else {
        let i = first_index(pre.bookmarks@, bookmark_has_address(addr));
        &&& post.connect_input@ == addr
        &&& post.conn == ConnState::Connecting
        &&& post.selected_bookmark == if i < pre.bookmarks@.len() {
            i as usize
        } else {
            pre.selected_bookmark
        }
        &&& post == (UiState {
            connect_input: post.connect_input,
            conn: ConnState::Connecting,
            selected_bookmark: post.selected_bookmark,
            ..pre
        })
        &&& cmd matches Some(NetCommand::Connect { address, auto_reconnect }) && address@ == addr
            && auto_reconnect == pre.auto_reconnect
    }
}

/// What `UiState::send_chat_at` does: a message whose trimmed text is empty
/// is not sent; otherwise it is shown at once, the input clears, and the
/// server is asked to join the channel first when the session is not in it.
pub open spec fn send_chat_post(
    pre: UiState,
    post: UiState,
    ch_id: Seq<char>,
    sender_id: Seq<char>,
    reply_to: Option<String>,
    fresh_id: String,
    now_ms: i64,
    cmds: Seq<NetCommand>,
) -> bool {
    let content = trim_seq(pre.chat_input@);
    if content.len() == 0 {
        post == pre && cmds.len() == 0
    } else {
        let need_join = !(pre.server_channel matches Some(s) && s@ == ch_id);
        let m = post.messages@[ch_id]@.last();
        &&& post.chat_input@.len() == 0
        &&& post.messages@ == pre.messages@.insert(ch_id, post.messages@[ch_id])
        &&& appended(post.messages@[ch_id]@, list_or_empty(pre.messages@, ch_id))
        &&& m.message_id == fresh_id
        &&& m.sender_id@ == sender_id
        &&& m.content@ == content
        &&& m.timestamp == now_ms
        &&& !m.edited
        &&& m.reactions@ == Map::<Seq<char>, Vec<String>>::empty()
        &&& m.reply_to == reply_to
        &&& post.server_channel == if need_join {
            post.server_channel
        } else {
            pre.server_channel
        }
        &&& (need_join ==> (post.server_channel matches Some(s) && s@ == ch_id))
        &&& post == (UiState {
            chat_input: post.chat_input,
            messages: post.messages,
            scroll_bottom: true,
            server_channel: post.server_channel,
            ..pre
        })
        &&& cmds.len() == if need_join {
            2int
        } else {
            1int
        }
        &&& (need_join ==> (cmds[0] matches NetCommand::JoinChannel { channel_id } && channel_id@
            == ch_id))
        &&& cmds.last() matches NetCommand::SendChat { channel_id, content: c, reply_to: r }
            && channel_id@ == ch_id && c@ == content && r == reply_to
    }
}

/// What `UiState::send_dm_at` does: like a channel message, without reply,
/// sender or join.
pub open spec fn send_dm_post(
    pre: UiState,
    post: UiState,
    dm_id: Seq<char>,
    fresh_id: String,
    now_ms: i64,
    cmd: Option<NetCommand>,
) -> bool {
    let content = trim_seq(pre.chat_input@);
    if content.len() == 0 {
        post == pre && cmd is None
    } else {
        let m = post.dm_messages@[dm_id]@.last();
        &&& post.chat_input@.len() == 0
        &&& post.dm_messages@ == pre.dm_messages@.insert(dm_id, post.dm_messages@[dm_id])
        &&& appended(post.dm_messages@[dm_id]@, list_or_empty(pre.dm_messages@, dm_id))
        &&& m.message_id == fresh_id
        &&& m.sender_id@.len() == 0
        &&& m.content@ == content
        &&& m.timestamp == now_ms
        &&& !m.edited
        &&& m.reactions@ == Map::<Seq<char>, Vec<String>>::empty()
        &&& m.reply_to is None
        &&& post == (UiState {
            chat_input: post.chat_input,
            dm_messages: post.dm_messages,
            scroll_bottom: true,
            ..pre
        })
        &&& cmd matches Some(NetCommand::DmSend { dm_id: d, content: c }) && d@ == dm_id && c@
            == content
    }
}

/// What `UiState::submit_chat_at` does: a blank input does nothing; while a
/// message is being edited the new text goes out as an edit; otherwise the
/// text is sent as a reply to the message being replied to, if any.
pub open spec fn submit_chat_post(
    pre: UiState,
    post: UiState,
    ch_id: Seq<char>,
    sender_id: Seq<char>,
    fresh_id: String,
    now_ms: i64,
    cmds: Seq<NetCommand>,
) -> bool {
    let content = trim_seq(pre.chat_input@);
    if content.len() == 0 {
        post == pre && cmds.len() == 0
    } else {
        match pre.editing_message_id {
            Some(edit_id) => {
                &&& post.chat_input@.len() == 0
                &&& post == (UiState {
                    chat_input: post.chat_input,
                    editing_message_id: None,
                    ..pre
                })
                &&& cmds.len() == 1
                &&& cmds[0] matches NetCommand::MessageEdit { channel_id, message_id, content: c }
                    && channel_id@ == ch_id && message_id == edit_id && c@ == content
            },
            None => send_chat_post(
                UiState { replying_to_message: None, ..pre },
                post,
                ch_id,
                sender_id,
                pre.replying_to_message,
                fresh_id,
                now_ms,
                cmds,
            ),
        }
    }
}

/// The hint shown in an empty message input.
pub open spec fn input_hint_spec(editing: bool, replying: bool, ch_id: Seq<char>) -> Seq<char> {
    if editing {
        "edit your message..."@
    } else if replying {
        "write your reply..."@
    } else {
        "message in #"@ + ch_id
    }
}

impl UiState {
    /// Sends the input as a message to channel `ch_id` (see `send_chat_post`),
    /// `fresh_id` and `now_ms` being the new message's id and time.
    pub fn send_chat_at(
        &mut self,
        ch_id: &str,
        sender_id: &str,
        reply_to: Option<String>,
        fresh_id: String,
        now_ms: i64,
    ) -> (cmds: Vec<NetCommand>)
        ensures
            send_chat_post(*old(self), *final(self), ch_id@, sender_id@, reply_to, fresh_id, now_ms, cmds@),
    {
        let content = trim(self.chat_input.as_str());
        if content.as_str().unicode_len() == 0 {
            return Vec::new();
        }
        self.chat_input = String::new();
        let m = ChatMessage {
            message_id: fresh_id,
            sender_id: to_string(sender_id),
            content: content.clone(),
            timestamp: now_ms,
            edited: false,
            reactions: StrMap::new(),
            reply_to: reply_to.clone(),
        };
        push_to_list(&mut self.messages, to_string(ch_id), m);
        self.scroll_bottom = true;
        let need_join = match &self.server_channel {
            Some(s) => !s.as_str().eq(ch_id),
            None => true,
        };
        let mut cmds: Vec<NetCommand> = Vec::new();
        if need_join {
            self.server_channel = Some(to_string(ch_id));
            cmds.push(NetCommand::JoinChannel { channel_id: to_string(ch_id) });
        }
        cmds.push(NetCommand::SendChat { channel_id: to_string(ch_id), content, reply_to });
        cmds
    }

    /// Sends the input as a direct message in conversation `dm_id` (see
    /// `send_dm_post`), `fresh_id` and `now_ms` being the message's id and
    /// time.
    pub fn send_dm_at(&mut self, dm_id: &str, fresh_id: String, now_ms: i64) -> (cmd: Option<
        NetCommand,
    >)
        ensures
            send_dm_post(*old(self), *final(self), dm_id@, fresh_id, now_ms, cmd),
    {
        let content = trim(self.chat_input.as_str());
        if content.as_str().unicode_len() == 0 {
            return None;
        }
        self.chat_input = String::new();
        let m = ChatMessage {
            message_id: fresh_id,
            sender_id: String::new(),
            content: content.clone(),
            timestamp: now_ms,
            edited: false,
            reactions: StrMap::new(),
            reply_to: None,
        };
        push_to_list(&mut self.dm_messages, to_string(dm_id), m);
        self.scroll_bottom = true;
        Some(NetCommand::DmSend { dm_id: to_string(dm_id), content })
    }

    /// Submits the message input in channel `ch_id` (see `submit_chat_post`).
    pub fn submit_chat_at(&mut self, ch_id: &str, sender_id: &str, fresh_id: String, now_ms: i64) -> (cmds:
        Vec<NetCommand>)
        ensures
            submit_chat_post(*old(self), *final(self), ch_id@, sender_id@, fresh_id, now_ms, cmds@),
    {
        let content = trim(self.chat_input.as_str());
        if content.as_str().unicode_len() == 0 {
            return Vec::new();
        }
        match self.editing_message_id.take() {
            Some(edit_id) => {
                self.chat_input = String::new();
                let mut cmds: Vec<NetCommand> = Vec::new();
                cmds.push(
                    NetCommand::MessageEdit {
                        channel_id: to_string(ch_id),
                        message_id: edit_id,
                        content,
                    },
                );
                cmds
            },
            None => {
                let reply_to = self.replying_to_message.take();
                self.send_chat_at(ch_id, sender_id, reply_to, fresh_id, now_ms)
            },
        }
    }

    /// The hint shown in the empty message input of channel `ch_id`.
    pub fn input_hint(&self, ch_id: &str) -> (r: String)
        ensures
            r@ == input_hint_spec(
                self.editing_message_id is Some,
                self.replying_to_message is Some,
                ch_id@,
            ),
    {
        if self.editing_message_id.is_some() {
            to_string("edit your message...")
        } else if self.replying_to_message.is_some() {
            to_string("write your reply...")
        } else {
            let mut s = to_string("message in #");
            push_str(&mut s, ch_id);
            s
        }
    }
}

/// Starts connecting to `addr`, selecting its bookmark when there is one;
/// an empty address does nothing.
pub fn connect_to(s: &mut UiState, addr: &str) -> (cmd: Option<NetCommand>)
    ensures
        connect_to_post(*old(s), *final(s), addr@, cmd),
{
    if addr.is_empty() {
        return None;
    }
    let mut i: usize = 0;
    while i < s.bookmarks.len()
        invariant
            *s == *old(s),
            i <= s.bookmarks@.len(),
            forall|k: int| 0 <= k < i ==> !bookmark_has_address(addr@)(#[trigger] s.bookmarks@[k]),
        ensures
            *s == *old(s),
            i <= s.bookmarks@.len(),
            forall|k: int| 0 <= k < i ==> !bookmark_has_address(addr@)(#[trigger] s.bookmarks@[k]),
            i == s.bookmarks@.len() || bookmark_has_address(addr@)(s.bookmarks@[i as int]),
        decreases s.bookmarks@.len() - i,
    {
        if s.bookmarks[i].address.as_str().eq(addr) {
            break;
        }
        i = i + 1;
    }
    proof {
        crate::seqs::lemma_first_index(
            s.bookmarks@,
            bookmark_has_address(addr@),
            i as int,
        );
    }
    if i < s.bookmarks.len() {
        s.selected_bookmark = i;
    }
    s.connect_input = to_string(addr);
    s.conn = ConnState::Connecting;
    Some(NetCommand::Connect { address: to_string(addr), auto_reconnect: s.auto_reconnect })
}

/// Leaves the server: the connection is marked closed at once.
pub fn disconnect(s: &mut UiState) -> (cmd: NetCommand)
    ensures
        cmd == NetCommand::Disconnect,
        *final(s) == (UiState { conn: ConnState::Disconnected, ..*old(s) }),
{
    s.conn = ConnState::Disconnected;
    NetCommand::Disconnect
}

/// Sends the input as a message to channel `ch_id` with a fresh random id and
/// the wall-clock time (see `UiState::send_chat_at`).
pub fn send_chat(ui: &mut UiState, ch_id: &str, sender_id: &str, reply_to: Option<String>) -> (cmds:
    Vec<NetCommand>)
    ensures
        exists|fresh_id: String, now: i64|
            {
                &&& trim_seq(old(ui).chat_input@).len() > 0 ==> is_uuid_v4_text(fresh_id@)
                &&& send_chat_post(*old(ui), *final(ui), ch_id@, sender_id@, reply_to, fresh_id, now, cmds@)
            },
{
    let (fresh_id, now) = fresh_stamp(ui.chat_input.as_str());
    let ghost id = fresh_id;
    let cmds = ui.send_chat_at(ch_id, sender_id, reply_to, fresh_id, now);
    assert(send_chat_post(*old(ui), *final(ui), ch_id@, sender_id@, reply_to, id, now, cmds@));
    cmds
}

/// Sends the input as a direct message with a fresh random id and the
/// wall-clock time (see `UiState::send_dm_at`).
pub fn send_dm(ui: &mut UiState, dm_id: &str) -> (cmd: Option<NetCommand>)
    ensures
        exists|fresh_id: String, now: i64|
            {
                &&& trim_seq(old(ui).chat_input@).len() > 0 ==> is_uuid_v4_text(fresh_id@)
                &&& send_dm_post(*old(ui), *final(ui), dm_id@, fresh_id, now, cmd)
            },
{
    let (fresh_id, now) = fresh_stamp(ui.chat_input.as_str());
    let ghost id = fresh_id;
    let cmd = ui.send_dm_at(dm_id, fresh_id, now);
    assert(send_dm_post(*old(ui), *final(ui), dm_id@, id, now, cmd));
    cmd
}

/// Submits the message input in channel `ch_id` with a fresh random id and
/// the wall-clock time (see `UiState::submit_chat_at`).
pub fn submit_chat(ui: &mut UiState, ch_id: &str, sender_id: &str) -> (cmds: Vec<NetCommand>)
    ensures
        exists|fresh_id: String, now: i64|
            {
                &&& trim_seq(old(ui).chat_input@).len() > 0 ==> is_uuid_v4_text(fresh_id@)
                &&& submit_chat_post(*old(ui), *final(ui), ch_id@, sender_id@, fresh_id, now, cmds@)
            },
{
    let (fresh_id, now) = fresh_stamp(ui.chat_input.as_str());
    let ghost id = fresh_id;
    let cmds = ui.submit_chat_at(ch_id, sender_id, fresh_id, now);
    assert(submit_chat_post(*old(ui), *final(ui), ch_id@, sender_id@, id, now, cmds@));
    cmds
}

/// A fresh random id and the wall-clock time in milliseconds, drawn only when
/// the input holds something to send.
fn fresh_stamp(input: &str) -> (r: (String, i64))
    ensures
        trim_seq(input@).len() > 0 ==> is_uuid_v4_text(r.0@),
{
    let content = trim(input);
    if content.as_str().unicode_len() == 0 {
        return (String::new(), 0);
    }
    let t = now_ms();
    #[verifier::truncate]
    let now = t as i64;
    (new_uuid_text(), now)
}

/// Whether to tell the server the user is typing: when the input is not
/// empty and at least three whole seconds have passed since the last notice.
pub fn typing_notice_due(input: &str, ms_since_last: u64) -> (due: bool)
    ensures
        due == (input@.len() > 0 && ms_since_last / 1000 >= 3),
{
    !input.is_empty() && ms_since_last / 1000 >= 3
}

/// What `UiState::pick_bookmark` does.
pub open spec fn pick_bookmark_post(pre: UiState, post: UiState, index: usize, cmd: Option<
    NetCommand,
>) -> bool {
    if pre.conn is Connecting || pre.conn is Reconnecting {
        post == pre && cmd is None
    } else {
        let addr = pre.bookmarks@[index as int].address;
        let picked = UiState { connect_input: addr, selected_bookmark: index, ..pre };
        if pre.conn is Disconnected {
            connect_to_post(picked, post, addr@, cmd)
        } else {
            post == picked && cmd is None
        }
    }
}

/// What `UiState::save_bookmark` does: a blank address is ignored; otherwise
/// the trimmed address is saved as a bookmark unless already saved, and the
/// connect input is left empty.
pub open spec fn save_bookmark_post(pre: UiState, post: UiState, addr: Seq<char>, added: bool) -> bool {
    let address = trim_seq(addr);
    if address.len() == 0 {
        post == pre && !added
    } else {
        let n = pre.bookmarks@.len();
        &&& added == !has_bookmark_address(pre.bookmarks@, address)
        &&& post.connect_input@.len() == 0
        &&& (added ==> {
            &&& post.bookmarks@.len() == n + 1
            &&& post.bookmarks@.take(n as int) == pre.bookmarks@
            &&& post.bookmarks@[n as int].address@ == address
            &&& post.bookmarks@[n as int].label@ == bookmark_label_spec(address)
            &&& post.selected_bookmark == n
        })
        &&& (!added ==> post.bookmarks == pre.bookmarks && post.selected_bookmark
            == pre.selected_bookmark)
        &&& post == (UiState {
            connect_input: post.connect_input,
            bookmarks: post.bookmarks,
            selected_bookmark: post.selected_bookmark,
            ..pre
        })
    }
}

impl UiState {
    /// A click on bookmark `index`: ignored while connecting or reconnecting;
    /// otherwise the bookmark is selected and, when disconnected, connected
    /// to.
    pub fn pick_bookmark(&mut self, index: usize) -> (cmd: Option<NetCommand>)
        requires
            index < old(self).bookmarks@.len(),
        ensures
            pick_bookmark_post(*old(self), *final(self), index, cmd),
    {
        let busy = match &self.conn {
            ConnState::Connecting | ConnState::Reconnecting { .. } => true,
            _ => false,
        };
        if busy {
            return None;
        }
        let addr = self.bookmarks[index].address.clone();
        self.connect_input = addr.clone();
        self.selected_bookmark = index;
        let disconnected = match &self.conn {
            ConnState::Disconnected => true,
            _ => false,
        };
        if disconnected {
            connect_to(self, addr.as_str())
        } else {
            None
        }
    }

    /// Saves the address typed in the add-server form as a bookmark.
    pub fn save_bookmark(&mut self, addr: &str) -> (added: bool)
        ensures
            save_bookmark_post(*old(self), *final(self), addr@, added),
    {
        let t = trim(addr);
        if t.as_str().unicode_len() == 0 {
            return false;
        }
        proof {
            crate::text::lemma_trim_twice(addr@);
        }
        self.connect_input = t;
        let added = self.add_bookmark_from_input();
        self.connect_input = String::new();
        added
    }
}

impl UiState {
    /// Opens conversation `dm_id`, as its row in the sidebar does: it becomes
    /// the active one, its unread count goes to zero, and the server is told
    /// it was read. The rows are only offered while connected: otherwise
    /// nothing changes and nothing is sent.
    pub fn open_dm(&mut self, dm_id: &String) -> (cmd: Option<NetCommand>)
        ensures
            !(old(self).conn is Connected) ==> cmd is None && *final(self) == *old(self),
            old(self).conn is Connected ==> {
                &&& final(self).active_dm_id == Some(*dm_id)
                &&& ({
                    let cs = old(self).dm_conversations@;
                    let i = first_index(cs, dm_has_id(dm_id@));
                    if i < cs.len() {
                        &&& replaced_at(final(self).dm_conversations@, cs, i)
                        &&& final(self).dm_conversations@[i] == (DmConversation {
                            unread_count: 0,
                            ..cs[i]
                        })
                    } else {
                        final(self).dm_conversations == old(self).dm_conversations
                    }
                })
                &&& *final(self) == (UiState {
                    active_dm_id: final(self).active_dm_id,
                    dm_conversations: final(self).dm_conversations,
                    ..*old(self)
                })
                &&& cmd == Some(NetCommand::DmReadAck { dm_id: *dm_id })
            },
    {
        let connected = match &self.conn {
            ConnState::Connected { .. } => true,
            _ => false,
        };
        if !connected {
            return None;
        }
        self.active_dm_id = Some(dm_id.clone());
        let i = find_dm(&self.dm_conversations, dm_id);
        if i < self.dm_conversations.len() {
            let ghost before = self.dm_conversations@;
            self.dm_conversations[i].unread_count = 0;
            assert forall|j: int| 0 <= j < before.len() && j != i implies #[trigger] self.dm_conversations@[j]
                == before[j] by {}
        }
        Some(NetCommand::DmReadAck { dm_id: dm_id.clone() })
    }

    /// Starts a conversation with the user typed in the new-conversation
    /// field (trimmed) and closes the field.
    pub fn start_new_dm(&mut self) -> (cmd: NetCommand)
        ensures
            cmd matches NetCommand::DmStart { target_user_id } && target_user_id@ == trim_seq(
                match old(self).new_dm_input {
                    Some(t) => t@,
                    None => Seq::<char>::empty(),
                },
            ),
            *final(self) == (UiState { new_dm_input: None, ..*old(self) }),
    {
        let target = match &self.new_dm_input {
            Some(t) => trim(t.as_str()),
            None => {
                let e = String::new();
                trim(e.as_str())
            },
        };
        self.new_dm_input = None;
        NetCommand::DmStart { target_user_id: target }
    }
}

impl UiState {
    /// Opens channel `channel_id`: it becomes the selected channel and the
    /// session's channel, and the server is asked to join it.
    pub fn join_channel(&mut self, channel_id: &str) -> (cmd: NetCommand)
        ensures
            final(self).active_channel matches Some(a) && a@ == channel_id@,
            final(self).server_channel matches Some(a) && a@ == channel_id@,
            *final(self) == (UiState {
                active_channel: final(self).active_channel,
                server_channel: final(self).server_channel,
                ..*old(self)
            }),
            cmd matches NetCommand::JoinChannel { channel_id: c } && c@ == channel_id@,
    {
        self.active_channel = Some(to_string(channel_id));
        self.server_channel = Some(to_string(channel_id));
        NetCommand::JoinChannel { channel_id: to_string(channel_id) }
    }

    /// The home button: no guild is selected and the first conversation, if
    /// any, is opened.
    pub fn go_home(&mut self)
        ensures
            *final(self) == (UiState {
                active_guild_id: None,
                active_dm_id: if old(self).dm_conversations@.len() > 0 {
                    Some(old(self).dm_conversations@[0].dm_id)
                } else {
                    None
                },
                ..*old(self)
            }),
    {
        self.active_guild_id = None;
        self.active_dm_id = if self.dm_conversations.len() > 0 {
            Some(self.dm_conversations[0].dm_id.clone())
        } else {
            None
        };
    }

    /// A guild icon was clicked: the guild is selected and the guild list is
    /// fetched again.
    pub fn select_guild(&mut self, guild_id: &String) -> (cmd: NetCommand)
        ensures
            *final(self) == (UiState { active_guild_id: Some(*guild_id), ..*old(self) }),
            cmd == NetCommand::GuildList,
    {
        self.active_guild_id = Some(guild_id.clone());
        NetCommand::GuildList
    }

    /// While connected with no channels, the built-in ones are shown and
    /// `general` is selected if nothing is.
    pub fn ensure_channels(&mut self)
        ensures
            if old(self).conn is Connected && old(self).channels@.len() == 0 {
                &&& seed_default_channels_post(*old(self), UiState {
                    active_channel: old(self).active_channel,
                    ..*final(self)
                })
                &&& (old(self).active_channel is None ==> (final(self).active_channel matches Some(
                    a,
                ) && a@ == "general"@))
                &&& (old(self).active_channel is Some ==> final(self).active_channel
                    == old(self).active_channel)
            } else {
                *final(self) == *old(self)
            },
    {
        let connected = match &self.conn {
            ConnState::Connected { .. } => true,
            _ => false,
        };
        if connected && self.channels.len() == 0 {
            self.seed_default_channels();
            if self.active_channel.is_none() {
                self.active_channel = Some(to_string("general"));
            }
        }
    }
}

impl UiState {
    /// The mute and deafen key bindings: each press flips its setting. Nothing
    /// happens while a text field has the keyboard.
    pub fn apply_voice_keys(&mut self, keyboard_taken: bool, mute_pressed: bool, deafen_pressed: bool)
        ensures
            *final(self) == if keyboard_taken {
                *old(self)
            } else {
                UiState {
                    mic_enabled: old(self).mic_enabled != mute_pressed,
                    deafen: old(self).deafen != deafen_pressed,
                    ..*old(self)
                }
            },
    {
        if keyboard_taken {
            return;
        }
        if mute_pressed {
            self.mic_enabled = !self.mic_enabled;
        }
        if deafen_pressed {
            self.deafen = !self.deafen;
        }
    }
}

} // verus!
