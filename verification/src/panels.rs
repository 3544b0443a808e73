//! The rows the window's panels list, built from the state: members,
//! channels, guilds, friends, voice members, bookmarks and messages.

use vstd::prelude::*;
use vstd::string::StringSliceAdditionalSpecFns;

use crate::chat_channels::{channel_has_id, find_channel};
use crate::format::{fmt_ts, fmt_ts_spec};
use crate::models::{Channel, ChatMessage};
use crate::seqs::first_index;
use crate::social::guild_has_id;
use crate::text::{decimal, push_decimal, push_str, to_string};
use crate::types::{ConnState, UiState, VoiceUiState};

verus! {

/// A member as the member list shows it.
#[derive(Debug, Clone)]
pub struct MemberItem {
    pub user_id: String,
    pub nickname: String,
    pub status: String,
}

/// A channel as the channel list shows it.
#[derive(Debug, Clone)]
pub struct ChannelItem {
    pub channel_id: String,
    pub name: String,
    pub kind: String,
}

/// A guild as the guild bar shows it.
#[derive(Debug, Clone)]
pub struct GuildItem {
    pub guild_id: String,
    pub name: String,
    /// The first two bytes of the name, or the whole name when shorter.
    pub short_name: String,
    pub selected: bool,
}

/// A friend or a pending request as the friends page shows it.
#[derive(Debug, Clone)]
pub struct FriendItem {
    pub user_id: String,
    pub nickname: String,
    pub status: String,
}

/// Someone in the active voice channel.
#[derive(Debug, Clone)]
pub struct VoiceMemberItem {
    pub user_id: String,
    pub nickname: String,
    pub speaking: bool,
}

/// A saved server.
#[derive(Debug, Clone)]
pub struct BookmarkItem {
    pub name: String,
    pub address: String,
}

/// A message as the message list shows it.
#[derive(Debug, Clone)]
pub struct MessageItem {
    pub message_id: String,
    pub sender_id: String,
    pub sender_name: String,
    pub content: String,
    pub timestamp: String,
    pub is_own: bool,
    pub edited: bool,
    pub reply_to: String,
}

/// What the main area shows.
#[derive(Debug, Clone, Copy, PartialEq, Eq, Structural)]
pub enum MainView {
    /// A text channel: its messages and members.
    Text,
    /// A voice channel.
    Voice,
    /// No channel is selected: the friends page.
    Friends,
    /// The selected channel is not listed: the area stays as it was.
    Unchanged,
}

/// What the chat area shows.
#[derive(Debug, Clone)]
pub enum ChatArea {
    /// The open direct conversation, which takes precedence over channels.
    Dm(String),
    /// No guild is selected: the friends page.
    Friends,
    /// A guild but no channel is selected.
    PickChannel,
    /// The selected channel is not listed.
    ChannelNotFound,
    /// The selected voice channel.
    Voice(String),
    /// The selected text channel.
    Text(String),
}

/// What the chat area shows when no direct conversation is open.
pub open spec fn channel_area_spec(ui: UiState) -> ChatArea {
    if ui.active_guild_id is None {
        ChatArea::Friends
    } else {
        match ui.active_channel {
            None => ChatArea::PickChannel,
            Some(id) => {
                let i = first_index(ui.channels@, channel_has_id(id@));
                if i >= ui.channels@.len() {
                    ChatArea::ChannelNotFound
                } else if ui.channels@[i].kind@ == "voice"@ {
                    ChatArea::Voice(id)
                } else {
                    ChatArea::Text(id)
                }
            },
        }
    }
}

/// Some user whose known nickname is `nick`.
pub open spec fn has_user_named(ui: UiState, nick: Seq<char>) -> bool {
    exists|k: Seq<char>| ui.user_names@.dom().contains(k) && #[trigger] ui.user_names@[k]@ == nick
}

/// `id` is a user id for nickname `nick`: one whose known nickname it is, or
/// the nickname itself when no user has it.
pub open spec fn is_id_for_nick(ui: UiState, nick: Seq<char>, id: Seq<char>) -> bool {
    if has_user_named(ui, nick) {
        ui.user_names@.dom().contains(id) && ui.user_names@[id]@ == nick
    } else {
        id == nick
    }
}

/// The presence status of a user, "offline" when none is known.
pub open spec fn status_of(ui: UiState, user_id: Seq<char>) -> Seq<char> {
    if ui.presences@.dom().contains(user_id) {
        ui.presences@[user_id].status@
    } else {
        "offline"@
    }
}

impl UiState {
    /// A user id for nickname `nick` (see `is_id_for_nick`).
    pub fn user_id_for_nick(&self, nick: &String) -> (id: String)
        ensures
            is_id_for_nick(*self, nick@, id@),
    {
        let ks = self.user_names.keys();
        let mut i: usize = 0;
        while i < ks.len()
            invariant
                i <= ks@.len(),
                forall|j: int| 0 <= j < ks@.len() ==> self.user_names@.dom().contains(#[trigger] ks@[j]@),
                forall|q: Seq<char>|
                    self.user_names@.dom().contains(q) ==> exists|j: int|
                        0 <= j < ks@.len() && #[trigger] ks@[j]@ == q,
                forall|j: int| 0 <= j < i ==> self.user_names@[#[trigger] ks@[j]@]@ != nick@,
            decreases ks@.len() - i,
        {
            match self.user_names.get(ks[i].as_str()) {
                Some(n) => {
                    if n.as_str().eq(nick.as_str()) {
                        return ks[i].clone();
                    }
                },
                None => {},
            }
            i = i + 1;
        }
        assert forall|k: Seq<char>| self.user_names@.dom().contains(k) implies #[trigger] self.user_names@[
            k]@ != nick@ by {
            let j = choose|j: int| 0 <= j < ks@.len() && #[trigger] ks@[j]@ == k;
            assert(self.user_names@[ks@[j]@]@ != nick@);
        }
        nick.clone()
    }

    /// The presence status of `user_id`, "offline" when none is known.
    pub fn status_of(&self, user_id: &str) -> (s: String)
        ensures
            s@ == status_of(*self, user_id@),
    {
        match self.presences.get(user_id) {
            Some(p) => p.status.clone(),
            None => to_string("offline"),
        }
    }

    /// The members of channel `ch_id` with their ids and statuses, or `None`
    /// when the channel is not listed.
    pub fn channel_members(&self, ch_id: &String) -> (r: Option<Vec<MemberItem>>)
        ensures
            ({
                let cs = self.channels@;
                let i = first_index(cs, channel_has_id(ch_id@));
                match r {
                    None => i == cs.len(),
                    Some(items) => {
                        &&& i < cs.len()
                        &&& items@.len() == cs[i].members@.len()
                        &&& forall|j: int|
                            0 <= j < items@.len() ==> {
                                &&& (#[trigger] items@[j]).nickname@ == cs[i].members@[j]@
                                &&& is_id_for_nick(*self, cs[i].members@[j]@, items@[j].user_id@)
                                &&& items@[j].status@ == status_of(*self, items@[j].user_id@)
                            }
                    },
                }
            }),
    {
        let i = find_channel(&self.channels, ch_id);
        if i == self.channels.len() {
            return None;
        }
        let members = &self.channels[i].members;
        let mut items: Vec<MemberItem> = Vec::new();
        let mut j: usize = 0;
        while j < members.len()
            invariant
                j <= members@.len(),
                items@.len() == j,
                forall|k: int|
                    0 <= k < j ==> {
                        &&& (#[trigger] items@[k]).nickname@ == members@[k]@
                        &&& is_id_for_nick(*self, members@[k]@, items@[k].user_id@)
                        &&& items@[k].status@ == status_of(*self, items@[k].user_id@)
                    },
            decreases members@.len() - j,
        {
            let user_id = self.user_id_for_nick(&members[j]);
            let status = self.status_of(user_id.as_str());
            items.push(MemberItem { user_id, nickname: members[j].clone(), status });
            j = j + 1;
        }
        Some(items)
    }

    /// The listed channels as rows.
    pub fn channel_items(&self) -> (r: Vec<ChannelItem>)
        ensures
            r@.len() == self.channels@.len(),
            forall|i: int|
                0 <= i < r@.len() ==> {
                    &&& (#[trigger] r@[i]).channel_id == self.channels@[i].id
                    &&& r@[i].name == self.channels@[i].name
                    &&& r@[i].kind == self.channels@[i].kind
                },
    {
        let mut r: Vec<ChannelItem> = Vec::new();
        let mut i: usize = 0;
        while i < self.channels.len()
            invariant
                i <= self.channels@.len(),
                r@.len() == i,
                forall|k: int|
                    0 <= k < i ==> {
                        &&& (#[trigger] r@[k]).channel_id == self.channels@[k].id
                        &&& r@[k].name == self.channels@[k].name
                        &&& r@[k].kind == self.channels@[k].kind
                    },
            decreases self.channels@.len() - i,
        {
            let c = &self.channels[i];
            r.push(ChannelItem { channel_id: c.id.clone(), name: c.name.clone(), kind: c.kind.clone() });
            i = i + 1;
        }
        r
    }

    /// The guilds as rows; the selected one is the active guild.
    pub fn guild_items(&self) -> (r: Vec<GuildItem>)
        requires
            forall|i: int|
                0 <= i < self.guilds@.len() ==> vstd::utf8::encode_utf8((#[trigger] self.guilds@[i]).name@).len()
                    < 2 || vstd::utf8::is_char_boundary(vstd::utf8::encode_utf8(self.guilds@[i].name@), 2),
        ensures
            r@.len() == self.guilds@.len(),
            forall|i: int|
                0 <= i < r@.len() ==> {
                    let g = self.guilds@[i];
                    &&& (#[trigger] r@[i]).guild_id == g.guild_id
                    &&& r@[i].name == g.name
                    &&& vstd::utf8::encode_utf8(r@[i].short_name@) == if vstd::utf8::encode_utf8(g.name@).len() >= 2 {
                        vstd::utf8::encode_utf8(g.name@).take(2)
                    } else {
                        vstd::utf8::encode_utf8(g.name@)
                    }
                    &&& r@[i].selected == (self.active_guild_id matches Some(a) && a@
                        == g.guild_id@)
                },
    {
        let mut r: Vec<GuildItem> = Vec::new();
        let mut i: usize = 0;
        while i < self.guilds.len()
            invariant
                i <= self.guilds@.len(),
                r@.len() == i,
                forall|k: int|
                    0 <= k < self.guilds@.len() ==> vstd::utf8::encode_utf8((#[trigger] self.guilds@[k]).name@).len()
                        < 2 || vstd::utf8::is_char_boundary(vstd::utf8::encode_utf8(self.guilds@[k].name@), 2),
                forall|k: int|
                    0 <= k < i ==> {
                        let g = self.guilds@[k];
                        &&& (#[trigger] r@[k]).guild_id == g.guild_id
                        &&& r@[k].name == g.name
                        &&& vstd::utf8::encode_utf8(r@[k].short_name@) == if vstd::utf8::encode_utf8(g.name@).len() >= 2 {
                            vstd::utf8::encode_utf8(g.name@).take(2)
                        } else {
                            vstd::utf8::encode_utf8(g.name@)
                        }
                        &&& r@[k].selected == (self.active_guild_id matches Some(a) && a@
                            == g.guild_id@)
                    },
            decreases self.guilds@.len() - i,
        {
            let g = &self.guilds[i];
            let name = g.name.as_str();
            let short = if name.as_bytes().len() >= 2 {
                let (head, _) = name.split_at(2);
                assert(head.spec_bytes() =~= name.spec_bytes().take(2));
                to_string(head)
            } else {
                to_string(name)
            };
            let selected = match &self.active_guild_id {
                Some(a) => a.as_str().eq(g.guild_id.as_str()),
                None => false,
            };
            r.push(
                GuildItem {
                    guild_id: g.guild_id.clone(),
                    name: g.name.clone(),
                    short_name: short,
                    selected,
                },
            );
            i = i + 1;
        }
        r
    }

    /// The position of the active guild in the guild list, or -1.
    pub fn active_guild_index(&self) -> (r: i32)
        ensures
            match self.active_guild_id {
                Some(a) => {
                    let i = first_index(self.guilds@, guild_has_id(a@));
                    if i < self.guilds@.len() {
                        r == i as i32
                    } else {
                        r == -1
                    }
                },
                None => r == -1,
            },
    {
        match &self.active_guild_id {
            Some(a) => {
                let i = crate::social::find_guild(&self.guilds, a);
                if i < self.guilds.len() {
                    #[verifier::truncate]
                    (i as i32)
                } else {
                    -1
                }
            },
            None => -1,
        }
    }

    /// Whether the sidebar lists direct messages: no guild is selected and
    /// there are conversations.
    pub fn show_dms(&self) -> (b: bool)
        ensures
            b == (self.active_guild_id is None && self.dm_conversations@.len() > 0),
    {
        self.active_guild_id.is_none() && self.dm_conversations.len() > 0
    }

    /// What the main area shows for the selected channel.
    pub fn main_view(&self) -> (v: MainView)
        ensures
            v == match self.active_channel {
                None => MainView::Friends,
                Some(id) => {
                    let i = first_index(self.channels@, channel_has_id(id@));
                    if i >= self.channels@.len() {
                        MainView::Unchanged
                    } else if self.channels@[i].kind@ == "voice"@ {
                        MainView::Voice
                    } else {
                        MainView::Text
                    }
                },
            },
    {
        match &self.active_channel {
            None => MainView::Friends,
            Some(id) => {
                let i = find_channel(&self.channels, id);
                if i == self.channels.len() {
                    MainView::Unchanged
                } else if self.channels[i].kind.as_str().eq("voice") {
                    MainView::Voice
                } else {
                    MainView::Text
                }
            },
        }
    }

    /// Decides the chat area. An open direct conversation is shown first,
    /// and showing it deselects the channel; otherwise see
    /// `channel_area_spec`.
    pub fn chat_area(&mut self) -> (a: ChatArea)
        ensures
            match old(self).active_dm_id {
                Some(d) => a == ChatArea::Dm(d) && *final(self) == (UiState {
                    active_channel: None,
                    ..*old(self)
                }),
                None => a == channel_area_spec(*old(self)) && *final(self) == *old(self),
            },
    {
        if let Some(d) = &self.active_dm_id {
            let d = d.clone();
            self.active_channel = None;
            return ChatArea::Dm(d);
        }
        if self.active_guild_id.is_none() {
            return ChatArea::Friends;
        }
        match &self.active_channel {
            None => ChatArea::PickChannel,
            Some(id) => {
                let i = find_channel(&self.channels, id);
                if i == self.channels.len() {
                    ChatArea::ChannelNotFound
                } else if self.channels[i].kind.as_str().eq("voice") {
                    ChatArea::Voice(id.clone())
                } else {
                    ChatArea::Text(id.clone())
                }
            },
        }
    }

    /// The friends as rows, with their presence status ("offline" when
    /// unknown).
    pub fn friend_items(&self) -> (r: Vec<FriendItem>)
        ensures
            r@.len() == self.friends@.len(),
            forall|i: int|
                0 <= i < r@.len() ==> {
                    &&& (#[trigger] r@[i]).user_id == self.friends@[i].user_id
                    &&& r@[i].nickname == self.friends@[i].nickname
                    &&& r@[i].status@ == status_of(*self, self.friends@[i].user_id@)
                },
    {
        let mut r: Vec<FriendItem> = Vec::new();
        let mut i: usize = 0;
        while i < self.friends.len()
            invariant
                i <= self.friends@.len(),
                r@.len() == i,
                forall|k: int|
                    0 <= k < i ==> {
                        &&& (#[trigger] r@[k]).user_id == self.friends@[k].user_id
                        &&& r@[k].nickname == self.friends@[k].nickname
                        &&& r@[k].status@ == status_of(*self, self.friends@[k].user_id@)
                    },
            decreases self.friends@.len() - i,
        {
            let f = &self.friends[i];
            let status = self.status_of(f.user_id.as_str());
            r.push(FriendItem { user_id: f.user_id.clone(), nickname: f.nickname.clone(), status });
            i = i + 1;
        }
        r
    }

    /// The pending friend requests as rows, each with status "pending".
    pub fn pending_items(&self) -> (r: Vec<FriendItem>)
        ensures
            r@.len() == self.pending_friend_requests@.len(),
            forall|i: int|
                0 <= i < r@.len() ==> {
                    &&& (#[trigger] r@[i]).user_id == self.pending_friend_requests@[i].user_id
                    &&& r@[i].nickname == self.pending_friend_requests@[i].nickname
                    &&& r@[i].status@ == "pending"@
                },
    {
        let mut r: Vec<FriendItem> = Vec::new();
        let mut i: usize = 0;
        while i < self.pending_friend_requests.len()
            invariant
                i <= self.pending_friend_requests@.len(),
                r@.len() == i,
                forall|k: int|
                    0 <= k < i ==> {
                        &&& (#[trigger] r@[k]).user_id == self.pending_friend_requests@[k].user_id
                        &&& r@[k].nickname == self.pending_friend_requests@[k].nickname
                        &&& r@[k].status@ == "pending"@
                    },
            decreases self.pending_friend_requests@.len() - i,
        {
            let f = &self.pending_friend_requests[i];
            r.push(
                FriendItem {
                    user_id: f.user_id.clone(),
                    nickname: f.nickname.clone(),
                    status: to_string("pending"),
                },
            );
            i = i + 1;
        }
        r
    }

    /// The saved servers as rows.
    pub fn bookmark_items(&self) -> (r: Vec<BookmarkItem>)
        ensures
            r@.len() == self.bookmarks@.len(),
            forall|i: int|
                0 <= i < r@.len() ==> {
                    &&& (#[trigger] r@[i]).name == self.bookmarks@[i].label
                    &&& r@[i].address == self.bookmarks@[i].address
                },
    {
        let mut r: Vec<BookmarkItem> = Vec::new();
        let mut i: usize = 0;
        while i < self.bookmarks.len()
            invariant
                i <= self.bookmarks@.len(),
                r@.len() == i,
                forall|k: int|
                    0 <= k < i ==> {
                        &&& (#[trigger] r@[k]).name == self.bookmarks@[k].label
                        &&& r@[k].address == self.bookmarks@[k].address
                    },
            decreases self.bookmarks@.len() - i,
        {
            let b = &self.bookmarks[i];
            r.push(BookmarkItem { name: b.label.clone(), address: b.address.clone() });
            i = i + 1;
        }
        r
    }

    /// Whether a connection is being made (first try or retry).
    pub fn is_connecting(&self) -> (b: bool)
        ensures
            b == (self.conn is Connecting || self.conn is Reconnecting),
    {
        match &self.conn {
            ConnState::Connecting | ConnState::Reconnecting { .. } => true,
            _ => false,
        }
    }

    /// The name of the node connected to, empty when not connected.
    pub fn node_name(&self) -> (r: String)
        ensures
            r@ == match self.conn {
                ConnState::Connected { node_name, .. } => node_name@,
                _ => Seq::<char>::empty(),
            },
    {
        match &self.conn {
            ConnState::Connected { node_name, .. } => node_name.clone(),
            _ => String::new(),
        }
    }
}

/// The messages of a channel as rows: the sender's id stands for its name,
/// the time is shown as `HH:MM`, and a missing reply target is empty.
pub fn message_items(msgs: &Vec<ChatMessage>, own_user_id: &str) -> (r: Vec<MessageItem>)
    ensures
        r@.len() == msgs@.len(),
        forall|i: int|
            0 <= i < r@.len() ==> {
                let m = msgs@[i];
                &&& (#[trigger] r@[i]).message_id == m.message_id
                &&& r@[i].sender_id == m.sender_id
                &&& r@[i].sender_name == m.sender_id
                &&& r@[i].content == m.content
                &&& r@[i].timestamp@ == fmt_ts_spec(m.timestamp)
                &&& r@[i].is_own == (m.sender_id@ == own_user_id@)
                &&& r@[i].edited == m.edited
                &&& r@[i].reply_to@ == match m.reply_to {
                    Some(t) => t@,
                    None => Seq::<char>::empty(),
                }
            },
{
    let mut r: Vec<MessageItem> = Vec::new();
    let mut i: usize = 0;
    while i < msgs.len()
        invariant
            i <= msgs@.len(),
            r@.len() == i,
            forall|k: int|
                0 <= k < i ==> {
                    let m = msgs@[k];
                    &&& (#[trigger] r@[k]).message_id == m.message_id
                    &&& r@[k].sender_id == m.sender_id
                    &&& r@[k].sender_name == m.sender_id
                    &&& r@[k].content == m.content
                    &&& r@[k].timestamp@ == fmt_ts_spec(m.timestamp)
                    &&& r@[k].is_own == (m.sender_id@ == own_user_id@)
                    &&& r@[k].edited == m.edited
                    &&& r@[k].reply_to@ == match m.reply_to {
                        Some(t) => t@,
                        None => Seq::<char>::empty(),
                    }
                },
        decreases msgs@.len() - i,
    {
        let m = &msgs[i];
        let reply_to = match &m.reply_to {
            Some(t) => t.clone(),
            None => String::new(),
        };
        r.push(
            MessageItem {
                message_id: m.message_id.clone(),
                sender_id: m.sender_id.clone(),
                sender_name: m.sender_id.clone(),
                content: m.content.clone(),
                timestamp: fmt_ts(m.timestamp),
                is_own: m.sender_id.as_str().eq(own_user_id),
                edited: m.edited,
                reply_to,
            },
        );
        i = i + 1;
    }
    r
}

/// The members of every listed channel with id `active`, in list order.
pub open spec fn channel_members_with_id(cs: Seq<Channel>, active: Seq<char>) -> Seq<String>
    decreases cs.len(),
{
    if cs.len() == 0 {
        Seq::empty()
    } else {
        let rest = channel_members_with_id(cs.drop_last(), active);
        if cs.last().id@ == active {
            rest + cs.last().members@
        } else {
            rest
        }
    }
}

/// The nicknames in the active voice channel: none unless voice is active.
pub open spec fn voice_member_names(ui: UiState) -> Seq<String> {
    match ui.voice {
        VoiceUiState::Active { channel } => channel_members_with_id(ui.channels@, channel@),
        _ => Seq::empty(),
    }
}

/// The line above the voice panel saying who is talking.
pub open spec fn activity_banner_spec(ui: UiState) -> Seq<char> {
    if ui.local_speaking && ui.remote_speaking {
        "you and others are talking"@
    } else if ui.local_speaking {
        "you are talking"@
    } else if ui.remote_speaking {
        let id = ui.last_remote_speaker_id@;
        (if ui.user_names@.dom().contains(id) {
            ui.user_names@[id]@
        } else {
            id
        }) + " is talking"@
    } else {
        Seq::empty()
    }
}

impl UiState {
    /// The people in the active voice channel, each with a user id for the
    /// nickname and whether they are the last remote speaker.
    pub fn voice_members(&self) -> (r: Vec<VoiceMemberItem>)
        ensures
            r@.len() == voice_member_names(*self).len(),
            forall|i: int|
                0 <= i < r@.len() ==> {
                    &&& (#[trigger] r@[i]).nickname == voice_member_names(*self)[i]
                    &&& is_id_for_nick(*self, r@[i].nickname@, r@[i].user_id@)
                    &&& r@[i].speaking == (self.last_remote_speaker_id@ == r@[i].user_id@)
                },
    {
        let mut r: Vec<VoiceMemberItem> = Vec::new();
        let active = match &self.voice {
            VoiceUiState::Active { channel } => channel,
            _ => {
                return r;
            },
        };
        let ghost cs = self.channels@;
        let mut i: usize = 0;
        while i < self.channels.len()
            invariant
                cs == self.channels@,
                self.voice == (VoiceUiState::Active { channel: *active }),
                i <= cs.len(),
                r@.len() == channel_members_with_id(cs.take(i as int), active@).len(),
                forall|k: int|
                    0 <= k < r@.len() ==> {
                        &&& (#[trigger] r@[k]).nickname == channel_members_with_id(
                            cs.take(i as int),
                            active@,
                        )[k]
                        &&& is_id_for_nick(*self, r@[k].nickname@, r@[k].user_id@)
                        &&& r@[k].speaking == (self.last_remote_speaker_id@ == r@[k].user_id@)
                    },
            decreases cs.len() - i,
        {
            let ghost before = channel_members_with_id(cs.take(i as int), active@);
            assert(cs.take(i + 1).drop_last() =~= cs.take(i as int));
            let c = &self.channels[i];
            if c.id.as_str().eq(active.as_str()) {
                let mut j: usize = 0;
                while j < c.members.len()
                    invariant
                        c == self.channels@[i as int],
                        j <= c.members@.len(),
                        r@.len() == before.len() + j,
                        forall|k: int|
                            0 <= k < r@.len() ==> {
                                &&& (#[trigger] r@[k]).nickname == (before + c.members@.take(
                                    j as int,
                                ))[k]
                                &&& is_id_for_nick(*self, r@[k].nickname@, r@[k].user_id@)
                                &&& r@[k].speaking == (self.last_remote_speaker_id@
                                    == r@[k].user_id@)
                            },
                    decreases c.members@.len() - j,
                {
                    let nick = &c.members[j];
                    let user_id = self.user_id_for_nick(nick);
                    let speaking = self.last_remote_speaker_id.as_str().eq(user_id.as_str());
                    let ghost old_r = r@;
                    r.push(VoiceMemberItem { user_id, nickname: nick.clone(), speaking });
                    assert forall|k: int| 0 <= k < r@.len() implies (#[trigger] r@[k]).nickname == (
                    before + c.members@.take(j + 1))[k] by {
                        if k < old_r.len() {
                            assert(r@[k] == old_r[k]);
                            assert((before + c.members@.take(j + 1))[k] == (before
                                + c.members@.take(j as int))[k]);
                        }
                    }
                    j = j + 1;
                }
                assert(c.members@.take(c.members@.len() as int) =~= c.members@);
            }
            i = i + 1;
        }
        assert(cs.take(cs.len() as int) =~= cs);
        r
    }

    /// The name of the channel voice is active in, if it is listed.
    pub fn voice_channel_name(&self) -> (r: Option<String>)
        ensures
            r == match self.voice {
                VoiceUiState::Active { channel } => {
                    let i = first_index(self.channels@, channel_has_id(channel@));
                    if i < self.channels@.len() {
                        Some(self.channels@[i].name)
                    } else {
                        None
                    }
                },
                _ => None,
            },
    {
        match &self.voice {
            VoiceUiState::Active { channel } => {
                let i = find_channel(&self.channels, channel);
                if i < self.channels.len() {
                    Some(self.channels[i].name.clone())
                } else {
                    None
                }
            },
            _ => None,
        }
    }

    /// Who is talking, as the voice panel's banner says it.
    pub fn activity_banner(&self) -> (r: String)
        ensures
            r@ == activity_banner_spec(*self),
    {
        if self.local_speaking && self.remote_speaking {
            to_string("you and others are talking")
        } else if self.local_speaking {
            to_string("you are talking")
        } else if self.remote_speaking {
            let mut s = to_string(self.nick_for(self.last_remote_speaker_id.as_str()));
            push_str(&mut s, " is talking");
            s
        } else {
            String::new()
        }
    }
}

/// The connection as the sidebar header names it.
pub open spec fn conn_title(conn: ConnState) -> Seq<char> {
    match conn {
        ConnState::Connected { node_name, .. } => node_name@,
        ConnState::Reconnecting { attempt } => "reconnect #"@ + decimal(attempt as nat),
        ConnState::Connecting => "connecting\u{2026}"@,
        ConnState::Disconnected => "not connected"@,
    }
}

/// The sidebar header: the active guild's name, or else the connection.
pub open spec fn sidebar_title_spec(ui: UiState) -> Seq<char> {
    match ui.active_guild_id {
        Some(gid) => {
            let i = first_index(ui.guilds@, guild_has_id(gid@));
            if i < ui.guilds@.len() {
                ui.guilds@[i].name@
            } else {
                conn_title(ui.conn)
            }
        },
        None => conn_title(ui.conn),
    }
}

/// The title bar: the product name and the connection.
pub open spec fn window_title_spec(conn: ConnState) -> Seq<char> {
    "VNOX  \u{b7}  "@ + match conn {
        ConnState::Connected { node_name, .. } => node_name@,
        ConnState::Connecting => "connecting\u{2026}"@,
        ConnState::Reconnecting { attempt } => "reconnect #"@ + decimal(attempt as nat),
        ConnState::Disconnected => "offline"@,
    }
}

/// The transport shown in the title bar.
pub open spec fn transport_label_spec(conn: ConnState) -> Seq<char> {
    match conn {
        ConnState::Connected { .. } => "quic/v1"@,
        ConnState::Connecting => "connecting\u{2026}"@,
        ConnState::Reconnecting { .. } => "reconnecting\u{2026}"@,
        ConnState::Disconnected => "idle"@,
    }
}

fn conn_title_of(conn: &ConnState) -> (r: String)
    ensures
        r@ == conn_title(*conn),
{
    match conn {
        ConnState::Connected { node_name, .. } => node_name.clone(),
        ConnState::Reconnecting { attempt } => {
            let mut s = to_string("reconnect #");
            push_decimal(&mut s, *attempt as u64);
            s
        },
        ConnState::Connecting => to_string("connecting\u{2026}"),
        ConnState::Disconnected => to_string("not connected"),
    }
}

impl UiState {
    /// The sidebar header's title.
    pub fn sidebar_title(&self) -> (r: String)
        ensures
            r@ == sidebar_title_spec(*self),
    {
        match &self.active_guild_id {
            Some(gid) => {
                let i = crate::social::find_guild(&self.guilds, gid);
                if i < self.guilds.len() {
                    self.guilds[i].name.clone()
                } else {
                    conn_title_of(&self.conn)
                }
            },
            None => conn_title_of(&self.conn),
        }
    }

    /// The title bar's text.
    pub fn window_title(&self) -> (r: String)
        ensures
            r@ == window_title_spec(self.conn),
    {
        let mut s = to_string("VNOX  \u{b7}  ");
        match &self.conn {
            ConnState::Connected { node_name, .. } => push_str(&mut s, node_name.as_str()),
            ConnState::Connecting => push_str(&mut s, "connecting\u{2026}"),
            ConnState::Reconnecting { attempt } => {
                push_str(&mut s, "reconnect #");
                push_decimal(&mut s, *attempt as u64);
            },
            ConnState::Disconnected => push_str(&mut s, "offline"),
        }
        proof {
            if let ConnState::Reconnecting { attempt } = self.conn {
                assert(s@ =~= window_title_spec(self.conn));
            }
        }
        s
    }

    /// The transport shown in the title bar.
    pub fn transport_label(&self) -> (r: &'static str)
        ensures
            r@ == transport_label_spec(self.conn),
    {
        match &self.conn {
            ConnState::Connected { .. } => "quic/v1",
            ConnState::Connecting => "connecting\u{2026}",
            ConnState::Reconnecting { .. } => "reconnecting\u{2026}",
            ConnState::Disconnected => "idle",
        }
    }
}

/// A measured round-trip time as the title bar shows it.
pub fn rtt_text(rtt_ms: u32) -> (r: String)
    ensures
        r@ == decimal(rtt_ms as nat) + " ms"@,
{
    let mut s = String::new();
    push_decimal(&mut s, rtt_ms as u64);
    push_str(&mut s, " ms");
    s
}

} // verus!
