//! How channel, membership and direct-message events change the UI state.

use vstd::prelude::*;

use crate::events::{ChannelInfo, ChatMsg, MemberInfo, NetCommand};
use crate::models::{Channel, ChatMessage, DmConversation};
use crate::seqs::{first_index, last_index, lemma_filter_take_step, lemma_first_index, lemma_last_index};
use crate::strmap::StrMap;
use crate::types::UiState;

verus! {

/// The channel has the id `id`.
pub open spec fn channel_has_id(id: Seq<char>) -> spec_fn(Channel) -> bool {
    |c: Channel| c.id@ == id
}

/// The conversation has the id `id`.
pub open spec fn dm_has_id(id: Seq<char>) -> spec_fn(DmConversation) -> bool {
    |c: DmConversation| c.dm_id@ == id
}

/// The user-name table after recording each member, in order.
pub open spec fn insert_members(m: Map<Seq<char>, String>, ms: Seq<MemberInfo>) -> Map<
    Seq<char>,
    String,
>
    decreases ms.len(),
{
    if ms.len() == 0 {
        m
    } else {
        insert_members(m, ms.drop_last()).insert(ms.last().user_id@, ms.last().nickname)
    }
}

/// The nicknames of the members, in order.
pub open spec fn nicknames(ms: Seq<MemberInfo>) -> Seq<String> {
    ms.map_values(|m: MemberInfo| m.nickname)
}

/// `c` is a channel made from a server listing, with the given members.
pub open spec fn is_listed_channel(c: Channel, info: ChannelInfo, members: Seq<String>) -> bool {
    &&& c.id == info.channel_id
    &&& c.name == info.channel_name
    &&& c.kind == info.kind
    &&& c.guild_id is None
    &&& c.members@ == members
}

/// `m` is the UI form of a message from a history: not edited, no reactions.
pub open spec fn is_msg_of(m: ChatMessage, c: ChatMsg) -> bool {
    &&& m.message_id == c.message_id
    &&& m.sender_id == c.sender_id
    &&& m.content == c.content
    &&& m.timestamp == c.timestamp
    &&& !m.edited
    &&& m.reactions@ == Map::<Seq<char>, Vec<String>>::empty()
    &&& m.reply_to == c.reply_to
}

/// `ms` is the UI form of the history `cs`, message by message.
pub open spec fn is_history_of(ms: Seq<ChatMessage>, cs: Seq<ChatMsg>) -> bool {
    &&& ms.len() == cs.len()
    &&& forall|i: int| 0 <= i < ms.len() ==> #[trigger] is_msg_of(ms[i], cs[i])
}

/// Copies of the strings of `v`.
pub fn clone_strings(v: &Vec<String>) -> (r: Vec<String>)
    ensures
        r@ == v@,
{
    let mut r: Vec<String> = Vec::new();
    let mut i: usize = 0;
    while i < v.len()
        invariant
            i <= v@.len(),
            r@ == v@.take(i as int),
        decreases v@.len() - i,
    {
        r.push(v[i].clone());
        assert(r@ =~= v@.take(i + 1));
        i = i + 1;
    }
    assert(v@.take(v@.len() as int) =~= v@);
    r
}

/// Whether `v` holds a string equal to `s`.
pub fn contains_string(v: &Vec<String>, s: &String) -> (b: bool)
    ensures
        b == exists|i: int| 0 <= i < v@.len() && #[trigger] v@[i]@ == s@,
{
    let mut i: usize = 0;
    while i < v.len()
        invariant
            i <= v@.len(),
            forall|j: int| 0 <= j < i ==> #[trigger] v@[j]@ != s@,
        decreases v@.len() - i,
    {
        if v[i] == *s {
            assert(v@[i as int]@ == s@);
            return true;
        }
        i = i + 1;
    }
    false
}

/// Position of the first channel with id `id`, or the number of channels.
pub fn find_channel(cs: &Vec<Channel>, id: &String) -> (r: usize)
    ensures
        r == first_index(cs@, channel_has_id(id@)),
        r <= cs@.len(),
{
    let mut i: usize = 0;
    while i < cs.len()
        invariant
            i <= cs@.len(),
            forall|k: int| 0 <= k < i ==> !channel_has_id(id@)(#[trigger] cs@[k]),
        decreases cs@.len() - i,
    {
        if cs[i].id == *id {
            proof {
                lemma_first_index(cs@, channel_has_id(id@), i as int);
            }
            return i;
        }
        i = i + 1;
    }
    proof {
        lemma_first_index(cs@, channel_has_id(id@), i as int);
    }
    i
}

/// Position of the first conversation with id `id`, or the number of conversations.
pub fn find_dm(cs: &Vec<DmConversation>, id: &String) -> (r: usize)
    ensures
        r == first_index(cs@, dm_has_id(id@)),
        r <= cs@.len(),
{
    let mut i: usize = 0;
    while i < cs.len()
        invariant
            i <= cs@.len(),
            forall|k: int| 0 <= k < i ==> !dm_has_id(id@)(#[trigger] cs@[k]),
        decreases cs@.len() - i,
    {
        if cs[i].dm_id == *id {
            proof {
                lemma_first_index(cs@, dm_has_id(id@), i as int);
            }
            return i;
        }
        i = i + 1;
    }
    proof {
        lemma_first_index(cs@, dm_has_id(id@), i as int);
    }
    i
}

/// Records each member's nickname under their id and lists the nicknames in order.
pub fn record_members(names: &mut StrMap<String>, members: &Vec<MemberInfo>) -> (mems: Vec<String>)
    ensures
        final(names)@ == insert_members(old(names)@, members@),
        mems@ == nicknames(members@),
{
    let mut mems: Vec<String> = Vec::new();
    let mut k: usize = 0;
    while k < members.len()
        invariant
            k <= members@.len(),
            mems@ == nicknames(members@.take(k as int)),
            names@ == insert_members(old(names)@, members@.take(k as int)),
        decreases members@.len() - k,
    {
        let m = &members[k];
        names.insert(m.user_id.clone(), m.nickname.clone());
        mems.push(m.nickname.clone());
        proof {
            let t = members@.take(k + 1);
            assert(t.drop_last() =~= members@.take(k as int));
            assert(nicknames(t) =~= nicknames(members@.take(k as int)).push(m.nickname));
        }
        k = k + 1;
    }
    assert(members@.take(members@.len() as int) =~= members@);
    mems
}

/// Position of the last channel with id `id`, if there is one.
pub fn find_last_channel(cs: &Vec<Channel>, id: &String) -> (r: Option<usize>)
    ensures
        match r {
            Some(j) => j < cs@.len() && j == last_index(cs@, channel_has_id(id@)),
            None => last_index(cs@, channel_has_id(id@)) == -1,
        },
{
    let mut j: usize = cs.len();
    while j > 0
        invariant
            j <= cs@.len(),
            forall|k: int| j <= k < cs@.len() ==> !channel_has_id(id@)(#[trigger] cs@[k]),
        decreases j,
    {
        if cs[j - 1].id == *id {
            proof {
                lemma_last_index(cs@, channel_has_id(id@), j - 1);
            }
            return Some(j - 1);
        }
        j = j - 1;
    }
    proof {
        lemma_last_index(cs@, channel_has_id(id@), -1);
    }
    None
}

/// Turns a history into UI messages.
pub fn history_to_messages(msgs: Vec<ChatMsg>) -> (r: Vec<ChatMessage>)
    ensures
        is_history_of(r@, msgs@),
{
    let mut r: Vec<ChatMessage> = Vec::new();
    let mut i: usize = 0;
    while i < msgs.len()
        invariant
            i <= msgs@.len(),
            r@.len() == i,
            forall|k: int| 0 <= k < i ==> #[trigger] is_msg_of(r@[k], msgs@[k]),
        decreases msgs@.len() - i,
    {
        let c = &msgs[i];
        r.push(
            ChatMessage {
                message_id: c.message_id.clone(),
                sender_id: c.sender_id.clone(),
                content: c.content.clone(),
                timestamp: c.timestamp,
                edited: false,
                reactions: StrMap::new(),
                reply_to: c.reply_to.clone(),
            },
        );
        i = i + 1;
    }
    r
}

/// What `UiState::apply_channel_state` does.
pub open spec fn apply_channel_state_post(pre: UiState, post: UiState, channel_id: String, channel_name: String, kind: String, members: Vec<MemberInfo>, read_marker: String, cmd: NetCommand) -> bool {
    &&& (post.user_names@ == insert_members(pre.user_names@, members@))
    &&& (post.server_channel == Some(channel_id))
    &&& (({
            let i = first_index(pre.channels@, channel_has_id(channel_id@));
            let n = pre.channels@.len();
            if i < n {
                &&& post.channels@.len() == n
                &&& forall|j: int|
                    0 <= j < n && j != i ==> #[trigger] post.channels@[j]
                        == pre.channels@[j]
                &&& post.channels@[i] == (Channel {
                    members: post.channels@[i].members,
                    ..pre.channels@[i]
                })
                &&& post.channels@[i].members@ == nicknames(members@)
            } else {
                &&& post.channels@.len() == n + 1
                &&& post.channels@.take(n as int) == pre.channels@
                &&& is_listed_channel(
                    post.channels@[n as int],
                    ChannelInfo { channel_id, channel_name, kind },
                    nicknames(members@),
                )
            }
        }))
    &&& (post.active_channel == if pre.active_channel is None {
            Some(channel_id)
        } else {
            pre.active_channel
        })
    &&& (post == (UiState {
            user_names: post.user_names,
            server_channel: post.server_channel,
            channels: post.channels,
            active_channel: post.active_channel,
            ..pre
        }))
    &&& (cmd == (NetCommand::ReadReceipt { channel_id, last_read_message_id: read_marker }))
}

/// What `UiState::apply_user_join` does.
pub open spec fn apply_user_join_post(pre: UiState, post: UiState, channel_id: String, user_id: String, nickname: String) -> bool {
    &&& (post.user_names@ == pre.user_names@.insert(user_id@, nickname))
    &&& (({
            let i = first_index(pre.channels@, channel_has_id(channel_id@));
            let n = pre.channels@.len();
            if i < n && !(exists|k: int|
                0 <= k < pre.channels@[i].members@.len()
                    && #[trigger] pre.channels@[i].members@[k]@ == nickname@) {
                &&& post.channels@.len() == n
                &&& forall|j: int|
                    0 <= j < n && j != i ==> #[trigger] post.channels@[j]
                        == pre.channels@[j]
                &&& post.channels@[i] == (Channel {
                    members: post.channels@[i].members,
                    ..pre.channels@[i]
                })
                &&& post.channels@[i].members@ == pre.channels@[i].members@.push(
                    nickname,
                )
            } else {
                post.channels == pre.channels
            }
        }))
    &&& (post == (UiState {
            user_names: post.user_names,
            channels: post.channels,
            ..pre
        }))
}

/// What `UiState::apply_user_leave` does.
pub open spec fn apply_user_leave_post(pre: UiState, post: UiState, channel_id: String, user_id: String) -> bool {
    &&& (({
            let i = first_index(pre.channels@, channel_has_id(channel_id@));
            let n = pre.channels@.len();
            let had = pre.user_names@.dom().contains(user_id@);
            let nick = pre.user_names@[user_id@]@;
            if i < n {
                &&& post.user_names@ == pre.user_names@.remove(user_id@)
                &&& post.channels@.len() == n
                &&& forall|j: int|
                    0 <= j < n && j != i ==> #[trigger] post.channels@[j]
                        == pre.channels@[j]
                &&& post.channels@[i] == (Channel {
                    members: post.channels@[i].members,
                    ..pre.channels@[i]
                })
                &&& post.channels@[i].members@ == pre.channels@[i].members@.filter(
                    |m: String| m@ != user_id@ && (!had || m@ != nick),
                )
            } else {
                &&& post.user_names == pre.user_names
                &&& post.channels == pre.channels
            }
        }))
    &&& (post == (UiState {
            user_names: post.user_names,
            channels: post.channels,
            ..pre
        }))
}

/// What `UiState::apply_channel_created` does.
pub open spec fn apply_channel_created_post(pre: UiState, post: UiState, channel_id: String, channel_name: String, kind: String) -> bool {
    &&& (({
            let n = pre.channels@.len();
            if first_index(pre.channels@, channel_has_id(channel_id@)) < n {
                post.channels == pre.channels
            } else {
                &&& post.channels@.len() == n + 1
                &&& post.channels@.take(n as int) == pre.channels@
                &&& is_listed_channel(
                    post.channels@[n as int],
                    ChannelInfo { channel_id, channel_name, kind },
                    Seq::empty(),
                )
            }
        }))
    &&& (post == (UiState { channels: post.channels, ..pre }))
}

/// What `UiState::apply_channel_deleted` does.
pub open spec fn apply_channel_deleted_post(pre: UiState, post: UiState, channel_id: String) -> bool {
    &&& (post.channels@ == pre.channels@.filter(
            |c: Channel| c.id@ != channel_id@,
        ))
    &&& (post.active_channel == match pre.active_channel {
            Some(a) => if a@ == channel_id@ {
                if post.channels@.len() > 0 {
                    Some(post.channels@[0].id)
                } else {
                    None
                }
            } else {
                Some(a)
            },
            None => None,
        })
    &&& (post.messages@ == pre.messages@.remove(channel_id@))
    &&& (post == (UiState {
            channels: post.channels,
            active_channel: post.active_channel,
            messages: post.messages,
            ..pre
        }))
}

/// What `UiState::apply_channel_list` does.
pub open spec fn apply_channel_list_post(pre: UiState, post: UiState, channels: Vec<ChannelInfo>) -> bool {
    &&& (post.channels@.len() == channels@.len())
    &&& (forall|i: int|
            0 <= i < channels@.len() ==> {
                let j = last_index(pre.channels@, channel_has_id(channels@[i].channel_id@));
                is_listed_channel(
                    #[trigger] post.channels@[i],
                    channels@[i],
                    if j >= 0 {
                        pre.channels@[j].members@
                    } else {
                        Seq::empty()
                    },
                )
            })
    &&& (post == (UiState { channels: post.channels, ..pre }))
}

/// What `UiState::apply_dm_start` does.
pub open spec fn apply_dm_start_post(pre: UiState, post: UiState, dm_id: String, other_user_id: String, other_nickname: String, messages: Vec<ChatMsg>, unread_count: u32) -> bool {
    &&& (({
            let n = pre.dm_conversations@.len();
            if first_index(pre.dm_conversations@, dm_has_id(dm_id@)) < n {
                post.dm_conversations == pre.dm_conversations
            } else {
                &&& post.dm_conversations@.len() == n + 1
                &&& post.dm_conversations@.take(n as int) == pre.dm_conversations@
                &&& post.dm_conversations@[n as int] == (DmConversation {
                    dm_id,
                    other_user_id,
                    other_nickname,
                    unread_count,
                    e2ee_enabled: false,
                    e2ee_peer_public_key: None,
                    e2ee_shared_secret: None,
                })
            }
        }))
    &&& (post.dm_messages@ == pre.dm_messages@.insert(
            dm_id@,
            post.dm_messages@[dm_id@],
        ))
    &&& (is_history_of(post.dm_messages@[dm_id@]@, messages@))
    &&& (post.active_dm_id == Some(dm_id))
    &&& (post == (UiState {
            dm_conversations: post.dm_conversations,
            dm_messages: post.dm_messages,
            active_dm_id: post.active_dm_id,
            ..pre
        }))
}

impl UiState {
    /// The server told us who is in a channel: record their names, create or
    /// update the channel, pick it if nothing is picked, and acknowledge it.
    pub fn apply_channel_state(
        &mut self,
        channel_id: String,
        channel_name: String,
        kind: String,
        members: Vec<MemberInfo>,
        read_marker: String,
    ) -> (cmd: NetCommand)
        ensures
            apply_channel_state_post(*old(self), *final(self), channel_id, channel_name, kind, members, read_marker, cmd),
    {
        self.server_channel = Some(channel_id.clone());
        let mems = record_members(&mut self.user_names, &members);
        let i = find_channel(&self.channels, &channel_id);
        if i < self.channels.len() {
            let ghost before = self.channels@;
            self.channels[i].members = mems;
            assert forall|j: int| 0 <= j < before.len() && j != i implies #[trigger] self.channels@[j]
                == before[j] by {}
        } else {
            let ghost before = self.channels@;
            self.channels.push(
                Channel {
                    id: channel_id.clone(),
                    name: channel_name,
                    kind: kind,
                    guild_id: None,
                    members: mems,
                },
            );
            assert(self.channels@.take(before.len() as int) =~= before);
        }
        if self.active_channel.is_none() {
            self.active_channel = Some(channel_id.clone());
        }
        NetCommand::ReadReceipt { channel_id, last_read_message_id: read_marker }
    }

    /// A user joined a channel: record the name and list them once in the channel.
    pub fn apply_user_join(&mut self, channel_id: String, user_id: String, nickname: String)
        ensures
            apply_user_join_post(*old(self), *final(self), channel_id, user_id, nickname),
    {
        self.user_names.insert(user_id, nickname.clone());
        let i = find_channel(&self.channels, &channel_id);
        if i < self.channels.len() && !contains_string(&self.channels[i].members, &nickname) {
            let ghost before = self.channels@;
            self.channels[i].members.push(nickname);
            assert forall|j: int| 0 <= j < before.len() && j != i implies #[trigger] self.channels@[j]
                == before[j] by {}
        }
    }

    /// A user left a channel: forget their name and drop them from the
    /// channel's members, whether listed by id or by that name.
    pub fn apply_user_leave(&mut self, channel_id: String, user_id: String)
        ensures
            apply_user_leave_post(*old(self), *final(self), channel_id, user_id),
    {
        let i = find_channel(&self.channels, &channel_id);
        if i < self.channels.len() {
            let ghost had = self.user_names@.dom().contains(user_id@);
            let ghost nick_v = self.user_names@[user_id@]@;
            let nick = self.user_names.remove(user_id.as_str());
            let ghost p = |m: String| m@ != user_id@ && (!had || m@ != nick_v);
            let mut kept: Vec<String> = Vec::new();
            let mut k: usize = 0;
            while k < self.channels[i].members.len()
                invariant
                    i < self.channels@.len(),
                    k <= self.channels@[i as int].members@.len(),
                    kept@ == self.channels@[i as int].members@.take(k as int).filter(p),
                    p == (|m: String| m@ != user_id@ && (!had || m@ != nick_v)),
                    match nick {
                        Some(s) => had && s@ == nick_v,
                        None => !had,
                    },
                decreases self.channels@[i as int].members@.len() - k,
            {
                let keep = {
                    let m = &self.channels[i].members[k];
                    *m != user_id && match &nick {
                        Some(s) => *m != *s,
                        None => true,
                    }
                };
                proof {
                    lemma_filter_take_step(self.channels@[i as int].members@, p, k as int);
                }
                if keep {
                    kept.push(self.channels[i].members[k].clone());
                }
                k = k + 1;
            }
            proof {
                assert(self.channels@[i as int].members@.take(k as int) =~= self.channels@[i as int].members@);
            }
            let ghost before = self.channels@;
            self.channels[i].members = kept;
            assert forall|j: int| 0 <= j < before.len() && j != i implies #[trigger] self.channels@[j]
                == before[j] by {}
        }
    }

    /// Another session created a channel: add it unless it is already listed.
    pub fn apply_channel_created(&mut self, channel_id: String, channel_name: String, kind: String)
        ensures
            apply_channel_created_post(*old(self), *final(self), channel_id, channel_name, kind),
    {
        let i = find_channel(&self.channels, &channel_id);
        if i == self.channels.len() {
            let ghost before = self.channels@;
            self.channels.push(
                Channel {
                    id: channel_id,
                    name: channel_name,
                    kind,
                    guild_id: None,
                    members: Vec::new(),
                },
            );
            assert(self.channels@.take(before.len() as int) =~= before);
        }
    }

    /// A channel was deleted: drop it and its messages, and move the
    /// selection to the first remaining channel if it was selected.
    pub fn apply_channel_deleted(&mut self, channel_id: String)
        ensures
            apply_channel_deleted_post(*old(self), *final(self), channel_id),
    {
        let ghost p = |c: Channel| c.id@ != channel_id@;
        let mut old_channels: Vec<Channel> = Vec::new();
        std::mem::swap(&mut old_channels, &mut self.channels);
        let ghost orig = old_channels@;
        let mut kept: Vec<Channel> = Vec::new();
        let mut k: usize = 0;
        let n = old_channels.len();
        while k < n
            invariant
                n == orig.len(),
                k <= n,
                old_channels@ == orig.skip(k as int),
                kept@ == orig.take(k as int).filter(p),
                p == (|c: Channel| c.id@ != channel_id@),
            decreases n - k,
        {
            proof {
                lemma_filter_take_step(orig, p, k as int);
            }
            let c = old_channels.remove(0);
            assert(c == orig[k as int]);
            assert(old_channels@ =~= orig.skip(k + 1));
            if c.id != channel_id {
                kept.push(c);
            }
            k = k + 1;
        }
        assert(orig.take(n as int) =~= orig);
        self.channels = kept;
        let selected_deleted = match &self.active_channel {
            Some(a) => *a == channel_id,
            None => false,
        };
        if selected_deleted {
            if self.channels.len() > 0 {
                self.active_channel = Some(self.channels[0].id.clone());
            } else {
                self.active_channel = None;
            }
        }
        self.messages.remove(channel_id.as_str());
    }

    /// The server sent its channel list: it replaces ours, keeping the
    /// members we knew for channels we were already tracking.
    pub fn apply_channel_list(&mut self, channels: Vec<ChannelInfo>)
        ensures
            apply_channel_list_post(*old(self), *final(self), channels),
    {
        let mut result: Vec<Channel> = Vec::new();
        let mut i: usize = 0;
        while i < channels.len()
            invariant
                i <= channels@.len(),
                result@.len() == i,
                forall|k: int|
                    0 <= k < i ==> {
                        let j = last_index(self.channels@, channel_has_id(channels@[k].channel_id@));
                        is_listed_channel(
                            #[trigger] result@[k],
                            channels@[k],
                            if j >= 0 {
                                self.channels@[j].members@
                            } else {
                                Seq::empty()
                            },
                        )
                    },
                *self == *old(self),
            decreases channels@.len() - i,
        {
            let info = &channels[i];
            let members = match find_last_channel(&self.channels, &info.channel_id) {
                Some(j) => clone_strings(&self.channels[j].members),
                None => Vec::new(),
            };
            result.push(
                Channel {
                    id: info.channel_id.clone(),
                    name: info.channel_name.clone(),
                    kind: info.kind.clone(),
                    guild_id: None,
                    members,
                },
            );
            i = i + 1;
        }
        self.channels = result;
    }

    /// A direct conversation was opened: list it once, load its history and open it.
    pub fn apply_dm_start(
        &mut self,
        dm_id: String,
        other_user_id: String,
        other_nickname: String,
        messages: Vec<ChatMsg>,
        unread_count: u32,
    )
        ensures
            apply_dm_start_post(*old(self), *final(self), dm_id, other_user_id, other_nickname, messages, unread_count),
    {
        let i = find_dm(&self.dm_conversations, &dm_id);
        if i == self.dm_conversations.len() {
            let ghost before = self.dm_conversations@;
            self.dm_conversations.push(
                DmConversation {
                    dm_id: dm_id.clone(),
                    other_user_id,
                    other_nickname,
                    unread_count,
                    e2ee_enabled: false,
                    e2ee_peer_public_key: None,
                    e2ee_shared_secret: None,
                },
            );
            assert(self.dm_conversations@.take(before.len() as int) =~= before);
        }
        let history = history_to_messages(messages);
        self.dm_messages.insert(dm_id.clone(), history);
        self.active_dm_id = Some(dm_id);
    }
}

} // verus!
