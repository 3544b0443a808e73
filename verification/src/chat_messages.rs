//! How message, reaction, receipt and colour events change the UI state.

use vstd::prelude::*;

use crate::chat_channels::{dm_has_id, find_dm, history_to_messages, is_history_of};
use crate::events::ChatMsg;
use crate::models::{ChatMessage, DmConversation};
use crate::seqs::{first_index, lemma_filter_take_step, lemma_first_index};
use crate::strmap::StrMap;
use crate::text::{char_len, char_slice, push_str, to_string};
use crate::types::UiState;

verus! {

/// The message has the id `id`.
pub open spec fn msg_has_id(id: Seq<char>) -> spec_fn(ChatMessage) -> bool {
    |m: ChatMessage| m.message_id@ == id
}

/// The list stored under `k`, or an empty one.
pub open spec fn list_or_empty<V>(m: Map<Seq<char>, Vec<V>>, k: Seq<char>) -> Seq<V> {
    if m.dom().contains(k) {
        m[k]@
    } else {
        Seq::empty()
    }
}

/// `m` is a fresh message: not edited, no reactions.
pub open spec fn is_new_message(
    m: ChatMessage,
    message_id: String,
    sender_id: String,
    content: String,
    timestamp: i64,
    reply_to: Option<String>,
) -> bool {
    &&& m.message_id == message_id
    &&& m.sender_id == sender_id
    &&& m.content == content
    &&& m.timestamp == timestamp
    &&& !m.edited
    &&& m.reactions@ == Map::<Seq<char>, Vec<String>>::empty()
    &&& m.reply_to == reply_to
}

/// `after` is `before` with one more element at the end.
pub open spec fn appended<A>(after: Seq<A>, before: Seq<A>) -> bool {
    &&& after.len() == before.len() + 1
    &&& after.take(before.len() as int) == before
}

/// `after` is `before` with the element at `i` replaced and the rest kept.
pub open spec fn replaced_at<A>(after: Seq<A>, before: Seq<A>, i: int) -> bool {
    &&& after.len() == before.len()
    &&& forall|j: int| 0 <= j < before.len() && j != i ==> #[trigger] after[j] == before[j]
}

/// `n + 1`, wrapping to 0 past the largest `u32`.
pub open spec fn wrapping_inc(n: u32) -> u32 {
    if n == u32::MAX {
        0
    } else {
        (n + 1) as u32
    }
}

/// `s` without its leading `#` characters.
pub open spec fn strip_hashes(s: Seq<char>) -> Seq<char>
    decreases s.len(),
{
    if s.len() > 0 && s[0] == '#' {
        strip_hashes(s.drop_first())
    } else {
        s
    }
}

/// A hexadecimal digit.
pub open spec fn is_hex_digit(c: char) -> bool {
    ('0' <= c && c <= '9') || ('a' <= c && c <= 'f') || ('A' <= c && c <= 'F')
}

/// Six characters that read as a hexadecimal number: six digits, or a `+`
/// sign and five digits.
pub open spec fn is_hex6(s: Seq<char>) -> bool {
    &&& s.len() == 6
    &&& (is_hex_digit(s[0]) || s[0] == '+')
    &&& forall|i: int| 1 <= i < 6 ==> is_hex_digit(#[trigger] s[i])
}

/// The colour text kept for a user: the text without leading `#`, when that is six hex digits.
pub open spec fn parse_hex_color_spec(hex: Seq<char>) -> Option<Seq<char>> {
    let t = strip_hashes(hex);
    if is_hex6(t) {
        Some(t)
    } else {
        None
    }
}

proof fn lemma_strip_hashes_at(s: Seq<char>, i: int)
    requires
        0 <= i <= s.len(),
        forall|j: int| 0 <= j < i ==> #[trigger] s[j] == '#',
        i == s.len() || s[i] != '#',
    ensures
        strip_hashes(s) == s.subrange(i, s.len() as int),
    decreases i,
{
    if i == 0 {
        assert(s.subrange(0, s.len() as int) =~= s);
    } else {
        let t = s.drop_first();
        assert(s[0] == '#');
        assert forall|j: int| 0 <= j < i - 1 implies #[trigger] t[j] == '#' by {
            assert(t[j] == s[j + 1]);
        }
        if i < s.len() {
            assert(t[i - 1] == s[i]);
        }
        lemma_strip_hashes_at(t, i - 1);
        assert(t.subrange(i - 1, t.len() as int) =~= s.subrange(i, s.len() as int));
    }
}

fn is_hex_char(c: char) -> (b: bool)
    ensures
        b == is_hex_digit(c),
{
    ('0' <= c && c <= '9') || ('a' <= c && c <= 'f') || ('A' <= c && c <= 'F')
}

/// Reads a user colour sent by the server: leading `#` signs are dropped and
/// what is left is kept when it reads as a six-character hexadecimal number.
pub fn parse_hex_color(hex: &str) -> (r: Option<String>)
    ensures
        match r {
            Some(s) => parse_hex_color_spec(hex@) == Some(s@),
            None => parse_hex_color_spec(hex@) is None,
        },
{
    let n = char_len(hex);
    let mut i: usize = 0;
    while i < n && hex.get_char(i) == '#'
        invariant
            n == hex@.len(),
            i <= n,
            forall|j: int| 0 <= j < i ==> #[trigger] hex@[j] == '#',
        decreases n - i,
    {
        i = i + 1;
    }
    proof {
        lemma_strip_hashes_at(hex@, i as int);
    }
    let t = char_slice(hex, i, n);
    let ts = t.as_str();
    if char_len(ts) != 6 {
        return None;
    }
    let first = ts.get_char(0);
    if !(is_hex_char(first) || first == '+') {
        return None;
    }
    let mut k: usize = 1;
    while k < 6
        invariant
            ts@.len() == 6,
            ts@ == strip_hashes(hex@),
            1 <= k <= 6,
            forall|j: int| 1 <= j < k ==> is_hex_digit(#[trigger] ts@[j]),
        decreases 6 - k,
    {
        if !is_hex_char(ts.get_char(k)) {
            assert(!is_hex_digit(ts@[k as int]));
            return None;
        }
        k = k + 1;
    }
    Some(t)
}

/// Position of the first message with id `id`, or the number of messages.
pub fn find_message(ms: &Vec<ChatMessage>, id: &String) -> (r: usize)
    ensures
        r == first_index(ms@, msg_has_id(id@)),
        r <= ms@.len(),
{
    let mut i: usize = 0;
    while i < ms.len()
        invariant
            i <= ms@.len(),
            forall|k: int| 0 <= k < i ==> !msg_has_id(id@)(#[trigger] ms@[k]),
        decreases ms@.len() - i,
    {
        if ms[i].message_id == *id {
            proof {
                lemma_first_index(ms@, msg_has_id(id@), i as int);
            }
            return i;
        }
        i = i + 1;
    }
    proof {
        lemma_first_index(ms@, msg_has_id(id@), i as int);
    }
    i
}

/// Position in channel `ch` of the first message with id `id`, when both exist.
fn locate_message(map: &StrMap<Vec<ChatMessage>>, ch: &String, id: &String) -> (r: Option<usize>)
    ensures
        match r {
            Some(i) => map@.dom().contains(ch@) && i < map@[ch@]@.len() && i == first_index(
                map@[ch@]@,
                msg_has_id(id@),
            ),
            None => !map@.dom().contains(ch@) || first_index(map@[ch@]@, msg_has_id(id@))
                == map@[ch@]@.len(),
        },
{
    match map.get(ch.as_str()) {
        Some(list) => {
            let i = find_message(list, id);
            if i < list.len() {
                Some(i)
            } else {
                None
            }
        },
        None => None,
    }
}

/// Appends `m` to the list under `k`, creating the list if needed.
pub fn push_to_list<V>(map: &mut StrMap<Vec<V>>, k: String, m: V)
    ensures
        final(map)@ == old(map)@.insert(k@, final(map)@[k@]),
        final(map)@[k@]@ == list_or_empty(old(map)@, k@).push(m),
        appended(final(map)@[k@]@, list_or_empty(old(map)@, k@)),
{
    let mut list = match map.remove(k.as_str()) {
        Some(l) => l,
        None => Vec::new(),
    };
    list.push(m);
    map.insert(k, list);
    assert(map@ =~= old(map)@.insert(k@, map@[k@]));
    assert(map@[k@]@.take(list_or_empty(old(map)@, k@).len() as int) =~= list_or_empty(old(map)@, k@));
}

/// The messages of `list` other than those with id `id`, in order.
pub fn without_message(list: Vec<ChatMessage>, id: &String) -> (r: Vec<ChatMessage>)
    ensures
        r@ == list@.filter(|m: ChatMessage| m.message_id@ != id@),
{
    let ghost orig = list@;
    let ghost p = |m: ChatMessage| m.message_id@ != id@;
    let mut rest = list;
    let mut kept: Vec<ChatMessage> = Vec::new();
    let n = rest.len();
    let mut k: usize = 0;
    while k < n
        invariant
            n == orig.len(),
            k <= n,
            rest@ == orig.skip(k as int),
            kept@ == orig.take(k as int).filter(p),
            p == (|m: ChatMessage| m.message_id@ != id@),
        decreases n - k,
    {
        proof {
            lemma_filter_take_step(orig, p, k as int);
        }
        let m = rest.remove(0);
        assert(m == orig[k as int]);
        assert(rest@ =~= orig.skip(k + 1));
        if m.message_id != *id {
            kept.push(m);
        }
        k = k + 1;
    }
    assert(orig.take(n as int) =~= orig);
    kept
}

/// The users of `list` other than `user`, in order.
pub fn without_user(list: &Vec<String>, user: &String) -> (r: Vec<String>)
    ensures
        r@ == list@.filter(|u: String| u@ != user@),
{
    let ghost p = |u: String| u@ != user@;
    let mut kept: Vec<String> = Vec::new();
    let mut k: usize = 0;
    while k < list.len()
        invariant
            k <= list@.len(),
            kept@ == list@.take(k as int).filter(p),
            p == (|u: String| u@ != user@),
        decreases list@.len() - k,
    {
        proof {
            lemma_filter_take_step(list@, p, k as int);
        }
        if list[k] != *user {
            kept.push(list[k].clone());
        }
        k = k + 1;
    }
    assert(list@.take(list@.len() as int) =~= list@);
    kept
}

/// What `UiState::apply_chat_message` does.
pub open spec fn apply_chat_message_post(pre: UiState, post: UiState, message_id: String, channel_id: String, sender_id: String, content: String, timestamp: i64, reply_to: Option<String>) -> bool {
    &&& (post.messages@ == pre.messages@.insert(
            channel_id@,
            post.messages@[channel_id@],
        ))
    &&& (appended(
            post.messages@[channel_id@]@,
            list_or_empty(pre.messages@, channel_id@),
        ))
    &&& (is_new_message(
            post.messages@[channel_id@]@.last(),
            message_id,
            sender_id,
            content,
            timestamp,
            reply_to,
        ))
    &&& (post.scroll_bottom)
    &&& (post == (UiState {
            messages: post.messages,
            scroll_bottom: true,
            ..pre
        }))
}

/// What `UiState::apply_chat_history` does.
pub open spec fn apply_chat_history_post(pre: UiState, post: UiState, channel_id: String, messages: Vec<ChatMsg>) -> bool {
    &&& (post.messages@ == pre.messages@.insert(
            channel_id@,
            post.messages@[channel_id@],
        ))
    &&& (is_history_of(post.messages@[channel_id@]@, messages@))
    &&& (post == (UiState {
            messages: post.messages,
            scroll_bottom: true,
            ..pre
        }))
}

/// What `UiState::apply_error` does.
pub open spec fn apply_error_post(pre: UiState, post: UiState, message: String) -> bool {
    &&& (post.status_msg matches Some(s) && s@ == "error: "@ + message@)
    &&& (post == (UiState { status_msg: post.status_msg, ..pre }))
}

/// What `UiState::apply_reaction_added` does.
pub open spec fn apply_reaction_added_post(pre: UiState, post: UiState, channel_id: String, message_id: String, user_id: String, emoji: String) -> bool {
    &&& (({
            let had = pre.messages@.dom().contains(channel_id@);
            let msgs = pre.messages@[channel_id@]@;
            let i = first_index(msgs, msg_has_id(message_id@));
            if had && i < msgs.len() {
                let nm = post.messages@[channel_id@]@;
                &&& post.messages@ == pre.messages@.insert(
                    channel_id@,
                    post.messages@[channel_id@],
                )
                &&& replaced_at(nm, msgs, i)
                &&& nm[i] == (ChatMessage { reactions: nm[i].reactions, ..msgs[i] })
                &&& nm[i].reactions@ == msgs[i].reactions@.insert(emoji@, nm[i].reactions@[emoji@])
                &&& nm[i].reactions@[emoji@]@ == list_or_empty(msgs[i].reactions@, emoji@).push(
                    user_id,
                )
            } else {
                post.messages == pre.messages
            }
        }))
    &&& (post == (UiState { messages: post.messages, ..pre }))
}

/// What `UiState::apply_reaction_removed` does.
pub open spec fn apply_reaction_removed_post(pre: UiState, post: UiState, channel_id: String, message_id: String, user_id: String, emoji: String) -> bool {
    &&& (({
            let had = pre.messages@.dom().contains(channel_id@);
            let msgs = pre.messages@[channel_id@]@;
            let i = first_index(msgs, msg_has_id(message_id@));
            if had && i < msgs.len() && msgs[i].reactions@.dom().contains(emoji@) {
                let nm = post.messages@[channel_id@]@;
                let users = msgs[i].reactions@[emoji@]@.filter(|u: String| u@ != user_id@);
                &&& post.messages@ == pre.messages@.insert(
                    channel_id@,
                    post.messages@[channel_id@],
                )
                &&& replaced_at(nm, msgs, i)
                &&& nm[i] == (ChatMessage { reactions: nm[i].reactions, ..msgs[i] })
                &&& if users.len() == 0 {
                    nm[i].reactions@ == msgs[i].reactions@.remove(emoji@)
                } else {
                    &&& nm[i].reactions@ == msgs[i].reactions@.insert(
                        emoji@,
                        nm[i].reactions@[emoji@],
                    )
                    &&& nm[i].reactions@[emoji@]@ == users
                }
            } else {
                post.messages == pre.messages
            }
        }))
    &&& (post == (UiState { messages: post.messages, ..pre }))
}

/// What `UiState::apply_message_edited` does.
pub open spec fn apply_message_edited_post(pre: UiState, post: UiState, channel_id: String, message_id: String, content: String) -> bool {
    &&& (({
            let had = pre.messages@.dom().contains(channel_id@);
            let msgs = pre.messages@[channel_id@]@;
            let i = first_index(msgs, msg_has_id(message_id@));
            if had && i < msgs.len() {
                let nm = post.messages@[channel_id@]@;
                &&& post.messages@ == pre.messages@.insert(
                    channel_id@,
                    post.messages@[channel_id@],
                )
                &&& replaced_at(nm, msgs, i)
                &&& nm[i] == (ChatMessage { content, edited: true, ..msgs[i] })
            } else {
                post.messages == pre.messages
            }
        }))
    &&& (post == (UiState { messages: post.messages, ..pre }))
}

/// What `UiState::apply_message_deleted` does.
pub open spec fn apply_message_deleted_post(pre: UiState, post: UiState, channel_id: String, message_id: String) -> bool {
    &&& (if pre.messages@.dom().contains(channel_id@) {
            &&& post.messages@ == pre.messages@.insert(
                channel_id@,
                post.messages@[channel_id@],
            )
            &&& post.messages@[channel_id@]@ == pre.messages@[channel_id@]@.filter(
                |m: ChatMessage| m.message_id@ != message_id@,
            )
        } else {
            post.messages == pre.messages
        })
    &&& (post == (UiState { messages: post.messages, ..pre }))
}

/// What `UiState::apply_dm_message` does.
pub open spec fn apply_dm_message_post(pre: UiState, post: UiState, dm_id: String, sender_id: String, content: String, timestamp: i64, fresh_id: String) -> bool {
    &&& (post.dm_messages@ == pre.dm_messages@.insert(
            dm_id@,
            post.dm_messages@[dm_id@],
        ))
    &&& (appended(
            post.dm_messages@[dm_id@]@,
            list_or_empty(pre.dm_messages@, dm_id@),
        ))
    &&& (is_new_message(
            post.dm_messages@[dm_id@]@.last(),
            fresh_id,
            sender_id,
            content,
            timestamp,
            None,
        ))
    &&& (({
            let convs = pre.dm_conversations@;
            let i = first_index(convs, dm_has_id(dm_id@));
            let open = pre.active_dm_id matches Some(a) && a@ == dm_id@;
            if !open && i < convs.len() {
                &&& replaced_at(post.dm_conversations@, convs, i)
                &&& post.dm_conversations@[i] == (DmConversation {
                    unread_count: wrapping_inc(convs[i].unread_count),
                    ..convs[i]
                })
            } else {
                post.dm_conversations == pre.dm_conversations
            }
        }))
    &&& (post == (UiState {
            dm_messages: post.dm_messages,
            dm_conversations: post.dm_conversations,
            ..pre
        }))
}

/// What `UiState::apply_dm_history` does.
pub open spec fn apply_dm_history_post(pre: UiState, post: UiState, dm_id: String, messages: Vec<ChatMsg>) -> bool {
    &&& (post.dm_messages@ == pre.dm_messages@.insert(
            dm_id@,
            post.dm_messages@[dm_id@],
        ))
    &&& (is_history_of(post.dm_messages@[dm_id@]@, messages@))
    &&& (post == (UiState { dm_messages: post.dm_messages, ..pre }))
}

/// What `UiState::apply_read_receipt` does.
pub open spec fn apply_read_receipt_post(pre: UiState, post: UiState, channel_id: String, user_id: String, last_read_message_id: String) -> bool {
    &&& (post.read_receipts@ == pre.read_receipts@.insert(
            channel_id@,
            post.read_receipts@[channel_id@],
        ))
    &&& (post.read_receipts@[channel_id@]@ == (if pre.read_receipts@.dom().contains(channel_id@) {
            pre.read_receipts@[channel_id@]@
        } else {
            Map::empty()
        }).insert(user_id@, last_read_message_id))
    &&& (post == (UiState { read_receipts: post.read_receipts, ..pre }))
}

/// What `UiState::apply_user_color` does.
pub open spec fn apply_user_color_post(pre: UiState, post: UiState, user_id: String, color: String) -> bool {
    &&& (match parse_hex_color_spec(color@) {
            Some(c) => post.user_colors@ == pre.user_colors@.insert(
                user_id@,
                post.user_colors@[user_id@],
            ) && post.user_colors@[user_id@]@ == c,
            None => post.user_colors == pre.user_colors,
        })
    &&& (post == (UiState { user_colors: post.user_colors, ..pre }))
}

impl UiState {
    /// A message arrived in a channel: append it and scroll to the bottom.
    pub fn apply_chat_message(
        &mut self,
        message_id: String,
        channel_id: String,
        sender_id: String,
        content: String,
        timestamp: i64,
        reply_to: Option<String>,
    )
        ensures
            apply_chat_message_post(*old(self), *final(self), message_id, channel_id, sender_id, content, timestamp, reply_to),
    {
        let m = ChatMessage {
            message_id,
            sender_id,
            content,
            timestamp,
            edited: false,
            reactions: StrMap::new(),
            reply_to,
        };
        push_to_list(&mut self.messages, channel_id, m);
        self.scroll_bottom = true;
    }

    /// A channel's history arrived: it replaces what we had and we scroll down.
    pub fn apply_chat_history(&mut self, channel_id: String, messages: Vec<ChatMsg>)
        ensures
            apply_chat_history_post(*old(self), *final(self), channel_id, messages),
    {
        let history = history_to_messages(messages);
        self.messages.insert(channel_id, history);
        self.scroll_bottom = true;
    }

    /// The server reported an error: show it.
    pub fn apply_error(&mut self, message: String)
        ensures
            apply_error_post(*old(self), *final(self), message),
    {
        let mut s = to_string("error: ");
        push_str(&mut s, message.as_str());
        self.status_msg = Some(s);
    }

    /// Someone reacted to a message: add them to that emoji's reactors.
    pub fn apply_reaction_added(
        &mut self,
        channel_id: String,
        message_id: String,
        user_id: String,
        emoji: String,
    )
        ensures
            apply_reaction_added_post(*old(self), *final(self), channel_id, message_id, user_id, emoji),
    {
        match locate_message(&self.messages, &channel_id, &message_id) {
            Some(i) => {
                let mut list = match self.messages.remove(channel_id.as_str()) {
                    Some(l) => l,
                    None => Vec::new(),
                };
                let ghost before = list@;
                push_to_list(&mut list[i].reactions, emoji, user_id);
                assert forall|j: int| 0 <= j < before.len() && j != i implies #[trigger] list@[j]
                    == before[j] by {}
                self.messages.insert(channel_id, list);
                assert(self.messages@ =~= old(self).messages@.insert(
                    channel_id@,
                    self.messages@[channel_id@],
                ));
            },
            None => {},
        }
    }

    /// Someone withdrew a reaction: drop them from that emoji's reactors, and
    /// drop the emoji when nobody is left.
    pub fn apply_reaction_removed(
        &mut self,
        channel_id: String,
        message_id: String,
        user_id: String,
        emoji: String,
    )
        ensures
            apply_reaction_removed_post(*old(self), *final(self), channel_id, message_id, user_id, emoji),
    {
        match locate_message(&self.messages, &channel_id, &message_id) {
            Some(i) => {
                let present = match self.messages.get(channel_id.as_str()) {
                    Some(l) => l[i].reactions.contains_key(emoji.as_str()),
                    None => false,
                };
                if !present {
                    return ;
                }
                let mut list = match self.messages.remove(channel_id.as_str()) {
                    Some(l) => l,
                    None => Vec::new(),
                };
                let ghost before = list@;
                let users = match list[i].reactions.remove(emoji.as_str()) {
                    Some(us) => us,
                    None => Vec::new(),
                };
                let kept = without_user(&users, &user_id);
                if kept.len() > 0 {
                    list[i].reactions.insert(emoji, kept);
                    assert(list@[i as int].reactions@ =~= before[i as int].reactions@.insert(
                        emoji@,
                        list@[i as int].reactions@[emoji@],
                    ));
                }
                assert forall|j: int| 0 <= j < before.len() && j != i implies #[trigger] list@[j]
                    == before[j] by {}
                self.messages.insert(channel_id, list);
                assert(self.messages@ =~= old(self).messages@.insert(
                    channel_id@,
                    self.messages@[channel_id@],
                ));
            },
            None => {},
        }
    }

    /// A message was edited: take the new text and mark it edited.
    pub fn apply_message_edited(&mut self, channel_id: String, message_id: String, content: String)
        ensures
            apply_message_edited_post(*old(self), *final(self), channel_id, message_id, content),
    {
        match locate_message(&self.messages, &channel_id, &message_id) {
            Some(i) => {
                let mut list = match self.messages.remove(channel_id.as_str()) {
                    Some(l) => l,
                    None => Vec::new(),
                };
                let ghost before = list@;
                list[i].content = content;
                list[i].edited = true;
                assert forall|j: int| 0 <= j < before.len() && j != i implies #[trigger] list@[j]
                    == before[j] by {}
                self.messages.insert(channel_id, list);
                assert(self.messages@ =~= old(self).messages@.insert(
                    channel_id@,
                    self.messages@[channel_id@],
                ));
            },
            None => {},
        }
    }

    /// A message was deleted: drop it from its channel.
    pub fn apply_message_deleted(&mut self, channel_id: String, message_id: String)
        ensures
            apply_message_deleted_post(*old(self), *final(self), channel_id, message_id),
    {
        if self.messages.contains_key(channel_id.as_str()) {
            let list = match self.messages.remove(channel_id.as_str()) {
                Some(l) => l,
                None => Vec::new(),
            };
            let kept = without_message(list, &message_id);
            self.messages.insert(channel_id, kept);
            assert(self.messages@ =~= old(self).messages@.insert(
                channel_id@,
                self.messages@[channel_id@],
            ));
        }
    }

    /// A direct message arrived: append it under a fresh id, and count it as
    /// unread when its conversation is not the open one.
    #[verifier::rlimit(30)]
    pub fn apply_dm_message(
        &mut self,
        dm_id: String,
        sender_id: String,
        content: String,
        timestamp: i64,
        fresh_id: String,
    )
        ensures
            apply_dm_message_post(*old(self), *final(self), dm_id, sender_id, content, timestamp, fresh_id),
    {
        let m = ChatMessage {
            message_id: fresh_id,
            sender_id,
            content,
            timestamp,
            edited: false,
            reactions: StrMap::new(),
            reply_to: None,
        };
        push_to_list(&mut self.dm_messages, dm_id.clone(), m);
        let open = match &self.active_dm_id {
            Some(a) => *a == dm_id,
            None => false,
        };
        if !open {
            let i = find_dm(&self.dm_conversations, &dm_id);
            if i < self.dm_conversations.len() {
                let ghost before = self.dm_conversations@;
                let c = self.dm_conversations[i].unread_count;
                self.dm_conversations[i].unread_count = if c == u32::MAX {
                    0
                } else {
                    c + 1
                };
                assert forall|j: int| 0 <= j < before.len() && j != i implies #[trigger] self.dm_conversations@[j]
                    == before[j] by {}
            }
        }
    }

    /// A conversation's history arrived: it replaces what we had.
    pub fn apply_dm_history(&mut self, dm_id: String, messages: Vec<ChatMsg>)
        ensures
            apply_dm_history_post(*old(self), *final(self), dm_id, messages),
    {
        let history = history_to_messages(messages);
        self.dm_messages.insert(dm_id, history);
    }

    /// A user read a channel up to a message: remember it.
    pub fn apply_read_receipt(
        &mut self,
        channel_id: String,
        user_id: String,
        last_read_message_id: String,
    )
        ensures
            apply_read_receipt_post(*old(self), *final(self), channel_id, user_id, last_read_message_id),
    {
        let mut inner = match self.read_receipts.remove(channel_id.as_str()) {
            Some(m) => m,
            None => StrMap::new(),
        };
        inner.insert(user_id, last_read_message_id);
        self.read_receipts.insert(channel_id, inner);
        assert(self.read_receipts@ =~= old(self).read_receipts@.insert(
            channel_id@,
            self.read_receipts@[channel_id@],
        ));
    }

    /// The server assigned a user a colour: keep it when it reads as a colour.
    pub fn apply_user_color(&mut self, user_id: String, color: String)
        ensures
            apply_user_color_post(*old(self), *final(self), user_id, color),
    {
        match parse_hex_color(color.as_str()) {
            Some(c) => {
                self.user_colors.insert(user_id, c);
                assert(self.user_colors@ =~= old(self).user_colors@.insert(
                    user_id@,
                    self.user_colors@[user_id@],
                ));
            },
            None => {},
        }
    }
}

} // verus!
