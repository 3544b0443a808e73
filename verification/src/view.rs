//! What the message list, member lists and sidebar show, computed from the
//! state: typing notices, reply previews, reaction toggles, message groups,
//! unread badges, initials and short ids.

use vstd::prelude::*;
use vstd::string::StringSliceAdditionalSpecFns;

use crate::chat_channels::contains_string;
use crate::chat_messages::{find_message, list_or_empty, msg_has_id};
use crate::events::NetCommand;
use crate::models::{Channel, ChatMessage};
use crate::seqs::{first_index, lemma_filter_take_step};
use crate::social::has_string;
use crate::text::{decimal, push_decimal, push_str, take_chars, to_string};
use crate::types::{Popups, UiState};

verus! {

/// The names in a typing list.
pub open spec fn typer_names(list: Seq<(String, u64)>) -> Seq<Seq<char>> {
    list.map_values(|e: (String, u64)| e.0@)
}

/// Names joined with ", ".
pub open spec fn join_comma(names: Seq<Seq<char>>) -> Seq<char>
    decreases names.len(),
{
    if names.len() == 0 {
        Seq::empty()
    } else if names.len() == 1 {
        names[0]
    } else {
        join_comma(names.drop_last()) + ", "@ + names.last()
    }
}

/// The typing notice for some names: one name "is typing", several "are
/// typing" with the last joined by "and".
pub open spec fn typing_label_spec(names: Seq<Seq<char>>) -> Seq<char> {
    if names.len() == 1 {
        names[0] + " is typing..."@
    } else {
        join_comma(names.drop_last()) + " and "@ + names.last() + " are typing..."@
    }
}

/// A typing entry is still fresh at `now_ms`: it started less than
/// `timeout_ms` ago (an entry from the future counts as just started).
pub open spec fn typing_fresh(now_ms: u64, timeout_ms: u64) -> spec_fn((String, u64)) -> bool {
    |e: (String, u64)| (if now_ms >= e.1 { now_ms - e.1 } else { 0int }) < timeout_ms
}

/// What `UiState::typing_notice` does: the stale entries of the channel go;
/// when none is left the channel's entry goes too and nothing is shown.
pub open spec fn typing_notice_post(
    pre: UiState,
    post: UiState,
    ch_id: Seq<char>,
    now_ms: u64,
    timeout_ms: u64,
    label: Option<String>,
) -> bool {
    if pre.typing_users@.dom().contains(ch_id) {
        let kept = pre.typing_users@[ch_id]@.filter(typing_fresh(now_ms, timeout_ms));
        if kept.len() == 0 {
            &&& post.typing_users@ == pre.typing_users@.remove(ch_id)
            &&& post == (UiState { typing_users: post.typing_users, ..pre })
            &&& label is None
        } else {
            &&& post.typing_users@ == pre.typing_users@.insert(ch_id, post.typing_users@[ch_id])
            &&& post.typing_users@[ch_id]@ == kept
            &&& post == (UiState { typing_users: post.typing_users, ..pre })
            &&& label matches Some(l) && l@ == typing_label_spec(typer_names(kept))
        }
    } else {
        post == pre && label is None
    }
}

/// The preview of the message replied to: its author's nickname and its
/// first sixty characters, or a note that it is gone.
pub open spec fn reply_snippet_spec(ui: UiState, ch_id: Seq<char>, reply_id: Seq<char>) -> Seq<char> {
    let msgs = list_or_empty(ui.messages@, ch_id);
    let i = first_index(msgs, msg_has_id(reply_id));
    if i < msgs.len() {
        let m = msgs[i];
        let nick = if ui.user_names@.dom().contains(m.sender_id@) {
            ui.user_names@[m.sender_id@]@
        } else {
            m.sender_id@
        };
        let n = if m.content@.len() < 60 {
            m.content@.len() as int
        } else {
            60
        };
        "\u{2192} "@ + nick + ": "@ + m.content@.take(n)
    } else {
        "\u{2192} (deleted message)"@
    }
}

/// The user has reacted to the message with the emoji.
pub open spec fn has_reacted(m: ChatMessage, emoji: Seq<char>, user_id: Seq<char>) -> bool {
    has_string(list_or_empty(m.reactions@, emoji), user_id)
}

/// Each message starts a new group unless the one before it has the same
/// sender.
pub open spec fn starts_group_spec(msgs: Seq<ChatMessage>, i: int) -> bool {
    i == 0 || msgs[i - 1].sender_id@ != msgs[i].sender_id@
}

/// The badge for a number of unread messages: none for zero, the number up to
/// 99, "99+" above.
pub open spec fn unread_badge_spec(count: u32) -> Option<Seq<char>> {
    if count == 0 {
        None
    } else if count > 99 {
        Some("99+"@)
    } else {
        Some(decimal(count as nat))
    }
}

/// The names of a typing list joined with ", ".
fn join_typers(list: &Vec<(String, u64)>, upto: usize) -> (r: String)
    requires
        1 <= upto <= list@.len(),
    ensures
        r@ == join_comma(typer_names(list@).take(upto as int)),
{
    let ghost names = typer_names(list@);
    let mut s = list[0].0.clone();
    assert(names.take(1).drop_last() =~= Seq::<Seq<char>>::empty());
    let mut k: usize = 1;
    while k < upto
        invariant
            1 <= k <= upto <= list@.len(),
            names == typer_names(list@),
            s@ == join_comma(names.take(k as int)),
        decreases upto - k,
    {
        push_str(&mut s, ", ");
        push_str(&mut s, list[k].0.as_str());
        assert(names.take(k + 1).drop_last() =~= names.take(k as int));
        k = k + 1;
    }
    s
}

impl UiState {
    /// The typing notice for channel `ch_id` at `now_ms`; entries older than
    /// `timeout_ms` are dropped first (see `typing_notice_post`).
    pub fn typing_notice(&mut self, ch_id: &str, now_ms: u64, timeout_ms: u64) -> (label: Option<
        String,
    >)
        ensures
            typing_notice_post(*old(self), *final(self), ch_id@, now_ms, timeout_ms, label),
    {
        if !self.typing_users.contains_key(ch_id) {
            return None;
        }
        let list = match self.typing_users.remove(ch_id) {
            Some(l) => l,
            None => Vec::new(),
        };
        let ghost orig = list@;
        let ghost p = typing_fresh(now_ms, timeout_ms);
        let mut kept: Vec<(String, u64)> = Vec::new();
        let mut k: usize = 0;
        while k < list.len()
            invariant
                list@ == orig,
                k <= orig.len(),
                kept@ == orig.take(k as int).filter(p),
                p == typing_fresh(now_ms, timeout_ms),
            decreases orig.len() - k,
        {
            proof {
                lemma_filter_take_step(orig, p, k as int);
            }
            let age: u64 = if now_ms >= list[k].1 {
                now_ms - list[k].1
            } else {
                0
            };
            if age < timeout_ms {
                kept.push((list[k].0.clone(), list[k].1));
            }
            k = k + 1;
        }
        assert(orig.take(orig.len() as int) =~= orig);
        if kept.len() == 0 {
            return None;
        }
        let ghost names = typer_names(kept@);
        let n = kept.len();
        let mut label = String::new();
        if n == 1 {
            push_str(&mut label, kept[0].0.as_str());
            push_str(&mut label, " is typing...");
        } else {
            label = join_typers(&kept, n - 1);
            push_str(&mut label, " and ");
            push_str(&mut label, kept[n - 1].0.as_str());
            push_str(&mut label, " are typing...");
            assert(names.take(n - 1) =~= names.drop_last());
        }
        assert(label@ =~= typing_label_spec(names));
        self.typing_users.insert(to_string(ch_id), kept);
        assert(self.typing_users@ =~= old(self).typing_users@.insert(ch_id@, self.typing_users@[ch_id@]));
        Some(label)
    }

    /// The preview of the message with id `reply_id` in channel `ch_id`.
    pub fn reply_snippet(&self, ch_id: &str, reply_id: &str) -> (r: String)
        ensures
            r@ == reply_snippet_spec(*self, ch_id@, reply_id@),
    {
        let msgs = match self.messages.get(ch_id) {
            Some(l) => l,
            None => {
                return to_string("\u{2192} (deleted message)");
            },
        };
        let id = to_string(reply_id);
        let i = find_message(msgs, &id);
        if i == msgs.len() {
            return to_string("\u{2192} (deleted message)");
        }
        let m = &msgs[i];
        let mut s = to_string("\u{2192} ");
        push_str(&mut s, self.nick_for(m.sender_id.as_str()));
        push_str(&mut s, ": ");
        let snippet = take_chars(m.content.as_str(), 60);
        push_str(&mut s, snippet.as_str());
        s
    }
}

/// Whether `user_id` has reacted to `m` with `emoji`.
pub fn reacted(m: &ChatMessage, emoji: &str, user_id: &str) -> (b: bool)
    ensures
        b == has_reacted(*m, emoji@, user_id@),
{
    match m.reactions.get(emoji) {
        Some(users) => {
            let u = to_string(user_id);
            let b = contains_string(users, &u);
            proof {
                if b {
                    let k = choose|k: int| 0 <= k < users@.len() && users@[k]@ == u@;
                    assert(has_string(users@, user_id@));
                }
            }
            b
        },
        None => false,
    }
}

/// `cmd` is the command a reaction toggle sends for user `own_id`: it
/// removes the user's reaction with `emoji` on `m` in channel `ch_id` when
/// there is one, else adds it.
pub open spec fn reaction_command_spec(
    m: ChatMessage,
    ch_id: Seq<char>,
    emoji: Seq<char>,
    own_id: Seq<char>,
    cmd: NetCommand,
) -> bool {
    if has_reacted(m, emoji, own_id) {
        cmd matches NetCommand::ReactionRemove { channel_id, message_id, emoji: e }
            && channel_id@ == ch_id && message_id == m.message_id && e@ == emoji
    } else {
        cmd matches NetCommand::ReactionAdd { channel_id, message_id, emoji: e }
            && channel_id@ == ch_id && message_id == m.message_id && e@ == emoji
    }
}

/// The command a quick-reaction button sends for user `own_id`: it removes
/// the user's reaction when there is one, else adds it.
pub fn reaction_command(m: &ChatMessage, ch_id: &str, emoji: &str, own_id: &str) -> (cmd: NetCommand)
    ensures
        reaction_command_spec(*m, ch_id@, emoji@, own_id@, cmd),
{
    if reacted(m, emoji, own_id) {
        NetCommand::ReactionRemove {
            channel_id: to_string(ch_id),
            message_id: m.message_id.clone(),
            emoji: to_string(emoji),
        }
    } else {
        NetCommand::ReactionAdd {
            channel_id: to_string(ch_id),
            message_id: m.message_id.clone(),
            emoji: to_string(emoji),
        }
    }
}

/// The actions a message row offers beyond reacting, replying and copying.
#[derive(Debug, Clone, Copy, PartialEq, Eq, Structural)]
pub struct RowActions {
    pub edit: bool,
    pub delete: bool,
}

/// Edit and Delete are offered only on the user's own messages.
pub fn row_actions(m: &ChatMessage, own_id: &str) -> (r: RowActions)
    ensures
        r.edit == (m.sender_id@ == own_id@),
        r.delete == (m.sender_id@ == own_id@),
{
    let own = m.sender_id.as_str().eq(own_id);
    RowActions { edit: own, delete: own }
}

/// The label of a quick-reaction button: the emoji, marked with " +" once
/// the user has reacted with it.
pub fn reaction_label(emoji: &str, reacted: bool) -> (r: String)
    ensures
        r@ == if reacted {
            emoji@ + " +"@
        } else {
            emoji@
        },
{
    let mut s = to_string(emoji);
    if reacted {
        push_str(&mut s, " +");
    }
    s
}

/// For each message, whether it starts a group of messages by one sender.
pub fn group_starts(msgs: &Vec<ChatMessage>) -> (r: Vec<bool>)
    ensures
        r@.len() == msgs@.len(),
        forall|i: int| 0 <= i < msgs@.len() ==> r@[i] == starts_group_spec(msgs@, i),
{
    let mut r: Vec<bool> = Vec::new();
    let mut i: usize = 0;
    while i < msgs.len()
        invariant
            i <= msgs@.len(),
            r@.len() == i,
            forall|j: int| 0 <= j < i ==> r@[j] == starts_group_spec(msgs@, j),
        decreases msgs@.len() - i,
    {
        let start = if i == 0 {
            true
        } else {
            !msgs[i - 1].sender_id.as_str().eq(msgs[i].sender_id.as_str())
        };
        r.push(start);
        i = i + 1;
    }
    r
}

/// The badge shown beside a conversation with `count` unread messages.
pub fn unread_badge(count: u32) -> (r: Option<String>)
    ensures
        match r {
            Some(s) => unread_badge_spec(count) == Some(s@),
            None => unread_badge_spec(count) is None,
        },
{
    if count == 0 {
        None
    } else if count > 99 {
        Some(to_string("99+"))
    } else {
        let mut s = String::new();
        push_decimal(&mut s, count as u64);
        Some(s)
    }
}

/// What `char::to_uppercase` gives for `c`: its Unicode upper-case mapping,
/// one or more characters.
pub uninterp spec fn upper_case_of(c: char) -> Seq<char>;

/// `char::to_uppercase`, collected into a string. The mapping is Unicode's
/// and is not written out here: the result is named `upper_case_of(c)`.
#[verifier::external_body]
fn upper_case(c: char) -> (r: String)
    ensures
        r@ == upper_case_of(c),
{
    c.to_uppercase().to_string()
}

/// The letter shown in an avatar: the first character of the name in upper
/// case, or `?` for an empty name.
pub fn avatar_initial(nick: &str) -> (r: String)
    ensures
        r@ == upper_case_of(if nick@.len() > 0 { nick@[0] } else { '?' }),
{
    if nick.unicode_len() > 0 {
        upper_case(nick.get_char(0))
    } else {
        upper_case('?')
    }
}

/// The start of a user id shown beside a member: its first eight bytes, or
/// all of it when shorter.
pub fn short_user_id(user_id: &str) -> (r: &str)
    requires
        user_id.spec_bytes().len() <= 8 || vstd::utf8::is_char_boundary(user_id.spec_bytes(), 8),
    ensures
        r.spec_bytes() == user_id.spec_bytes().take(
            if user_id.spec_bytes().len() < 8 {
                user_id.spec_bytes().len() as int
            } else {
                8
            },
        ),
{
    let n = user_id.as_bytes().len();
    if n <= 8 {
        assert(user_id.spec_bytes().take(user_id.spec_bytes().len() as int) =~= user_id.spec_bytes());
        user_id
    } else {
        let (head, _) = user_id.split_at(8);
        assert(head.spec_bytes() =~= user_id.spec_bytes().take(8));
        head
    }
}

/// A reaction under a message: its emoji, how many reacted, and whether the
/// user is among them.
#[derive(Debug, Clone)]
pub struct ReactionChip {
    pub emoji: String,
    pub label: String,
    pub count: usize,
    pub reacted: bool,
}

/// The reactions under a message, one chip per emoji, labelled with the emoji
/// and the number of users.
pub fn reaction_chips(m: &ChatMessage, own_id: &str) -> (r: Vec<ReactionChip>)
    ensures
        r@.len() == m.reactions@.dom().len(),
        forall|i: int, j: int| 0 <= i < j < r@.len() ==> (#[trigger] r@[i]).emoji@ != (#[trigger] r@[j]).emoji@,
        forall|i: int|
            0 <= i < r@.len() ==> {
                let c = #[trigger] r@[i];
                &&& m.reactions@.dom().contains(c.emoji@)
                &&& c.count == m.reactions@[c.emoji@]@.len()
                &&& c.reacted == has_reacted(*m, c.emoji@, own_id@)
                &&& c.label@ == c.emoji@ + " "@ + decimal(c.count as nat)
            },
{
    let emojis = m.reactions.keys();
    let mut r: Vec<ReactionChip> = Vec::new();
    let mut i: usize = 0;
    while i < emojis.len()
        invariant
            i <= emojis@.len(),
            emojis@.len() == m.reactions@.dom().len(),
            forall|k: int| 0 <= k < emojis@.len() ==> m.reactions@.dom().contains(#[trigger] emojis@[k]@),
            forall|a: int, b: int| 0 <= a < b < emojis@.len() ==> (#[trigger] emojis@[a])@ != (#[trigger] emojis@[b])@,
            r@.len() == i,
            forall|k: int| 0 <= k < i ==> (#[trigger] r@[k]).emoji@ == emojis@[k]@,
            forall|k: int|
                0 <= k < i ==> {
                    let c = #[trigger] r@[k];
                    &&& c.count == m.reactions@[c.emoji@]@.len()
                    &&& c.reacted == has_reacted(*m, c.emoji@, own_id@)
                    &&& c.label@ == c.emoji@ + " "@ + decimal(c.count as nat)
                },
        decreases emojis@.len() - i,
    {
        let e = &emojis[i];
        let count = match m.reactions.get(e.as_str()) {
            Some(users) => users.len(),
            None => 0,
        };
        let reacted = reacted(m, e.as_str(), own_id);
        let mut label = e.clone();
        push_str(&mut label, " ");
        push_decimal(&mut label, count as u64);
        r.push(ReactionChip { emoji: e.clone(), label, count, reacted });
        i = i + 1;
    }
    r
}

impl UiState {
    /// Starts editing one of the user's own messages: its text goes into the
    /// input and any reply being written is dropped.
    pub fn start_edit(&mut self, m: &ChatMessage)
        ensures
            *final(self) == (UiState {
                chat_input: m.content,
                editing_message_id: Some(m.message_id),
                replying_to_message: None,
                ..*old(self)
            }),
    {
        self.chat_input = m.content.clone();
        self.editing_message_id = Some(m.message_id.clone());
        self.replying_to_message = None;
    }

    /// Shows the context menu of message `m`, which records which message it
    /// belongs to.
    pub fn show_context_menu(&mut self, m: &ChatMessage)
        ensures
            *final(self) == (UiState {
                popups: Popups { context_menu_message_id: Some(m.message_id), ..old(self).popups },
                ..*old(self)
            }),
    {
        self.popups.context_menu_message_id = Some(m.message_id.clone());
    }

    /// A quick-reaction button of the context menu of `m` was clicked: the
    /// menu is recorded as that message's, and the command toggles the
    /// user's reaction (see `reaction_command`).
    pub fn context_menu_react(&mut self, m: &ChatMessage, ch_id: &str, emoji: &str, own_id: &str) -> (cmd:
        NetCommand)
        ensures
            *final(self) == (UiState {
                popups: Popups { context_menu_message_id: Some(m.message_id), ..old(self).popups },
                ..*old(self)
            }),
            reaction_command_spec(*m, ch_id@, emoji@, own_id@, cmd),
    {
        self.show_context_menu(m);
        reaction_command(m, ch_id, emoji, own_id)
    }

    /// Starts replying to a message, which ends any edit.
    pub fn start_reply(&mut self, m: &ChatMessage)
        ensures
            *final(self) == (UiState {
                replying_to_message: Some(m.message_id),
                replying_to_sender: m.sender_id,
                editing_message_id: None,
                ..*old(self)
            }),
    {
        self.replying_to_message = Some(m.message_id.clone());
        self.replying_to_sender = m.sender_id.clone();
        self.editing_message_id = None;
    }

    /// Leaves the voice channel by selecting a text channel: `general` when
    /// the selected channel is a listed text channel, else the first listed
    /// text channel, if any.
    pub fn leave_voice(&mut self)
        ensures
            old(self).active_channel is None ==> *final(self) == *old(self),
            old(self).active_channel is Some ==> ({
                let id = old(self).active_channel->0;
                let cs = old(self).channels@;
                let on_text = exists|k: int| 0 <= k < cs.len() && #[trigger] cs[k].id@ == id@ && cs[k].kind@ == "text"@;
                let t = first_index(cs, |c: Channel| c.kind@ == "text"@);
                if on_text {
                    final(self).active_channel matches Some(a) && a@ == "general"@
                } else if t < cs.len() {
                    final(self).active_channel == Some(cs[t].id)
                } else {
                    final(self).active_channel is None
                }
            }),
            *final(self) == (UiState { active_channel: final(self).active_channel, ..*old(self) }),
    {
        let id = match &self.active_channel {
            Some(id) => id.clone(),
            None => {
                return;
            },
        };
        let mut on_text = false;
        let mut i: usize = 0;
        while i < self.channels.len()
            invariant
                i <= self.channels@.len(),
                on_text == exists|k: int| 0 <= k < i && #[trigger] self.channels@[k].id@ == id@ && self.channels@[k].kind@ == "text"@,
            decreases self.channels@.len() - i,
        {
            if self.channels[i].id.as_str().eq(id.as_str()) && self.channels[i].kind.as_str().eq("text") {
                on_text = true;
            }
            i = i + 1;
        }
        if on_text {
            self.active_channel = Some(to_string("general"));
            return;
        }
        let ghost p = |c: Channel| c.kind@ == "text"@;
        let mut j: usize = 0;
        while j < self.channels.len()
            invariant
                j <= self.channels@.len(),
                p == (|c: Channel| c.kind@ == "text"@),
                forall|k: int| 0 <= k < j ==> !p(#[trigger] self.channels@[k]),
            ensures
                j <= self.channels@.len(),
                forall|k: int| 0 <= k < j ==> !p(#[trigger] self.channels@[k]),
                j == self.channels@.len() || p(self.channels@[j as int]),
            decreases self.channels@.len() - j,
        {
            if self.channels[j].kind.as_str().eq("text") {
                break;
            }
            j = j + 1;
        }
        proof {
            crate::seqs::lemma_first_index(self.channels@, p, j as int);
        }
        self.active_channel = if j < self.channels.len() {
            Some(self.channels[j].id.clone())
        } else {
            None
        };
    }
}

/// The command that deletes one of the user's own messages.
pub fn delete_command(m: &ChatMessage, ch_id: &str) -> (cmd: NetCommand)
    ensures
        cmd matches NetCommand::MessageDelete { channel_id, message_id } && channel_id@ == ch_id@
            && message_id == m.message_id,
{
    NetCommand::MessageDelete { channel_id: to_string(ch_id), message_id: m.message_id.clone() }
}

/// Joining names with ", ": one name is itself, and adding a name after one
/// or more gives the earlier text, ", ", and the new name, so every name
/// appears, in order.
pub proof fn law_join_comma(s: Seq<Seq<char>>, x: Seq<char>)
    ensures
        join_comma(seq![x]) == x,
        s.len() > 0 ==> join_comma(s.push(x)) == join_comma(s) + ", "@ + x,
{
    assert(seq![x] =~= Seq::<Seq<char>>::empty().push(x));
    assert(s.push(x).drop_last() =~= s);
}

/// The typing notice for one name is "NAME is typing..."; for two or more it
/// is the names before the last joined with ", ", then " and ", the last
/// name, and " are typing...".
pub proof fn law_typing_label(s: Seq<Seq<char>>, x: Seq<char>)
    ensures
        typing_label_spec(seq![x]) == x + " is typing..."@,
        s.len() > 0 ==> typing_label_spec(s.push(x)) == join_comma(s) + " and "@ + x
            + " are typing..."@,
{
    assert(s.push(x).drop_last() =~= s);
}

} // verus!
