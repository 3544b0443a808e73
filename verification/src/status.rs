//! How connection, latency, typing and presence events change the UI state.

use vstd::prelude::*;

use crate::chat_messages::list_or_empty;
use crate::events::NetCommand;
use crate::models::PresenceInfo;
use crate::seqs::lemma_filter_take_step;
use crate::state::are_default_channels;
use crate::text::{decimal, push_decimal, push_str, to_string};
use crate::types::{ConnState, UiState};

verus! {

/// The presence table after storing each presence under its user, in order.
pub open spec fn insert_presences(m: Map<Seq<char>, PresenceInfo>, ps: Seq<PresenceInfo>) -> Map<
    Seq<char>,
    PresenceInfo,
>
    decreases ps.len(),
{
    if ps.len() == 0 {
        m
    } else {
        insert_presences(m, ps.drop_last()).insert(ps.last().user_id@, ps.last())
    }
}

/// The status line after a drop that will be retried.
pub open spec fn connection_lost_text(reason: Seq<char>) -> Seq<char> {
    "connection lost: "@ + reason
}

/// The status line after a drop that ends the session.
pub open spec fn disconnected_text(reason: Seq<char>) -> Seq<char> {
    "disconnected: "@ + reason
}

/// The status line while waiting to reconnect.
pub open spec fn reconnecting_text(delay_secs: nat, attempt: nat) -> Seq<char> {
    "reconnecting in "@ + decimal(delay_secs) + "s (attempt "@ + decimal(attempt) + ")"@
}

/// The typers of a channel other than `user`, in order.
pub fn without_typer(list: Vec<(String, u64)>, user: &String) -> (r: Vec<(String, u64)>)
    ensures
        r@ == list@.filter(|e: (String, u64)| e.0@ != user@),
{
    let ghost orig = list@;
    let ghost p = |e: (String, u64)| e.0@ != user@;
    let mut rest = list;
    let mut kept: Vec<(String, u64)> = Vec::new();
    let n = rest.len();
    let mut k: usize = 0;
    while k < n
        invariant
            n == orig.len(),
            k <= n,
            rest@ == orig.skip(k as int),
            kept@ == orig.take(k as int).filter(p),
            p == (|e: (String, u64)| e.0@ != user@),
        decreases n - k,
    {
        proof {
            lemma_filter_take_step(orig, p, k as int);
        }
        let e = rest.remove(0);
        assert(e == orig[k as int]);
        assert(rest@ =~= orig.skip(k + 1));
        if e.0 != *user {
            kept.push(e);
        }
        k = k + 1;
    }
    assert(orig.take(n as int) =~= orig);
    kept
}

/// What `UiState::apply_latency` does.
pub open spec fn apply_latency_post(pre: UiState, post: UiState, rtt_ms: u32) -> bool {
    &&& (post == (UiState { rtt_ms: Some(rtt_ms), ..pre }))
}

/// What `UiState::apply_typing_start` does.
pub open spec fn apply_typing_start_post(pre: UiState, post: UiState, user_id: String, nickname: String, channel_id: String, now_ms: u64) -> bool {
    &&& (post.typing_users@ == pre.typing_users@.insert(
            channel_id@,
            post.typing_users@[channel_id@],
        ))
    &&& (post.typing_users@[channel_id@]@ == list_or_empty(
            pre.typing_users@,
            channel_id@,
        ).filter(|e: (String, u64)| e.0@ != user_id@).push((nickname, now_ms)))
    &&& (post == (UiState { typing_users: post.typing_users, ..pre }))
}

/// What `UiState::apply_presence_sync` does.
pub open spec fn apply_presence_sync_post(pre: UiState, post: UiState, presences: Vec<PresenceInfo>) -> bool {
    &&& (post.presences@ == insert_presences(pre.presences@, presences@))
    &&& (post == (UiState { presences: post.presences, ..pre }))
}

/// What `UiState::apply_presence_updated` does.
pub open spec fn apply_presence_updated_post(pre: UiState, post: UiState, user_id: String, status: String, custom_status: Option<String>, activity: Option<String>) -> bool {
    &&& (post.presences@ == pre.presences@.insert(
            user_id@,
            PresenceInfo { user_id, status, custom_status, activity, activity_text: None },
        ))
    &&& (post == (UiState { presences: post.presences, ..pre }))
}

/// What `UiState::handle_disconnected` does.
pub open spec fn handle_disconnected_post(pre: UiState, post: UiState, reason: Seq<char>, will_retry: bool) -> bool {
    &&& (will_retry ==> {
            &&& post.status_msg matches Some(s) && s@ == connection_lost_text(reason)
            &&& post == (UiState {
                status_msg: post.status_msg,
                dm_conversations: post.dm_conversations,
                dm_messages: post.dm_messages,
                active_dm_id: None,
                new_dm_input: None,
                private_mode: false,
                ..pre
            })
        })
    &&& (!will_retry ==> {
            &&& post.status_msg matches Some(s) && s@ == disconnected_text(reason)
            &&& post.conn is Disconnected
            &&& post.channels@.len() == 0
            &&& post.user_names@ == Map::<Seq<char>, String>::empty()
            &&& post == (UiState {
                conn: post.conn,
                channels: post.channels,
                active_channel: None,
                user_names: post.user_names,
                server_channel: None,
                rtt_ms: None,
                status_msg: post.status_msg,
                dm_conversations: post.dm_conversations,
                dm_messages: post.dm_messages,
                active_dm_id: None,
                new_dm_input: None,
                private_mode: false,
                ..pre
            })
        })
    &&& (post.dm_conversations@.len() == 0)
    &&& (post.dm_messages@ == Map::<Seq<char>, Vec<crate::models::ChatMessage>>::empty())
}

/// What `UiState::handle_reconnecting` does.
pub open spec fn handle_reconnecting_post(pre: UiState, post: UiState, attempt: u32, delay_secs: u64) -> bool {
    &&& (post.conn == (ConnState::Reconnecting { attempt }))
    &&& (post.status_msg matches Some(s) && s@ == reconnecting_text(
            delay_secs as nat,
            attempt as nat,
        ))
    &&& (post == (UiState {
            conn: post.conn,
            status_msg: post.status_msg,
            ..pre
        }))
}

/// What `UiState::on_connected` does.
pub open spec fn on_connected_post(pre: UiState, post: UiState, session_id: String, node_name: String, restored: bool, private_mode: bool, cmd: Option<NetCommand>) -> bool {
    &&& (post.conn == (ConnState::Connected { session_id, node_name }))
    &&& (post.private_mode == private_mode)
    &&& (restored ==> {
            &&& post.status_msg matches Some(s) && s@ == "reconnected"@
            &&& cmd == match pre.active_channel {
                Some(ch) => Some(NetCommand::JoinChannel { channel_id: ch }),
                None => None,
            }
            &&& post == (UiState {
                conn: post.conn,
                private_mode,
                status_msg: post.status_msg,
                ..pre
            })
        })
    &&& (!restored ==> {
            &&& (if pre.channels@.len() == 0 {
                are_default_channels(post.channels@)
            } else {
                post.channels == pre.channels
            })
            &&& post.active_channel matches Some(a) && a@ == "general"@
            &&& post.status_msg is None
            &&& cmd matches Some(NetCommand::JoinChannel { channel_id: c }) && c@ == "general"@
            &&& post == (UiState {
                conn: post.conn,
                private_mode,
                channels: post.channels,
                active_channel: post.active_channel,
                status_msg: None,
                ..pre
            })
        })
}

/// What `UiState::note_voice_packet` does.
pub open spec fn note_voice_packet_post(pre: UiState, post: UiState, sender_id: String, now_ms: u64, play: bool) -> bool {
    &&& (play == !pre.deafen)
    &&& (sender_id@.len() > 0 ==> post == (UiState {
            last_remote_speaker_id: sender_id,
            last_voice_packet_ms: now_ms,
            ..pre
        }))
    &&& (sender_id@.len() == 0 ==> post == pre)
}

impl UiState {
    /// A new round-trip time was measured.
    pub fn apply_latency(&mut self, rtt_ms: u32)
        ensures
            apply_latency_post(*old(self), *final(self), rtt_ms),
    {
        self.rtt_ms = Some(rtt_ms);
    }

    /// Someone started typing in a channel: entries whose name equals the
    /// user's id are dropped, and the nickname is recorded with `now_ms`.
    pub fn apply_typing_start(
        &mut self,
        user_id: String,
        nickname: String,
        channel_id: String,
        now_ms: u64,
    )
        ensures
            apply_typing_start_post(*old(self), *final(self), user_id, nickname, channel_id, now_ms),
    {
        let list = match self.typing_users.remove(channel_id.as_str()) {
            Some(l) => l,
            None => Vec::new(),
        };
        let mut kept = without_typer(list, &user_id);
        kept.push((nickname, now_ms));
        self.typing_users.insert(channel_id, kept);
        assert(self.typing_users@ =~= old(self).typing_users@.insert(
            channel_id@,
            self.typing_users@[channel_id@],
        ));
    }

    /// The server sent presences: store each under its user.
    pub fn apply_presence_sync(&mut self, presences: Vec<PresenceInfo>)
        ensures
            apply_presence_sync_post(*old(self), *final(self), presences),
    {
        let ghost orig = presences@;
        let mut rest = presences;
        let n = rest.len();
        let mut k: usize = 0;
        while k < n
            invariant
                n == orig.len(),
                k <= n,
                rest@ == orig.skip(k as int),
                self.presences@ == insert_presences(old(self).presences@, orig.take(k as int)),
                *self == (UiState { presences: self.presences, ..*old(self) }),
            decreases n - k,
        {
            let p = rest.remove(0);
            assert(p == orig[k as int]);
            assert(rest@ =~= orig.skip(k + 1));
            let key = p.user_id.clone();
            self.presences.insert(key, p);
            assert(orig.take(k + 1).drop_last() =~= orig.take(k as int));
            k = k + 1;
        }
        assert(orig.take(n as int) =~= orig);
    }

    /// A user changed their presence: store it, with no activity text.
    pub fn apply_presence_updated(
        &mut self,
        user_id: String,
        status: String,
        custom_status: Option<String>,
        activity: Option<String>,
    )
        ensures
            apply_presence_updated_post(*old(self), *final(self), user_id, status, custom_status, activity),
    {
        let key = user_id.clone();
        self.presences.insert(
            key,
            PresenceInfo { user_id, status, custom_status, activity, activity_text: None },
        );
    }

    /// The connection dropped. When it will be retried only the status line
    /// changes; otherwise the session's channels, names and latency are
    /// forgotten. Either way direct messages are closed and private mode ends.
    pub fn handle_disconnected(&mut self, reason: &str, will_retry: bool)
        ensures
            handle_disconnected_post(*old(self), *final(self), reason@, will_retry),
    {
        if will_retry {
            let mut s = to_string("connection lost: ");
            push_str(&mut s, reason);
            self.status_msg = Some(s);
        } else {
            self.conn = ConnState::Disconnected;
            self.channels.clear();
            self.active_channel = None;
            self.user_names.clear();
            self.server_channel = None;
            self.rtt_ms = None;
            let mut s = to_string("disconnected: ");
            push_str(&mut s, reason);
            self.status_msg = Some(s);
        }
        self.dm_conversations.clear();
        self.dm_messages.clear();
        self.active_dm_id = None;
        self.new_dm_input = None;
        self.private_mode = false;
    }

    /// The client will try again after `delay_secs`: say so.
    pub fn handle_reconnecting(&mut self, attempt: u32, delay_secs: u64)
        ensures
            handle_reconnecting_post(*old(self), *final(self), attempt, delay_secs),
    {
        self.conn = ConnState::Reconnecting { attempt };
        let mut s = to_string("reconnecting in ");
        push_decimal(&mut s, delay_secs);
        push_str(&mut s, "s (attempt ");
        push_decimal(&mut s, attempt as u64);
        push_str(&mut s, ")");
        self.status_msg = Some(s);
    }

    /// The session is up. A restored session rejoins the channel it had open;
    /// a new one gets the built-in channels and joins `general`.
    #[verifier::rlimit(40)]
    pub fn on_connected(
        &mut self,
        session_id: String,
        node_name: String,
        restored: bool,
        private_mode: bool,
    ) -> (cmd: Option<NetCommand>)
        ensures
            on_connected_post(*old(self), *final(self), session_id, node_name, restored, private_mode, cmd),
    {
        self.conn = ConnState::Connected { session_id, node_name };
        self.private_mode = private_mode;
        if restored {
            self.status_msg = Some(to_string("reconnected"));
            match &self.active_channel {
                Some(ch) => Some(NetCommand::JoinChannel { channel_id: ch.clone() }),
                None => None,
            }
        } else {
            self.seed_default_channels();
            self.active_channel = Some(to_string("general"));
            self.status_msg = None;
            Some(NetCommand::JoinChannel { channel_id: to_string("general") })
        }
    }

    /// A voice packet arrived: remember who spoke and when (when the packet
    /// names its sender), and say whether it should be played, which it is
    /// unless the user has deafened.
    pub fn note_voice_packet(&mut self, sender_id: String, now_ms: u64) -> (play: bool)
        ensures
            note_voice_packet_post(*old(self), *final(self), sender_id, now_ms, play),
    {
        if sender_id.as_str().unicode_len() > 0 {
            self.last_remote_speaker_id = sender_id;
            self.last_voice_packet_ms = now_ms;
        }
        !self.deafen
    }
}

/// Inserting presences one after another: every listed user is in the table
/// with the last entry listed for them, and every other user keeps what the
/// table had.
proof fn lemma_insert_presences(m: Map<Seq<char>, PresenceInfo>, ps: Seq<PresenceInfo>)
    ensures
        forall|i: int|
            0 <= i < ps.len() ==> insert_presences(m, ps).dom().contains(#[trigger] ps[i].user_id@),
        forall|i: int|
            0 <= i < ps.len() && (forall|j: int| i < j < ps.len() ==> ps[j].user_id@ != ps[i].user_id@)
                ==> insert_presences(m, ps)[#[trigger] ps[i].user_id@] == ps[i],
        forall|k: Seq<char>|
            (forall|i: int| 0 <= i < ps.len() ==> ps[i].user_id@ != k) ==> (#[trigger] insert_presences(
                m,
                ps,
            ).dom().contains(k) == m.dom().contains(k) && (m.dom().contains(k) ==> insert_presences(
                m,
                ps,
            )[k] == m[k])),
    decreases ps.len(),
{
    if ps.len() > 0 {
        let q = ps.drop_last();
        lemma_insert_presences(m, q);
        let n = ps.len() - 1;
        assert forall|i: int| 0 <= i < ps.len() implies insert_presences(m, ps).dom().contains(
            #[trigger] ps[i].user_id@,
        ) by {
            if i < n {
                assert(q[i] == ps[i]);
            }
        }
        assert forall|i: int|
            0 <= i < ps.len() && (forall|j: int| i < j < ps.len() ==> ps[j].user_id@ != ps[i].user_id@)
                implies insert_presences(m, ps)[#[trigger] ps[i].user_id@] == ps[i] by {
            if i < n {
                assert(q[i] == ps[i]);
                assert(ps[n].user_id@ != ps[i].user_id@);
                assert forall|j: int| i < j < q.len() implies q[j].user_id@ != q[i].user_id@ by {
                    assert(q[j] == ps[j]);
                }
            }
        }
        assert forall|k: Seq<char>|
            (forall|i: int| 0 <= i < ps.len() ==> ps[i].user_id@ != k) implies (#[trigger] insert_presences(
                m,
                ps,
            ).dom().contains(k) == m.dom().contains(k) && (m.dom().contains(k) ==> insert_presences(
                m,
                ps,
            )[k] == m[k])) by {
            assert(ps[n].user_id@ != k);
            assert forall|i: int| 0 <= i < q.len() implies q[i].user_id@ != k by {
                assert(q[i] == ps[i]);
            }
            assert(insert_presences(m, q).dom().contains(k) == m.dom().contains(k));
            assert(insert_presences(m, ps) == insert_presences(m, q).insert(ps[n].user_id@, ps[n]));
        }
    }
}

/// After a presence sync every listed user is in the presence table, with
/// the last entry the sync lists for them; every user the sync does not list
/// keeps the presence they had, or stays absent.
pub proof fn law_presence_sync_lists_everyone(pre: UiState, post: UiState, presences: Vec<PresenceInfo>)
    requires
        apply_presence_sync_post(pre, post, presences),
    ensures
        forall|i: int|
            0 <= i < presences@.len() ==> post.presences@.dom().contains(
                #[trigger] presences@[i].user_id@,
            ),
        forall|i: int|
            0 <= i < presences@.len() && (forall|j: int|
                i < j < presences@.len() ==> presences@[j].user_id@ != presences@[i].user_id@)
                ==> post.presences@[#[trigger] presences@[i].user_id@] == presences@[i],
        forall|k: Seq<char>|
            (forall|i: int| 0 <= i < presences@.len() ==> presences@[i].user_id@ != k)
                ==> (#[trigger] post.presences@.dom().contains(k) == pre.presences@.dom().contains(k)
                && (pre.presences@.dom().contains(k) ==> post.presences@[k] == pre.presences@[k])),
{
    lemma_insert_presences(pre.presences@, presences@);
}

} // verus!
