//! How guild, friend and block events change the UI state.

use vstd::prelude::*;

use crate::chat_messages::{appended, replaced_at, wrapping_inc};
use crate::events::{FriendInfo, GuildInfo};
use crate::models::{AuditLogEntry, FriendState, GuildMemberInfo, GuildRoleInfo, GuildState};
use crate::seqs::{first_index, lemma_filter_take_step, lemma_first_index};
use crate::chat_channels::contains_string;
use crate::text::to_string;
use crate::types::UiState;

verus! {

/// The guild has the id `id`.
pub open spec fn guild_has_id(id: Seq<char>) -> spec_fn(GuildState) -> bool {
    |g: GuildState| g.guild_id@ == id
}

/// The friend entry is for user `id`.
pub open spec fn friend_has_id(id: Seq<char>) -> spec_fn(FriendState) -> bool {
    |f: FriendState| f.user_id@ == id
}

/// `g` is the UI form of a listed guild.
pub open spec fn is_guild_of(g: GuildState, info: GuildInfo) -> bool {
    &&& g.guild_id == info.guild_id
    &&& g.name == info.name
    &&& g.owner_id == info.owner_id
    &&& g.member_count == info.member_count
}

/// `f` is the UI form of a listed friend.
pub open spec fn is_friend_of(f: FriendState, info: FriendInfo) -> bool {
    &&& f.user_id == info.user_id
    &&& f.nickname == info.nickname
    &&& f.status == info.status
    &&& f.since == info.since
}

/// Some string of `v` equals `s`.
pub open spec fn has_string(v: Seq<String>, s: Seq<char>) -> bool {
    exists|i: int| 0 <= i < v.len() && #[trigger] v[i]@ == s
}

/// Position of the first guild with id `id`, or the number of guilds.
pub fn find_guild(gs: &Vec<GuildState>, id: &String) -> (r: usize)
    ensures
        r == first_index(gs@, guild_has_id(id@)),
        r <= gs@.len(),
{
    let mut i: usize = 0;
    while i < gs.len()
        invariant
            i <= gs@.len(),
            forall|k: int| 0 <= k < i ==> !guild_has_id(id@)(#[trigger] gs@[k]),
        decreases gs@.len() - i,
    {
        if gs[i].guild_id == *id {
            proof {
                lemma_first_index(gs@, guild_has_id(id@), i as int);
            }
            return i;
        }
        i = i + 1;
    }
    proof {
        lemma_first_index(gs@, guild_has_id(id@), i as int);
    }
    i
}

/// Position of the first friend entry for `id`, or the number of entries.
pub fn find_friend(fs: &Vec<FriendState>, id: &String) -> (r: usize)
    ensures
        r == first_index(fs@, friend_has_id(id@)),
        r <= fs@.len(),
{
    let mut i: usize = 0;
    while i < fs.len()
        invariant
            i <= fs@.len(),
            forall|k: int| 0 <= k < i ==> !friend_has_id(id@)(#[trigger] fs@[k]),
        decreases fs@.len() - i,
    {
        if fs[i].user_id == *id {
            proof {
                lemma_first_index(fs@, friend_has_id(id@), i as int);
            }
            return i;
        }
        i = i + 1;
    }
    proof {
        lemma_first_index(fs@, friend_has_id(id@), i as int);
    }
    i
}

/// The guilds of `list` other than `id`, in order.
pub fn without_guild(list: Vec<GuildState>, id: &String) -> (r: Vec<GuildState>)
    ensures
        r@ == list@.filter(|g: GuildState| g.guild_id@ != id@),
{
    let ghost orig = list@;
    let ghost p = |g: GuildState| g.guild_id@ != id@;
    let mut rest = list;
    let mut kept: Vec<GuildState> = Vec::new();
    let n = rest.len();
    let mut k: usize = 0;
    while k < n
        invariant
            n == orig.len(),
            k <= n,
            rest@ == orig.skip(k as int),
            kept@ == orig.take(k as int).filter(p),
            p == (|g: GuildState| g.guild_id@ != id@),
        decreases n - k,
    {
        proof {
            lemma_filter_take_step(orig, p, k as int);
        }
        let g = rest.remove(0);
        assert(g == orig[k as int]);
        assert(rest@ =~= orig.skip(k + 1));
        if g.guild_id != *id {
            kept.push(g);
        }
        k = k + 1;
    }
    assert(orig.take(n as int) =~= orig);
    kept
}

/// The friend entries of `list` other than those for `id`, in order.
pub fn without_friend(list: Vec<FriendState>, id: &String) -> (r: Vec<FriendState>)
    ensures
        r@ == list@.filter(|f: FriendState| f.user_id@ != id@),
{
    let ghost orig = list@;
    let ghost p = |f: FriendState| f.user_id@ != id@;
    let mut rest = list;
    let mut kept: Vec<FriendState> = Vec::new();
    let n = rest.len();
    let mut k: usize = 0;
    while k < n
        invariant
            n == orig.len(),
            k <= n,
            rest@ == orig.skip(k as int),
            kept@ == orig.take(k as int).filter(p),
            p == (|f: FriendState| f.user_id@ != id@),
        decreases n - k,
    {
        proof {
            lemma_filter_take_step(orig, p, k as int);
        }
        let f = rest.remove(0);
        assert(f == orig[k as int]);
        assert(rest@ =~= orig.skip(k + 1));
        if f.user_id != *id {
            kept.push(f);
        }
        k = k + 1;
    }
    assert(orig.take(n as int) =~= orig);
    kept
}

/// The strings of `list` other than `s`, in order.
pub fn without_string(list: Vec<String>, s: &String) -> (r: Vec<String>)
    ensures
        r@ == list@.filter(|u: String| u@ != s@),
{
    let ghost orig = list@;
    let ghost p = |u: String| u@ != s@;
    let mut rest = list;
    let mut kept: Vec<String> = Vec::new();
    let n = rest.len();
    let mut k: usize = 0;
    while k < n
        invariant
            n == orig.len(),
            k <= n,
            rest@ == orig.skip(k as int),
            kept@ == orig.take(k as int).filter(p),
            p == (|u: String| u@ != s@),
        decreases n - k,
    {
        proof {
            lemma_filter_take_step(orig, p, k as int);
        }
        let u = rest.remove(0);
        assert(u == orig[k as int]);
        assert(rest@ =~= orig.skip(k + 1));
        if u != *s {
            kept.push(u);
        }
        k = k + 1;
    }
    assert(orig.take(n as int) =~= orig);
    kept
}

/// What `UiState::apply_audit_log` does.
pub open spec fn apply_audit_log_post(pre: UiState, post: UiState, guild_id: String, entries: Vec<AuditLogEntry>) -> bool {
    &&& (post == (UiState {
            audit_log_entries: entries,
            audit_log_guild_id: Some(guild_id),
            ..pre
        }))
}

/// What `UiState::apply_member_list` does.
pub open spec fn apply_member_list_post(pre: UiState, post: UiState, guild_id: String, members: Vec<GuildMemberInfo>) -> bool {
    &&& (post == (UiState {
            guild_member_list_guild_id: Some(guild_id),
            guild_member_list: members,
            ..pre
        }))
}

/// What `UiState::apply_role_list` does.
pub open spec fn apply_role_list_post(pre: UiState, post: UiState, guild_id: String, roles: Vec<GuildRoleInfo>) -> bool {
    &&& (post == (UiState {
            guild_role_list_guild_id: Some(guild_id),
            guild_role_list: roles,
            ..pre
        }))
}

/// What `UiState::apply_block_list` does.
pub open spec fn apply_block_list_post(pre: UiState, post: UiState, blocked: Vec<String>) -> bool {
    &&& (post == (UiState { blocked_users: blocked, ..pre }))
}

/// What `UiState::apply_blocked_user` does.
pub open spec fn apply_blocked_user_post(pre: UiState, post: UiState, user_id: String) -> bool {
    &&& (if has_string(pre.blocked_users@, user_id@) {
            post.blocked_users == pre.blocked_users
        } else {
            post.blocked_users@ == pre.blocked_users@.push(user_id)
        })
    &&& (post == (UiState { blocked_users: post.blocked_users, ..pre }))
}

/// What `UiState::apply_unblocked_user` does.
pub open spec fn apply_unblocked_user_post(pre: UiState, post: UiState, user_id: String) -> bool {
    &&& (post.blocked_users@ == pre.blocked_users@.filter(
            |u: String| u@ != user_id@,
        ))
    &&& (post == (UiState { blocked_users: post.blocked_users, ..pre }))
}

/// What `UiState::apply_guild_list` does.
pub open spec fn apply_guild_list_post(pre: UiState, post: UiState, guilds: Vec<GuildInfo>) -> bool {
    &&& (post.guilds@.len() == guilds@.len())
    &&& (forall|i: int|
            0 <= i < guilds@.len() ==> #[trigger] is_guild_of(post.guilds@[i], guilds@[i]))
    &&& (post == (UiState { guilds: post.guilds, ..pre }))
}

/// What `UiState::apply_guild_created` does.
pub open spec fn apply_guild_created_post(pre: UiState, post: UiState, guild_id: String, name: String, owner_id: String) -> bool {
    &&& (post.guilds@ == pre.guilds@.push(
            GuildState { guild_id, name, owner_id, member_count: 1 },
        ))
    &&& (post.active_guild_id == Some(guild_id))
    &&& (post == (UiState {
            guilds: post.guilds,
            active_guild_id: post.active_guild_id,
            ..pre
        }))
}

/// What `UiState::apply_guild_deleted` does.
pub open spec fn apply_guild_deleted_post(pre: UiState, post: UiState, guild_id: String) -> bool {
    &&& (post.guilds@ == pre.guilds@.filter(
            |g: GuildState| g.guild_id@ != guild_id@,
        ))
    &&& (post.active_guild_id == match pre.active_guild_id {
            Some(a) => if a@ == guild_id@ {
                None
            } else {
                Some(a)
            },
            None => None,
        })
    &&& (post == (UiState {
            guilds: post.guilds,
            active_guild_id: post.active_guild_id,
            ..pre
        }))
}

/// What `UiState::apply_guild_member_joined` does.
pub open spec fn apply_guild_member_joined_post(pre: UiState, post: UiState, guild_id: String) -> bool {
    &&& (({
            let gs = pre.guilds@;
            let i = first_index(gs, guild_has_id(guild_id@));
            if i < gs.len() {
                &&& replaced_at(post.guilds@, gs, i)
                &&& post.guilds@[i] == (GuildState {
                    member_count: wrapping_inc(gs[i].member_count),
                    ..gs[i]
                })
            } else {
                post.guilds == pre.guilds
            }
        }))
    &&& (post == (UiState { guilds: post.guilds, ..pre }))
}

/// What `UiState::apply_guild_member_left` does.
pub open spec fn apply_guild_member_left_post(pre: UiState, post: UiState, guild_id: String) -> bool {
    &&& (({
            let gs = pre.guilds@;
            let i = first_index(gs, guild_has_id(guild_id@));
            if i < gs.len() {
                &&& replaced_at(post.guilds@, gs, i)
                &&& post.guilds@[i] == (GuildState {
                    member_count: if gs[i].member_count == 0 {
                        0
                    } else {
                        (gs[i].member_count - 1) as u32
                    },
                    ..gs[i]
                })
            } else {
                post.guilds == pre.guilds
            }
        }))
    &&& (post == (UiState { guilds: post.guilds, ..pre }))
}

/// What `UiState::apply_invite_accepted` does.
pub open spec fn apply_invite_accepted_post(pre: UiState, post: UiState, guild_id: String, guild_name: String) -> bool {
    &&& (({
            let gs = pre.guilds@;
            if first_index(gs, guild_has_id(guild_id@)) < gs.len() {
                post.guilds == pre.guilds
            } else {
                &&& post.guilds@.len() == gs.len() + 1
                &&& post.guilds@.take(gs.len() as int) == gs
                &&& post.guilds@[gs.len() as int].guild_id == guild_id
                &&& post.guilds@[gs.len() as int].name == guild_name
                &&& post.guilds@[gs.len() as int].owner_id@.len() == 0
                &&& post.guilds@[gs.len() as int].member_count == 1
            }
        }))
    &&& (post == (UiState { guilds: post.guilds, ..pre }))
}

/// What `UiState::apply_friend_list` does.
pub open spec fn apply_friend_list_post(pre: UiState, post: UiState, friends: Vec<FriendInfo>) -> bool {
    &&& (post.friends@.len() == friends@.len())
    &&& (forall|i: int|
            0 <= i < friends@.len() ==> #[trigger] is_friend_of(post.friends@[i], friends@[i]))
    &&& (post == (UiState { friends: post.friends, ..pre }))
}

/// What `UiState::apply_friend_requested` does.
pub open spec fn apply_friend_requested_post(pre: UiState, post: UiState, user_id: String, nickname: String) -> bool {
    &&& (appended(post.pending_friend_requests@, pre.pending_friend_requests@))
    &&& (({
            let f = post.pending_friend_requests@.last();
            &&& f.user_id == user_id
            &&& f.nickname == nickname
            &&& f.status@ == "offline"@
            &&& f.since == 0
        }))
    &&& (post == (UiState {
            pending_friend_requests: post.pending_friend_requests,
            ..pre
        }))
}

/// What `UiState::apply_friend_accepted` does.
pub open spec fn apply_friend_accepted_post(pre: UiState, post: UiState, user_id: String, nickname: String, now_ms: i64) -> bool {
    &&& (post.pending_friend_requests@ == pre.pending_friend_requests@.filter(
            |f: FriendState| f.user_id@ != user_id@,
        ))
    &&& (({
            let fs = pre.friends@;
            if first_index(fs, friend_has_id(user_id@)) < fs.len() {
                post.friends == pre.friends
            } else {
                let f = post.friends@.last();
                &&& appended(post.friends@, fs)
                &&& f.user_id == user_id
                &&& f.nickname == nickname
                &&& f.status@ == "online"@
                &&& f.since == now_ms
            }
        }))
    &&& (post == (UiState {
            pending_friend_requests: post.pending_friend_requests,
            friends: post.friends,
            ..pre
        }))
}

/// What `UiState::apply_friend_removed` does.
pub open spec fn apply_friend_removed_post(pre: UiState, post: UiState, user_id: String) -> bool {
    &&& (post.friends@ == pre.friends@.filter(
            |f: FriendState| f.user_id@ != user_id@,
        ))
    &&& (post.pending_friend_requests@ == pre.pending_friend_requests@.filter(
            |f: FriendState| f.user_id@ != user_id@,
        ))
    &&& (post == (UiState {
            friends: post.friends,
            pending_friend_requests: post.pending_friend_requests,
            ..pre
        }))
}

impl UiState {
    /// A guild's audit log arrived.
    pub fn apply_audit_log(&mut self, guild_id: String, entries: Vec<AuditLogEntry>)
        ensures
            apply_audit_log_post(*old(self), *final(self), guild_id, entries),
    {
        self.audit_log_entries = entries;
        self.audit_log_guild_id = Some(guild_id);
    }

    /// A guild's member list arrived.
    pub fn apply_member_list(&mut self, guild_id: String, members: Vec<GuildMemberInfo>)
        ensures
            apply_member_list_post(*old(self), *final(self), guild_id, members),
    {
        self.guild_member_list_guild_id = Some(guild_id);
        self.guild_member_list = members;
    }

    /// A guild's role list arrived.
    pub fn apply_role_list(&mut self, guild_id: String, roles: Vec<GuildRoleInfo>)
        ensures
            apply_role_list_post(*old(self), *final(self), guild_id, roles),
    {
        self.guild_role_list_guild_id = Some(guild_id);
        self.guild_role_list = roles;
    }

    /// The server sent the block list: it replaces ours.
    pub fn apply_block_list(&mut self, blocked: Vec<String>)
        ensures
            apply_block_list_post(*old(self), *final(self), blocked),
    {
        self.blocked_users = blocked;
    }

    /// A user was blocked: list them once.
    pub fn apply_blocked_user(&mut self, user_id: String)
        ensures
            apply_blocked_user_post(*old(self), *final(self), user_id),
    {
        if !contains_string(&self.blocked_users, &user_id) {
            self.blocked_users.push(user_id);
        }
    }

    /// A user was unblocked: drop them from the list.
    pub fn apply_unblocked_user(&mut self, user_id: String)
        ensures
            apply_unblocked_user_post(*old(self), *final(self), user_id),
    {
        let mut list: Vec<String> = Vec::new();
        std::mem::swap(&mut list, &mut self.blocked_users);
        self.blocked_users = without_string(list, &user_id);
    }

    /// The server sent the guild list: it replaces ours.
    pub fn apply_guild_list(&mut self, guilds: Vec<GuildInfo>)
        ensures
            apply_guild_list_post(*old(self), *final(self), guilds),
    {
        let mut out: Vec<GuildState> = Vec::new();
        let mut i: usize = 0;
        while i < guilds.len()
            invariant
                i <= guilds@.len(),
                out@.len() == i,
                forall|k: int| 0 <= k < i ==> #[trigger] is_guild_of(out@[k], guilds@[k]),
            decreases guilds@.len() - i,
        {
            let g = &guilds[i];
            out.push(
                GuildState {
                    guild_id: g.guild_id.clone(),
                    name: g.name.clone(),
                    owner_id: g.owner_id.clone(),
                    member_count: g.member_count,
                },
            );
            i = i + 1;
        }
        self.guilds = out;
    }

    /// This user created a guild: list it with one member and open it.
    pub fn apply_guild_created(&mut self, guild_id: String, name: String, owner_id: String)
        ensures
            apply_guild_created_post(*old(self), *final(self), guild_id, name, owner_id),
    {
        self.guilds.push(GuildState { guild_id: guild_id.clone(), name, owner_id, member_count: 1 });
        self.active_guild_id = Some(guild_id);
    }

    /// A guild was deleted: drop it, and close it if it was open.
    pub fn apply_guild_deleted(&mut self, guild_id: String)
        ensures
            apply_guild_deleted_post(*old(self), *final(self), guild_id),
    {
        let mut list: Vec<GuildState> = Vec::new();
        std::mem::swap(&mut list, &mut self.guilds);
        self.guilds = without_guild(list, &guild_id);
        let open = match &self.active_guild_id {
            Some(a) => *a == guild_id,
            None => false,
        };
        if open {
            self.active_guild_id = None;
        }
    }

    /// Someone joined a guild: count them (the count wraps past the largest `u32`).
    pub fn apply_guild_member_joined(&mut self, guild_id: String)
        ensures
            apply_guild_member_joined_post(*old(self), *final(self), guild_id),
    {
        let i = find_guild(&self.guilds, &guild_id);
        if i < self.guilds.len() {
            let ghost before = self.guilds@;
            let c = self.guilds[i].member_count;
            self.guilds[i].member_count = if c == u32::MAX {
                0
            } else {
                c + 1
            };
            assert forall|j: int| 0 <= j < before.len() && j != i implies #[trigger] self.guilds@[j]
                == before[j] by {}
        }
    }

    /// Someone left or was kicked from a guild: count them out, never below zero.
    pub fn apply_guild_member_left(&mut self, guild_id: String)
        ensures
            apply_guild_member_left_post(*old(self), *final(self), guild_id),
    {
        let i = find_guild(&self.guilds, &guild_id);
        if i < self.guilds.len() {
            let ghost before = self.guilds@;
            let c = self.guilds[i].member_count;
            self.guilds[i].member_count = if c == 0 {
                0
            } else {
                c - 1
            };
            assert forall|j: int| 0 <= j < before.len() && j != i implies #[trigger] self.guilds@[j]
                == before[j] by {}
        }
    }

    /// An invite was accepted: list the guild with one member unless it is listed.
    pub fn apply_invite_accepted(&mut self, guild_id: String, guild_name: String)
        ensures
            apply_invite_accepted_post(*old(self), *final(self), guild_id, guild_name),
    {
        let i = find_guild(&self.guilds, &guild_id);
        if i == self.guilds.len() {
            let ghost before = self.guilds@;
            self.guilds.push(
                GuildState { guild_id, name: guild_name, owner_id: String::new(), member_count: 1 },
            );
            assert(self.guilds@.take(before.len() as int) =~= before);
        }
    }

    /// The server sent the friend list: it replaces ours.
    pub fn apply_friend_list(&mut self, friends: Vec<FriendInfo>)
        ensures
            apply_friend_list_post(*old(self), *final(self), friends),
    {
        let mut out: Vec<FriendState> = Vec::new();
        let mut i: usize = 0;
        while i < friends.len()
            invariant
                i <= friends@.len(),
                out@.len() == i,
                forall|k: int| 0 <= k < i ==> #[trigger] is_friend_of(out@[k], friends@[k]),
            decreases friends@.len() - i,
        {
            let f = &friends[i];
            out.push(
                FriendState {
                    user_id: f.user_id.clone(),
                    nickname: f.nickname.clone(),
                    status: f.status.clone(),
                    since: f.since,
                },
            );
            i = i + 1;
        }
        self.friends = out;
    }

    /// Someone sent a friend request: list it as pending and offline.
    pub fn apply_friend_requested(&mut self, user_id: String, nickname: String)
        ensures
            apply_friend_requested_post(*old(self), *final(self), user_id, nickname),
    {
        let ghost before = self.pending_friend_requests@;
        self.pending_friend_requests.push(
            FriendState { user_id, nickname, status: to_string("offline"), since: 0 },
        );
        assert(self.pending_friend_requests@.take(before.len() as int) =~= before);
    }

    /// A friend request was accepted: it is no longer pending, and the user
    /// becomes an online friend (once) since `now_ms`.
    pub fn apply_friend_accepted(&mut self, user_id: String, nickname: String, now_ms: i64)
        ensures
            apply_friend_accepted_post(*old(self), *final(self), user_id, nickname, now_ms),
    {
        let mut pending: Vec<FriendState> = Vec::new();
        std::mem::swap(&mut pending, &mut self.pending_friend_requests);
        self.pending_friend_requests = without_friend(pending, &user_id);
        let i = find_friend(&self.friends, &user_id);
        if i == self.friends.len() {
            let ghost before = self.friends@;
            self.friends.push(
                FriendState { user_id, nickname, status: to_string("online"), since: now_ms },
            );
            assert(self.friends@.take(before.len() as int) =~= before);
        }
    }

    /// A friendship ended: drop the user from friends and from pending requests.
    pub fn apply_friend_removed(&mut self, user_id: String)
        ensures
            apply_friend_removed_post(*old(self), *final(self), user_id),
    {
        let mut friends: Vec<FriendState> = Vec::new();
        std::mem::swap(&mut friends, &mut self.friends);
        self.friends = without_friend(friends, &user_id);
        let mut pending: Vec<FriendState> = Vec::new();
        std::mem::swap(&mut pending, &mut self.pending_friend_requests);
        self.pending_friend_requests = without_friend(pending, &user_id);
    }
}

} // verus!
