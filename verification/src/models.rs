//! The records that the client keeps about channels, messages, guilds,
//! friends and servers.

use vstd::prelude::*;

use crate::strmap::StrMap;
use crate::text::{char_len, char_slice, take_chars};

verus! {

/// A text or voice channel.
#[derive(Debug, Clone)]
pub struct Channel {
    pub id: String,
    pub name: String,
    pub kind: String,
    pub guild_id: Option<String>,
    pub members: Vec<String>,
}

/// A chat message in a channel or a direct conversation.
#[derive(Debug, Clone)]
pub struct ChatMessage {
    pub message_id: String,
    pub sender_id: String,
    pub content: String,
    pub timestamp: i64,
    pub edited: bool,
    /// Emoji to the users who reacted with it.
    pub reactions: StrMap<Vec<String>>,
    /// The message this one replies to.
    pub reply_to: Option<String>,
}

/// A direct-message conversation.
#[derive(Debug, Clone)]
pub struct DmConversation {
    pub dm_id: String,
    pub other_user_id: String,
    pub other_nickname: String,
    pub unread_count: u32,
    pub e2ee_enabled: bool,
    pub e2ee_peer_public_key: Option<Vec<u8>>,
    pub e2ee_shared_secret: Option<[u8; 32]>,
}

/// A guild the user belongs to.
#[derive(Debug, Clone)]
pub struct GuildState {
    pub guild_id: String,
    pub name: String,
    pub owner_id: String,
    pub member_count: u32,
}

/// A friend or a pending friend request.
#[derive(Debug, Clone)]
pub struct FriendState {
    pub user_id: String,
    pub nickname: String,
    pub status: String,
    pub since: i64,
}

/// A saved server address.
#[derive(Debug, Clone, PartialEq, Eq)]
pub struct NodeBookmark {
    pub label: String,
    pub address: String,
}

/// What a user shows to others: status, custom status and activity.
#[derive(Debug, Clone)]
pub struct PresenceInfo {
    pub user_id: String,
    pub status: String,
    pub custom_status: Option<String>,
    pub activity: Option<String>,
    pub activity_text: Option<String>,
}

/// One line of a guild's audit log.
#[derive(Debug, Clone)]
pub struct AuditLogEntry {
    pub action: String,
    pub actor_id: String,
    pub target_id: Option<String>,
    pub reason: Option<String>,
    pub created_at: i64,
}

/// A member of a guild, with the role shown beside it.
#[derive(Debug, Clone)]
pub struct GuildMemberInfo {
    pub user_id: String,
    pub nickname: String,
    pub role_name: String,
    pub role_color: String,
    pub is_owner: bool,
}

/// A role defined in a guild.
#[derive(Debug, Clone)]
pub struct GuildRoleInfo {
    pub id: String,
    pub name: String,
    pub color: String,
}

/// A colour given by its red, green and blue components.
#[derive(Debug, Clone, Copy, PartialEq, Eq, Structural)]
pub struct Rgb {
    pub r: u8,
    pub g: u8,
    pub b: u8,
}

/// The bookmarks a fresh client starts with: none.
pub fn default_bookmarks() -> (v: Vec<NodeBookmark>)
    ensures
        v@.len() == 0,
{
    Vec::new()
}

/// The part of `address` before its first `:` (all of it when there is none).
pub open spec fn host_part(address: Seq<char>) -> Seq<char> {
    if exists|i: int| 0 <= i < address.len() && address[i] == ':' {
        address.take(choose|i: int| first_colon(address, i))
    } else {
        address
    }
}

/// `i` is the position of the first `:` in `address`.
pub open spec fn first_colon(address: Seq<char>, i: int) -> bool {
    &&& 0 <= i < address.len()
    &&& address[i] == ':'
    &&& forall|j: int| 0 <= j < i ==> address[j] != ':'
}

/// The label a bookmark gets from its address: the host part, or the whole
/// address when the host part is empty, cut to twelve characters.
pub open spec fn bookmark_label_spec(address: Seq<char>) -> Seq<char> {
    let base = if host_part(address).len() == 0 {
        address
    } else {
        host_part(address)
    };
    base.take(if base.len() < 12 {
        base.len() as int
    } else {
        12
    })
}

proof fn lemma_first_colon_unique(address: Seq<char>, i: int, j: int)
    requires
        first_colon(address, i),
        first_colon(address, j),
    ensures
        i == j,
{
    if i < j {
        assert(address[i] != ':');
    } else if j < i {
        assert(address[j] != ':');
    }
}

/// Derives a short label for a bookmark from its address.
pub fn bookmark_label_from_address(address: &str) -> (label: String)
    ensures
        label@ == bookmark_label_spec(address@),
{
    let n = char_len(address);
    let mut i: usize = 0;
    while i < n && address.get_char(i) != ':'
        invariant
            n == address@.len(),
            i <= n,
            forall|j: int| 0 <= j < i ==> address@[j] != ':',
        decreases n - i,
    {
        i = i + 1;
    }
    proof {
        if i < n {
            assert(first_colon(address@, i as int));
            let c = choose|k: int| first_colon(address@, k);
            lemma_first_colon_unique(address@, i as int, c);
            assert(host_part(address@) == address@.take(i as int));
        } else {
            assert(host_part(address@) == address@);
        }
    }
    let head = char_slice(address, 0, i);
    proof {
        assert(address@.subrange(0, i as int) =~= address@.take(i as int));
        if i == n {
            assert(address@.take(n as int) =~= address@);
        }
    }
    if i == 0 {
        take_chars(address, 12)
    } else {
        take_chars(head.as_str(), 12)
    }
}

} // verus!
