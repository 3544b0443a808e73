//! Operations on the UI state that the connect screen and chat views use.

use vstd::prelude::*;

use crate::models::{Channel, NodeBookmark, bookmark_label_from_address, bookmark_label_spec};
use crate::text::{to_string, trim, trim_seq};
use crate::types::UiState;

verus! {

/// Some bookmark in `bms` has the address `address`.
pub open spec fn has_bookmark_address(bms: Seq<NodeBookmark>, address: Seq<char>) -> bool {
    exists|i: int| 0 <= i < bms.len() && #[trigger] bms[i].address@ == address
}

/// No two bookmarks share an address.
pub open spec fn bookmark_addresses_distinct(bms: Seq<NodeBookmark>) -> bool {
    forall|i: int, j: int|
        0 <= i < j < bms.len() ==> #[trigger] bms[i].address@ != #[trigger] bms[j].address@
}

/// The channel `c` has the given id and kind, no guild and no members.
pub open spec fn is_plain_channel(c: Channel, id: Seq<char>, kind: Seq<char>) -> bool {
    &&& c.id@ == id
    &&& c.name@ == id
    &&& c.kind@ == kind
    &&& c.guild_id is None
    &&& c.members@.len() == 0
}

/// The channels a client shows before the server sends its own list.
pub open spec fn are_default_channels(cs: Seq<Channel>) -> bool {
    &&& cs.len() == 5
    &&& is_plain_channel(cs[0], "general"@, "text"@)
    &&& is_plain_channel(cs[1], "dev-talk"@, "text"@)
    &&& is_plain_channel(cs[2], "plugins"@, "text"@)
    &&& is_plain_channel(cs[3], "lobby"@, "voice"@)
    &&& is_plain_channel(cs[4], "gaming"@, "voice"@)
}

fn plain_channel(id: &str, kind: &str) -> (c: Channel)
    ensures
        is_plain_channel(c, id@, kind@),
{
    Channel {
        id: to_string(id),
        name: to_string(id),
        kind: to_string(kind),
        guild_id: None,
        members: Vec::new(),
    }
}

/// What `UiState::remove_bookmark` does.
pub open spec fn remove_bookmark_post(pre: UiState, post: UiState, index: usize) -> bool {
    &&& (index < pre.bookmarks@.len() ==> {
            let n = (pre.bookmarks@.len() - 1) as int;
            &&& post.bookmarks@ == pre.bookmarks@.remove(index as int)
            &&& post.selected_bookmark == if pre.selected_bookmark >= n && n > 0 {
                (n - 1) as usize
            } else {
                pre.selected_bookmark
            }
            &&& post == (UiState {
                bookmarks: post.bookmarks,
                selected_bookmark: post.selected_bookmark,
                ..pre
            })
        })
    &&& (index >= pre.bookmarks@.len() ==> post == pre)
}

/// What `UiState::add_bookmark_from_input` does.
pub open spec fn add_bookmark_from_input_post(pre: UiState, post: UiState, added: bool) -> bool {
    &&& (({
            let address = trim_seq(pre.connect_input@);
            added == (address.len() > 0 && !has_bookmark_address(pre.bookmarks@, address))
        }))
    &&& (added ==> {
            let address = trim_seq(pre.connect_input@);
            let n = pre.bookmarks@.len();
            &&& post.bookmarks@.len() == n + 1
            &&& post.bookmarks@.take(n as int) == pre.bookmarks@
            &&& post.bookmarks@[n as int].address@ == address
            &&& post.bookmarks@[n as int].label@ == bookmark_label_spec(address)
            &&& post.selected_bookmark == n
            &&& post == (UiState {
                bookmarks: post.bookmarks,
                selected_bookmark: post.selected_bookmark,
                ..pre
            })
        })
    &&& (!added ==> post == pre)
}

/// What `UiState::seed_default_channels` does.
pub open spec fn seed_default_channels_post(pre: UiState, post: UiState) -> bool {
    &&& (pre.channels@.len() > 0 ==> post == pre)
    &&& (pre.channels@.len() == 0 ==> {
            &&& are_default_channels(post.channels@)
            &&& post == (UiState { channels: post.channels, ..pre })
        })
}

impl UiState {
    /// Removes the bookmark at `index` and keeps the selection on a bookmark.
    pub fn remove_bookmark(&mut self, index: usize)
        ensures
            remove_bookmark_post(*old(self), *final(self), index),
    {
        if index < self.bookmarks.len() {
            self.bookmarks.remove(index);
            if self.selected_bookmark >= self.bookmarks.len() && !self.bookmarks.is_empty() {
                self.selected_bookmark = self.bookmarks.len() - 1;
            }
        }
    }

    /// Saves the address typed on the connect screen as a bookmark, unless it
    /// is blank or already saved; says whether it was added.
    pub fn add_bookmark_from_input(&mut self) -> (added: bool)
        ensures
            add_bookmark_from_input_post(*old(self), *final(self), added),
    {
        let address = trim(self.connect_input.as_str());
        if address.as_str().unicode_len() == 0 {
            return false;
        }
        let mut i: usize = 0;
        while i < self.bookmarks.len()
            invariant
                i <= self.bookmarks@.len(),
                address@ == trim_seq(self.connect_input@),
                address@.len() > 0,
                forall|j: int| 0 <= j < i ==> #[trigger] self.bookmarks@[j].address@ != address@,
            decreases self.bookmarks@.len() - i,
        {
            if self.bookmarks[i].address == address {
                assert(self.bookmarks@[i as int].address@ == address@);
                return false;
            }
            i = i + 1;
        }
        let label = bookmark_label_from_address(address.as_str());
        let ghost before = self.bookmarks@;
        self.bookmarks.push(NodeBookmark { label, address });
        assert(self.bookmarks@.take(before.len() as int) =~= before);
        self.selected_bookmark = self.bookmarks.len() - 1;
        true
    }

    /// The nickname known for `sender_id`, or the id itself.
    pub fn nick_for<'a>(&'a self, sender_id: &'a str) -> (nick: &'a str)
        ensures
            nick@ == if self.user_names@.dom().contains(sender_id@) {
                self.user_names@[sender_id@]@
            } else {
                sender_id@
            },
    {
        match self.user_names.get(sender_id) {
            Some(n) => n.as_str(),
            None => sender_id,
        }
    }

    /// Fills in the built-in channels when there are none yet.
    pub fn seed_default_channels(&mut self)
        ensures
            seed_default_channels_post(*old(self), *final(self)),
    {
        if !self.channels.is_empty() {
            return;
        }
        let mut cs: Vec<Channel> = Vec::new();
        cs.push(plain_channel("general", "text"));
        cs.push(plain_channel("dev-talk", "text"));
        cs.push(plain_channel("plugins", "text"));
        cs.push(plain_channel("lobby", "voice"));
        cs.push(plain_channel("gaming", "voice"));
        self.channels = cs;
    }
}

/// Saving the typed address as a bookmark never makes two bookmarks share an
/// address.
pub proof fn law_bookmark_addresses_stay_distinct(pre: UiState, post: UiState, added: bool)
    requires
        bookmark_addresses_distinct(pre.bookmarks@),
        add_bookmark_from_input_post(pre, post, added),
    ensures
        bookmark_addresses_distinct(post.bookmarks@),
{
    if added {
        let before = pre.bookmarks@;
        let after = post.bookmarks@;
        let address = trim_seq(pre.connect_input@);
        let n = before.len() as int;
        assert forall|i: int, j: int| 0 <= i < j < after.len() implies #[trigger] after[i].address@
            != #[trigger] after[j].address@ by {
            assert(after[i] == after.take(n)[i]);
            if j < n {
                assert(after[j] == after.take(n)[j]);
                assert(before[i].address@ != before[j].address@);
            } else {
                assert(before[i].address@ != address);
            }
        }
    }
}

/// Removing a bookmark keeps the others' addresses distinct.
pub proof fn law_remove_bookmark_keeps_distinct(pre: UiState, post: UiState, index: usize)
    requires
        bookmark_addresses_distinct(pre.bookmarks@),
        remove_bookmark_post(pre, post, index),
    ensures
        bookmark_addresses_distinct(post.bookmarks@),
{
    if index < pre.bookmarks@.len() {
        let b = pre.bookmarks@;
        let a = post.bookmarks@;
        assert forall|i: int, j: int| 0 <= i < j < a.len() implies #[trigger] a[i].address@
            != #[trigger] a[j].address@ by {
            let i2 = if i < index { i } else { i + 1 };
            let j2 = if j < index { j } else { j + 1 };
            assert(a[i] == b[i2]);
            assert(a[j] == b[j2]);
        }
    }
}

} // verus!
