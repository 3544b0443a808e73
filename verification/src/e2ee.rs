//! The state kept for end-to-end encrypted direct messages. The key agreement
//! and the ciphers run with the caller; the state records their results.

use vstd::prelude::*;

use crate::chat_channels::{dm_has_id, find_dm};
use crate::chat_messages::replaced_at;
use crate::models::DmConversation;
use crate::seqs::first_index;
use crate::types::UiState;

verus! {

/// The conversation `dm_id`, if listed, changed by `f`; the state otherwise
/// unchanged.
pub open spec fn conversation_updated(
    pre: UiState,
    post: UiState,
    dm_id: Seq<char>,
    f: spec_fn(DmConversation) -> DmConversation,
) -> bool {
    let cs = pre.dm_conversations@;
    let i = first_index(cs, dm_has_id(dm_id));
    &&& if i < cs.len() {
        &&& replaced_at(post.dm_conversations@, cs, i)
        &&& post.dm_conversations@[i] == f(cs[i])
    } else {
        post.dm_conversations == pre.dm_conversations
    }
    &&& post == (UiState { dm_conversations: post.dm_conversations, ..pre })
}

impl UiState {
    /// The peer of conversation `dm_id` sent its public key and the shared
    /// secret was agreed: encryption is on for the conversation, which keeps
    /// both.
    pub fn apply_e2ee_key_exchange(&mut self, dm_id: String, peer_key: Vec<u8>, shared: [u8; 32])
        ensures
            conversation_updated(
                *old(self),
                *final(self),
                dm_id@,
                |c: DmConversation|
                    DmConversation {
                        e2ee_enabled: true,
                        e2ee_peer_public_key: Some(peer_key),
                        e2ee_shared_secret: Some(shared),
                        ..c
                    },
            ),
    {
        let i = find_dm(&self.dm_conversations, &dm_id);
        if i < self.dm_conversations.len() {
            let ghost before = self.dm_conversations@;
            self.dm_conversations[i].e2ee_enabled = true;
            self.dm_conversations[i].e2ee_peer_public_key = Some(peer_key);
            self.dm_conversations[i].e2ee_shared_secret = Some(shared);
            assert forall|j: int| 0 <= j < before.len() && j != i implies #[trigger] self.dm_conversations@[j]
                == before[j] by {}
        }
    }

    /// The peer of conversation `dm_id` acknowledged our key: encryption is
    /// on for the conversation.
    pub fn apply_e2ee_ack(&mut self, dm_id: String)
        ensures
            conversation_updated(
                *old(self),
                *final(self),
                dm_id@,
                |c: DmConversation| DmConversation { e2ee_enabled: true, ..c },
            ),
    {
        let i = find_dm(&self.dm_conversations, &dm_id);
        if i < self.dm_conversations.len() {
            let ghost before = self.dm_conversations@;
            self.dm_conversations[i].e2ee_enabled = true;
            assert forall|j: int| 0 <= j < before.len() && j != i implies #[trigger] self.dm_conversations@[j]
                == before[j] by {}
        }
    }

    /// The secret shared in conversation `dm_id`, when it is listed and one
    /// was agreed; encrypted messages of other conversations are dropped.
    pub fn dm_shared_secret(&self, dm_id: &String) -> (r: Option<[u8; 32]>)
        ensures
            r == ({
                let cs = self.dm_conversations@;
                let i = first_index(cs, dm_has_id(dm_id@));
                if i < cs.len() {
                    cs[i].e2ee_shared_secret
                } else {
                    None
                }
            }),
    {
        let i = find_dm(&self.dm_conversations, dm_id);
        if i < self.dm_conversations.len() {
            self.dm_conversations[i].e2ee_shared_secret
        } else {
            None
        }
    }
}

} // verus!
