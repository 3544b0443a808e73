//! Client-side state and event handling for a self-hosted voice and text chat client.

pub mod stdx;
pub mod seqs;
pub mod strmap;
pub mod text;
pub mod models;
pub mod types;
pub mod state;
pub mod events;
pub mod chat_channels;
pub mod chat_messages;
pub mod social;
pub mod status;
pub mod voice;
pub mod clock;
pub mod format;
pub mod ids;
pub mod poll;
pub mod theme;
pub mod laws;
pub mod compose;
pub mod view;
pub mod forms;
pub mod e2ee;
pub mod panels;
pub mod requests;
pub mod members;
pub mod guild_admin;
pub mod keybind;
