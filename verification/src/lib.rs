//! The logic of a terminal client for a video platform.
//!
//! Two parts carry it. The navigation state machine (`page`, `browser`)
//! knows where the user is, what has to be fetched to show it, and what
//! entering a row or going back leads to. The stream resolution (`select`,
//! `cipher`, `resolve`, `script`, `video`) picks the picture and the sound
//! of a video by ranked criteria and uncovers their addresses. Around them
//! stand the shapes of the platform's answers and the rows that they stand
//! for (`renderers`, `comments`, `continuation`, `next`, `search`,
//! `transcript`), and the bodies of the requests (`requests`).
//!
//! The library fetches nothing and runs no script. It says what to fetch
//! and which function to call, and takes in what came back.

pub mod browser;
pub mod cipher;
pub mod comments;
pub mod config;
pub mod continuation;
pub mod error;
pub mod escape;
pub mod items;
pub mod next;
pub mod number;
pub mod page;
pub mod renderers;
pub mod requests;
pub mod resolve;
pub mod script;
pub mod search;
pub mod select;
pub mod text;
pub mod transcript;
pub mod video;
