//! A keyboard-driven HTTP client library.
//!
//! The heart of the crate is a modal (vim-style) editing state machine that
//! interprets normalized key events against the current editing mode and
//! drives an editable text buffer. Around it stand the request/response
//! data model, a curl command-line parser, and the small pure helpers the
//! terminal front end needs (tab cycling, key/value formatting).

pub mod app;
pub mod buffer;
pub mod curl;
pub mod editor;
pub mod format_key_values;
pub mod laws;
pub mod method;
pub mod keys;
pub mod request;
pub mod response;
pub mod strutil;
pub mod textarea;
pub mod ui;
pub mod vim;
