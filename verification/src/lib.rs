//! Settings store of the Fuse control centre.
//!
//! The control centre and the desktop shell share one JSON file of colours
//! and preferences. This library is the store behind the control centre's
//! panels: the settings document and its setters, how the document is read
//! from the file and written to it, where the file is looked for, how a save
//! proceeds, and what is written to the sentinel files that tell the shell
//! to read the settings again. It also edits the session's autostart file.
//!
//! The library touches neither the file system nor the environment. Every
//! function takes what was found there as plain values and answers with what
//! is to be done; the program around it does the reading and writing.
//!
//! Every function is verified against its contract with Verus. The contracts
//! speak of mathematical models: a document is its [`config::ColorConfigView`],
//! a JSON value its [`json::Json`]. The one thing taken on trust is what the
//! calls into `serde_json` do, which [`json`] states. What holds of the store
//! as a whole is proved in [`laws`].

pub mod autostart;
pub mod config;
pub mod error;
pub mod json;
pub mod laws;
pub mod paths;
pub mod quickshell;
pub mod save;
pub mod scale;
pub mod schema;
pub mod session;
pub mod sidebar_prefs;
pub mod text;
