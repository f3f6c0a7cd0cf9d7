//! Ordered enrichment of a reasoning stream with asynchronously computed
//! translations, and the terminal UI logic around it.
//!
//! - [`splitter`]: the title and body of a reasoning block.
//! - [`enrichment`]: the abstract state machine of the translator and its ordering laws.
//! - [`orchestrator`]: the translator itself, refining that state machine.
//! - [`provider`], [`config`], [`client`]: translation providers, settings and requests.
//! - [`keys`], [`translate_overlay`]: the settings overlay.
//! - [`update_action`], [`updates`], [`update_prompt`]: the self-update check and prompt.
//! - [`model_segment`]: the status-line model name.
//! - [`text`]: character-level helpers.

pub mod text;
pub mod splitter;
pub mod enrichment;
pub mod orchestrator;
pub mod provider;
pub mod config;
pub mod client;
pub mod keys;
pub mod translate_overlay;
pub mod update_action;
pub mod updates;
pub mod update_prompt;
pub mod model_segment;
