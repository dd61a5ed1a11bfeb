//! Decision logic of the INFBOT Discord bot: the auto voice channel module,
//! its installations, the bitrate control panel, the informational commands
//! and the bot configuration, each stated with a contract and verified.

pub mod seqs;
pub mod text;
pub mod config;
pub mod types;
pub mod guild;
pub mod installations;
pub mod interactions;
pub mod voice;
pub mod uninstall;
pub mod install;
pub mod info;
pub mod analytics;
pub mod status;

use vstd::prelude::*;

verus! {

} // verus!
