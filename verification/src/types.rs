//! The stored records of the auto voice channel module.

use vstd::prelude::*;

verus! {

/// One installation of the module: the voice channel that members join to get a
/// channel of their own, and the category it stands in.
#[derive(Debug)]
pub struct AutoVoiceChannelsInstallation {
    pub channel_id: i64,
    pub category_id: i64,
    pub guild_id: i64,
    pub created_at: String,
    pub created_by: i64,
}

/// One voice channel that the module created for a member.
#[derive(Debug)]
pub struct AutoVoiceChannel {
    pub channel_id: i64,
    pub guild_id: i64,
    pub installation_channel_id: i64,
    pub created_at: String,
    pub created_by: i64,
}

} // verus!
