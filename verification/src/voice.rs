//! What the bot does when a member's voice state changes: give a member who
//! joins an installation channel a voice channel of their own, and remove an
//! auto voice channel once its last member has left.

use vstd::prelude::*;
use crate::installations::InstallationChannels;

verus! {

/// What a voice state update calls for.
#[derive(Debug, Clone, Copy, PartialEq, Eq)]
pub struct VoiceStatePlan {
    /// The installation channel the member joined, when they joined one: an auto
    /// voice channel is to be made for them.
    pub create_from: Option<u64>,
    /// The channel the member left, when they left one: if it is an auto voice
    /// channel, it is to be removed once empty.
    pub check_delete: Option<u64>,
}

/// What a voice state update calls for, given the channel the member was in,
/// the channel they are in now, and the installation channels.
pub open spec fn plan_voice_state_update_spec(
    old_channel_id: Option<u64>,
    new_channel_id: Option<u64>,
    installations: Set<u64>,
) -> VoiceStatePlan {
    if old_channel_id == new_channel_id {
        VoiceStatePlan { create_from: None, check_delete: None }
    } else {
        VoiceStatePlan {
            create_from: match new_channel_id {
                Some(id) => if installations.contains(id) {
                    Some(id)
                } else {
                    None
                },
                None => None,
            },
            check_delete: old_channel_id,
        }
    }
}

/// What a voice state update calls for: nothing when the member stayed in the
/// same channel; otherwise a new auto voice channel when they joined an
/// installation channel, and a look at the channel they left.
pub fn plan_voice_state_update(
    old_channel_id: Option<u64>,
    new_channel_id: Option<u64>,
    installations: &InstallationChannels,
) -> (r: VoiceStatePlan)
    ensures
        r == plan_voice_state_update_spec(old_channel_id, new_channel_id, installations@),
{
    if old_channel_id == new_channel_id {
        return VoiceStatePlan { create_from: None, check_delete: None };
    }
    let create_from = match new_channel_id {
        Some(id) => if installations.contains(id) {
            Some(id)
        } else {
            None
        },
        None => None,
    };
    VoiceStatePlan { create_from, check_delete: old_channel_id }
}

/// Who and where an auto voice channel is to be made for.
#[derive(Debug, Clone, Copy, PartialEq, Eq)]
pub struct AutoChannelDraft {
    pub installation_channel_id: u64,
    pub guild_id: u64,
    pub user_id: u64,
}

/// The draft of an auto voice channel, when the update names the installation
/// channel, the guild and the member; without any of them nothing is made.
pub fn draft_auto_voice_channel(
    installation_channel_id: Option<u64>,
    guild_id: Option<u64>,
    member_user_id: Option<u64>,
) -> (r: Option<AutoChannelDraft>)
    ensures
        r is Some <==> (installation_channel_id is Some && guild_id is Some
            && member_user_id is Some),
        r matches Some(d) ==> d.installation_channel_id == installation_channel_id->0
            && d.guild_id == guild_id->0 && d.user_id == member_user_id->0,
{
    match (installation_channel_id, guild_id, member_user_id) {
        (Some(c), Some(g), Some(u)) => Some(
            AutoChannelDraft { installation_channel_id: c, guild_id: g, user_id: u },
        ),
        _ => None,
    }
}

/// A voice channel to create.
#[derive(Debug)]
pub struct ChannelCreation {
    pub guild_id: u64,
    pub name: String,
    pub category_id: u64,
}

/// The voice channel to create for a draft: named after the member and placed in
/// the category of the installation channel; none when that channel has no category.
pub fn auto_voice_channel_creation(
    draft: &AutoChannelDraft,
    member_display_name: String,
    installation_parent_id: Option<u64>,
) -> (r: Option<ChannelCreation>)
    ensures
        r is Some <==> installation_parent_id is Some,
        r matches Some(c) ==> c.guild_id == draft.guild_id && c.name@ == member_display_name@
            && c.category_id == installation_parent_id->0,
{
    match installation_parent_id {
        Some(category_id) => Some(
            ChannelCreation { guild_id: draft.guild_id, name: member_display_name, category_id },
        ),
        None => None,
    }
}

/// The record of a created auto voice channel, its ids in the form they are stored in.
#[derive(Debug, Clone, Copy, PartialEq, Eq)]
pub struct NewAutoVoiceChannel {
    pub installation_channel_id: i64,
    pub channel_id: i64,
    pub guild_id: i64,
    pub created_by: i64,
}

/// The record to store once the channel for a draft exists.
pub fn auto_voice_channel_record(draft: &AutoChannelDraft, created_channel_id: u64) -> (r:
    NewAutoVoiceChannel)
    ensures
        r.installation_channel_id == draft.installation_channel_id as i64,
        r.channel_id == created_channel_id as i64,
        r.guild_id == draft.guild_id as i64,
        r.created_by == draft.user_id as i64,
{
    NewAutoVoiceChannel {
        installation_channel_id: draft.installation_channel_id as i64,
        channel_id: created_channel_id as i64,
        guild_id: draft.guild_id as i64,
        created_by: draft.user_id as i64,
    }
}

/// Whether an auto voice channel the member left is to be removed: only once
/// nobody is left in it.
pub fn should_delete_auto_voice_channel(member_count: usize) -> (r: bool)
    ensures
        r == (member_count == 0),
{
    member_count == 0
}

/// Staying in the same channel calls for nothing; the channel looked at for
/// removal is always the one the member left, and a new channel is only ever
/// made from the installation channel the member joined, so the two never coincide.
pub proof fn lemma_voice_plan_targets(
    old_channel_id: Option<u64>,
    new_channel_id: Option<u64>,
    installations: Set<u64>,
)
    ensures
        ({
            let p = plan_voice_state_update_spec(old_channel_id, new_channel_id, installations);
            &&& old_channel_id == new_channel_id ==> p.create_from is None && p.check_delete is None
            &&& p.create_from matches Some(c) ==> new_channel_id == Some(c)
                && installations.contains(c)
            &&& p.check_delete matches Some(d) ==> old_channel_id == Some(d)
            &&& (p.create_from is Some && p.check_delete is Some) ==> p.create_from->0
                != p.check_delete->0
        }),
{
}

/// Whether a member who joins a channel gets an auto voice channel depends only on
/// whether that channel is an installation channel at that moment: recording it
/// makes the next join create one, forgetting it stops that.
pub proof fn lemma_installation_set_governs_creation(
    old_channel_id: Option<u64>,
    joined: u64,
    installations: Set<u64>,
)
    requires
        old_channel_id != Some(joined),
    ensures
        plan_voice_state_update_spec(old_channel_id, Some(joined), installations.insert(joined)).create_from
            == Some(joined),
        plan_voice_state_update_spec(old_channel_id, Some(joined), installations.remove(joined)).create_from
            is None,
{
}

/// A member who changed channel always has the channel they left looked at for
/// removal, whatever channel they joined and whatever the installations are; and
/// they get a new channel exactly when the channel they joined is an installation
/// channel.
pub proof fn lemma_changed_channel_checks_the_left_one(
    old_channel_id: Option<u64>,
    new_channel_id: Option<u64>,
    installations: Set<u64>,
)
    requires
        old_channel_id != new_channel_id,
    ensures
        plan_voice_state_update_spec(old_channel_id, new_channel_id, installations).check_delete
            == old_channel_id,
        new_channel_id matches Some(n) ==> (plan_voice_state_update_spec(
            old_channel_id,
            new_channel_id,
            installations,
        ).create_from == Some(n) <==> installations.contains(n)),
        new_channel_id is None ==> plan_voice_state_update_spec(
            old_channel_id,
            new_channel_id,
            installations,
        ).create_from is None,
{
}

} // verus!
