//! Uninstalling an auto voice channels installation, as a sequence of steps: the
//! bot reads the member's selection, looks the installation up, then removes its
//! voice channels, its records, its channels and category, reporting progress.

use vstd::prelude::*;
use crate::text::{parse_unsigned, parse_u64, decimal, lemma_parse_decimal_roundtrip};
use crate::types::{AutoVoiceChannelsInstallation, AutoVoiceChannel};
use crate::voice::plan_voice_state_update_spec;

verus! {

/// The progress messages shown while uninstalling.
#[derive(Debug, Clone, Copy, PartialEq, Eq)]
pub enum UninstallProgress {
    Starting,
    InvalidSelection,
    Loading,
    NoLongerExists,
    DeletingRelated,
    DeletingInstallation,
    Uninstalled,
}

impl UninstallProgress {
    /// The text of a progress message.
    pub open spec fn text_spec(self) -> Seq<char> {
        match self {
            UninstallProgress::Starting => "Starting Auto Voice Channels uninstallation..."@,
            UninstallProgress::InvalidSelection => "Invalid installation selected."@,
            UninstallProgress::Loading => "Loading installation information from the database..."@,
            UninstallProgress::NoLongerExists => "That Auto Voice Channels installation no longer exists."@,
            UninstallProgress::DeletingRelated => "Deleting related voice channels..."@,
            UninstallProgress::DeletingInstallation => "Deleting installation creation channel and category..."@,
            UninstallProgress::Uninstalled => "Uninstalled the Auto Voice Channels installation."@,
        }
    }

    /// The text of a progress message.
    pub fn text(&self) -> (s: &'static str)
        ensures
            s@ == self.text_spec(),
    {
        match self {
            UninstallProgress::Starting => "Starting Auto Voice Channels uninstallation...",
            UninstallProgress::InvalidSelection => "Invalid installation selected.",
            UninstallProgress::Loading => "Loading installation information from the database...",
            UninstallProgress::NoLongerExists => "That Auto Voice Channels installation no longer exists.",
            UninstallProgress::DeletingRelated => "Deleting related voice channels...",
            UninstallProgress::DeletingInstallation => "Deleting installation creation channel and category...",
            UninstallProgress::Uninstalled => "Uninstalled the Auto Voice Channels installation.",
        }
    }
}

/// Where an uninstallation stands.
#[derive(Debug, Clone, Copy, PartialEq, Eq)]
pub enum UninstallState {
    /// Nothing done yet.
    Start,
    /// Waiting for the installation record of the selected channel.
    AwaitingInstallation { installation_channel_id: u64 },
    /// Waiting for the auto voice channels made from the installation.
    AwaitingRelatedChannels { installation_channel_id: u64, category_id: u64 },
    /// Done, whether the installation was removed or not.
    Finished,
}

/// What the bot learnt since the last step.
#[derive(Debug)]
pub enum UninstallEvent {
    /// The member asked to uninstall the installation they selected.
    Requested { selection: String },
    /// The installation record of the selected channel, if there is one.
    InstallationLoaded { installation: Option<AutoVoiceChannelsInstallation> },
    /// The auto voice channels made from the installation.
    RelatedChannelsLoaded { channels: Vec<AutoVoiceChannel> },
}

/// The parts of an event that the steps read.
pub enum UninstallEventView {
    Requested { selection: Seq<char> },
    InstallationLoaded { category_id: Option<i64> },
    RelatedChannelsLoaded { channel_ids: Seq<i64> },
}

impl View for UninstallEvent {
    type V = UninstallEventView;

    open spec fn view(&self) -> UninstallEventView {
        match self {
            UninstallEvent::Requested { selection } => UninstallEventView::Requested {
                selection: selection@,
            },
            UninstallEvent::InstallationLoaded { installation } => UninstallEventView::InstallationLoaded {
                category_id: match installation {
                    Some(i) => Some(i.category_id),
                    None => None,
                },
            },
            UninstallEvent::RelatedChannelsLoaded { channels } => UninstallEventView::RelatedChannelsLoaded {
                channel_ids: channels@.map_values(|c: AutoVoiceChannel| c.channel_id),
            },
        }
    }
}

/// What the bot is to do, in order.
#[derive(Debug)]
pub enum UninstallCommand {
    /// Show a progress message: the first one is sent, later ones replace it.
    Progress(UninstallProgress),
    /// Look up the installation record of the channel, then report it as the next event.
    LoadInstallation { installation_channel_id: u64 },
    /// Look up the auto voice channels made from the installation, then report
    /// them as the next event.
    LoadRelatedChannels { installation_channel_id: u64 },
    /// At once: delete the voice channels, and the records of the installation
    /// and of its auto voice channels.
    RemoveRelated { voice_channel_ids: Vec<u64>, installation_channel_id: u64 },
    /// Stop treating the channel as an installation channel.
    ForgetInstallationChannel { installation_channel_id: u64 },
    /// Delete a channel or category, if it still exists.
    DeleteChannel { channel_id: u64 },
    /// Report the uninstallation to analytics.
    ReportUninstalled { installation_channel_id: u64 },
}

/// A command, with its channel lists as sequences.
pub enum UninstallCommandView {
    Progress(UninstallProgress),
    LoadInstallation { installation_channel_id: u64 },
    LoadRelatedChannels { installation_channel_id: u64 },
    RemoveRelated { voice_channel_ids: Seq<u64>, installation_channel_id: u64 },
    ForgetInstallationChannel { installation_channel_id: u64 },
    DeleteChannel { channel_id: u64 },
    ReportUninstalled { installation_channel_id: u64 },
}

impl View for UninstallCommand {
    type V = UninstallCommandView;

    open spec fn view(&self) -> UninstallCommandView {
        match self {
            UninstallCommand::Progress(p) => UninstallCommandView::Progress(*p),
            UninstallCommand::LoadInstallation { installation_channel_id } =>
                UninstallCommandView::LoadInstallation { installation_channel_id: *installation_channel_id },
            UninstallCommand::LoadRelatedChannels { installation_channel_id } =>
                UninstallCommandView::LoadRelatedChannels { installation_channel_id: *installation_channel_id },
            UninstallCommand::RemoveRelated { voice_channel_ids, installation_channel_id } =>
                UninstallCommandView::RemoveRelated {
                    voice_channel_ids: voice_channel_ids@,
                    installation_channel_id: *installation_channel_id,
                },
            UninstallCommand::ForgetInstallationChannel { installation_channel_id } =>
                UninstallCommandView::ForgetInstallationChannel {
                    installation_channel_id: *installation_channel_id,
                },
            UninstallCommand::DeleteChannel { channel_id } => UninstallCommandView::DeleteChannel {
                channel_id: *channel_id,
            },
            UninstallCommand::ReportUninstalled { installation_channel_id } =>
                UninstallCommandView::ReportUninstalled { installation_channel_id: *installation_channel_id },
        }
    }
}

/// The commands of a step, as views.
pub open spec fn commands_view(cmds: Seq<UninstallCommand>) -> Seq<UninstallCommandView> {
    cmds.map_values(|c: UninstallCommand| c@)
}

/// A stored id as the channel id it names.
pub open spec fn stored_id(id: i64) -> u64 {
    id as u64
}

/// One step of an uninstallation: the next state, and the commands to carry out.
/// An event that does not fit the state changes nothing.
pub open spec fn uninstall_step_spec(state: UninstallState, event: UninstallEventView) -> (
    UninstallState,
    Seq<UninstallCommandView>,
) {
    match (state, event) {
        (UninstallState::Start, UninstallEventView::Requested { selection }) => match parse_unsigned(
            selection,
            u64::MAX as nat,
        ) {
            Err(_) => (
                UninstallState::Finished,
                seq![
                    UninstallCommandView::Progress(UninstallProgress::Starting),
                    UninstallCommandView::Progress(UninstallProgress::InvalidSelection),
                ],
            ),
            Ok(id) => (
                UninstallState::AwaitingInstallation { installation_channel_id: id as u64 },
                seq![
                    UninstallCommandView::Progress(UninstallProgress::Starting),
                    UninstallCommandView::Progress(UninstallProgress::Loading),
                    UninstallCommandView::LoadInstallation { installation_channel_id: id as u64 },
                ],
            ),
        },
        (
            UninstallState::AwaitingInstallation { installation_channel_id },
            UninstallEventView::InstallationLoaded { category_id },
        ) => match category_id {
            None => (
                UninstallState::Finished,
                seq![UninstallCommandView::Progress(UninstallProgress::NoLongerExists)],
            ),
            Some(c) => (
                UninstallState::AwaitingRelatedChannels {
                    installation_channel_id,
                    category_id: stored_id(c),
                },
                seq![
                    UninstallCommandView::Progress(UninstallProgress::DeletingRelated),
                    UninstallCommandView::LoadRelatedChannels { installation_channel_id },
                ],
            ),
        },
        (
            UninstallState::AwaitingRelatedChannels { installation_channel_id, category_id },
            UninstallEventView::RelatedChannelsLoaded { channel_ids },
        ) => (
            UninstallState::Finished,
            seq![
                UninstallCommandView::RemoveRelated {
                    voice_channel_ids: channel_ids.map_values(|id: i64| stored_id(id)),
                    installation_channel_id,
                },
                UninstallCommandView::ForgetInstallationChannel { installation_channel_id },
                UninstallCommandView::Progress(UninstallProgress::DeletingInstallation),
                UninstallCommandView::DeleteChannel { channel_id: installation_channel_id },
                UninstallCommandView::DeleteChannel { channel_id: category_id },
                UninstallCommandView::Progress(UninstallProgress::Uninstalled),
                UninstallCommandView::ReportUninstalled { installation_channel_id },
            ],
        ),
        _ => (state, seq![]),
    }
}

/// Whether a step can be taken: a selection that reads as 0 names no channel,
/// and the bot stops on it as soon as it has read it.
pub open spec fn uninstall_step_admissible(state: UninstallState, event: UninstallEventView) -> bool {
    match (state, event) {
        (UninstallState::Start, UninstallEventView::Requested { selection }) => parse_unsigned(
            selection,
            u64::MAX as nat,
        ) != Ok::<nat, crate::text::IntErrorKind>(0),
        _ => true,
    }
}

fn stored_id_exec(id: i64) -> (r: u64)
    ensures
        r == stored_id(id),
{
    id as u64
}

/// Takes one step of an uninstallation.
pub fn uninstall_step(state: UninstallState, event: UninstallEvent) -> (r: (
    UninstallState,
    Vec<UninstallCommand>,
))
    requires
        uninstall_step_admissible(state, event@),
    ensures
        r.0 == uninstall_step_spec(state, event@).0,
        commands_view(r.1@) == uninstall_step_spec(state, event@).1,
{
    let mut cmds: Vec<UninstallCommand> = Vec::new();
    match (state, event) {
        (UninstallState::Start, UninstallEvent::Requested { selection }) => {
            cmds.push(UninstallCommand::Progress(UninstallProgress::Starting));
            match parse_u64(selection.as_str()) {
                Err(_) => {
                    cmds.push(UninstallCommand::Progress(UninstallProgress::InvalidSelection));
                    assert(commands_view(cmds@) =~= uninstall_step_spec(state, event@).1);
                    (UninstallState::Finished, cmds)
                },
                Ok(id) => {
                    cmds.push(UninstallCommand::Progress(UninstallProgress::Loading));
                    cmds.push(UninstallCommand::LoadInstallation { installation_channel_id: id });
                    assert(commands_view(cmds@) =~= uninstall_step_spec(state, event@).1);
                    (UninstallState::AwaitingInstallation { installation_channel_id: id }, cmds)
                },
            }
        },
        (
            UninstallState::AwaitingInstallation { installation_channel_id },
            UninstallEvent::InstallationLoaded { installation },
        ) => match installation {
            None => {
                cmds.push(UninstallCommand::Progress(UninstallProgress::NoLongerExists));
                assert(commands_view(cmds@) =~= uninstall_step_spec(state, event@).1);
                (UninstallState::Finished, cmds)
            },
            Some(inst) => {
                cmds.push(UninstallCommand::Progress(UninstallProgress::DeletingRelated));
                cmds.push(UninstallCommand::LoadRelatedChannels { installation_channel_id });
                assert(commands_view(cmds@) =~= uninstall_step_spec(state, event@).1);
                (
                    UninstallState::AwaitingRelatedChannels {
                        installation_channel_id,
                        category_id: stored_id_exec(inst.category_id),
                    },
                    cmds,
                )
            },
        },
        (
            UninstallState::AwaitingRelatedChannels { installation_channel_id, category_id },
            UninstallEvent::RelatedChannelsLoaded { channels },
        ) => {
            let ghost ids = channels@.map_values(|c: AutoVoiceChannel| c.channel_id);
            let mut voice_channel_ids: Vec<u64> = Vec::new();
            let mut i: usize = 0;
            while i < channels.len()
                invariant
                    i <= channels@.len(),
                    ids == channels@.map_values(|c: AutoVoiceChannel| c.channel_id),
                    voice_channel_ids@ == ids.subrange(0, i as int).map_values(
                        |id: i64| stored_id(id),
                    ),
                decreases channels@.len() - i,
            {
                voice_channel_ids.push(stored_id_exec(channels[i].channel_id));
                assert(ids.subrange(0, i + 1) =~= ids.subrange(0, i as int).push(ids[i as int]));
                assert(ids.subrange(0, i + 1).map_values(|id: i64| stored_id(id)) =~= ids.subrange(
                    0,
                    i as int,
                ).map_values(|id: i64| stored_id(id)).push(stored_id(ids[i as int])));
                i = i + 1;
            }
            assert(ids.subrange(0, i as int) =~= ids);
            cmds.push(UninstallCommand::RemoveRelated { voice_channel_ids, installation_channel_id });
            cmds.push(UninstallCommand::ForgetInstallationChannel { installation_channel_id });
            cmds.push(UninstallCommand::Progress(UninstallProgress::DeletingInstallation));
            cmds.push(UninstallCommand::DeleteChannel { channel_id: installation_channel_id });
            cmds.push(UninstallCommand::DeleteChannel { channel_id: category_id });
            cmds.push(UninstallCommand::Progress(UninstallProgress::Uninstalled));
            cmds.push(UninstallCommand::ReportUninstalled { installation_channel_id });
            assert(commands_view(cmds@) =~= uninstall_step_spec(state, event@).1);
            (UninstallState::Finished, cmds)
        },
        (s, _) => {
            assert(commands_view(cmds@) =~= uninstall_step_spec(state, event@).1);
            (s, cmds)
        },
    }
}

/// Whether a command changes anything beyond the progress message.
pub open spec fn is_destructive(c: UninstallCommandView) -> bool {
    match c {
        UninstallCommandView::RemoveRelated { .. } => true,
        UninstallCommandView::ForgetInstallationChannel { .. } => true,
        UninstallCommandView::DeleteChannel { .. } => true,
        UninstallCommandView::ReportUninstalled { .. } => true,
        _ => false,
    }
}

/// How many events an uninstallation still waits for.
pub open spec fn steps_left(state: UninstallState) -> nat {
    match state {
        UninstallState::Start => 3,
        UninstallState::AwaitingInstallation { .. } => 2,
        UninstallState::AwaitingRelatedChannels { .. } => 1,
        UninstallState::Finished => 0,
    }
}

/// A finished uninstallation stays finished and does nothing more.
pub proof fn lemma_finished_is_final(event: UninstallEventView)
    ensures
        uninstall_step_spec(UninstallState::Finished, event).0 == UninstallState::Finished,
        uninstall_step_spec(UninstallState::Finished, event).1.len() == 0,
{
}

/// Every step brings an uninstallation closer to its end or leaves it as it was,
/// and one that is under way always ends after at most three events.
pub proof fn lemma_uninstall_progresses(state: UninstallState, event: UninstallEventView)
    ensures
        steps_left(uninstall_step_spec(state, event).0) <= steps_left(state),
        uninstall_step_spec(state, event).0 != state ==> steps_left(uninstall_step_spec(state, event).0)
            < steps_left(state),
        uninstall_step_spec(state, event).0 == state ==> uninstall_step_spec(state, event).1.len() == 0,
{
}

/// Nothing is deleted, forgotten or reported before the selected installation
/// has been found: until then the bot only shows progress and looks it up.
pub proof fn lemma_nothing_removed_before_lookup(state: UninstallState, event: UninstallEventView)
    requires
        state is Start || state is AwaitingInstallation,
    ensures
        forall|i: int|
            0 <= i < uninstall_step_spec(state, event).1.len() ==> !is_destructive(
                #[trigger] uninstall_step_spec(state, event).1[i],
            ),
{
}

/// Once found, the installation that is removed is the one selected: every
/// deletion names its installation channel, its category, or one of its own
/// auto voice channels, and the channel looked up is the channel selected.
pub proof fn lemma_removes_only_selected(selection: Seq<char>, category: i64, channel_ids: Seq<i64>)
    requires
        parse_unsigned(selection, u64::MAX as nat) is Ok,
    ensures
        ({
            let id = parse_unsigned(selection, u64::MAX as nat)->Ok_0 as u64;
            let s1 = uninstall_step_spec(
                UninstallState::Start,
                UninstallEventView::Requested { selection },
            );
            let s2 = uninstall_step_spec(
                s1.0,
                UninstallEventView::InstallationLoaded { category_id: Some(category) },
            );
            let s3 = uninstall_step_spec(
                s2.0,
                UninstallEventView::RelatedChannelsLoaded { channel_ids },
            );
            &&& s1.1.last() == UninstallCommandView::LoadInstallation { installation_channel_id: id }
            &&& s2.1.last() == UninstallCommandView::LoadRelatedChannels { installation_channel_id: id }
            &&& s3.0 == UninstallState::Finished
            &&& forall|i: int|
                0 <= i < s3.1.len() ==> match #[trigger] s3.1[i] {
                    UninstallCommandView::RemoveRelated { voice_channel_ids, installation_channel_id } =>
                        installation_channel_id == id && voice_channel_ids == channel_ids.map_values(
                        |c: i64| stored_id(c),
                    ),
                    UninstallCommandView::ForgetInstallationChannel { installation_channel_id } =>
                        installation_channel_id == id,
                    UninstallCommandView::DeleteChannel { channel_id } => channel_id == id
                        || channel_id == stored_id(category),
                    UninstallCommandView::ReportUninstalled { installation_channel_id } =>
                        installation_channel_id == id,
                    _ => true,
                }
        }),
{
}

/// A selection that is no channel id, or an installation that no longer exists,
/// ends the uninstallation without removing anything.
pub proof fn lemma_refusals_remove_nothing(selection: Seq<char>, id: u64)
    ensures
        parse_unsigned(selection, u64::MAX as nat) is Err ==> ({
            let s = uninstall_step_spec(UninstallState::Start, UninstallEventView::Requested { selection });
            s.0 == UninstallState::Finished && s.1 == seq![
                UninstallCommandView::Progress(UninstallProgress::Starting),
                UninstallCommandView::Progress(UninstallProgress::InvalidSelection),
            ]
        }),
        ({
            let s = uninstall_step_spec(
                UninstallState::AwaitingInstallation { installation_channel_id: id },
                UninstallEventView::InstallationLoaded { category_id: None },
            );
            s.0 == UninstallState::Finished && s.1 == seq![
                UninstallCommandView::Progress(UninstallProgress::NoLongerExists),
            ]
        }),
{
}

/// Uninstalling undoes installing: once an installation recorded as an
/// installation channel has been uninstalled, the step that forgets it has run,
/// and a member joining that channel no longer gets an auto voice channel.
pub proof fn lemma_uninstall_undoes_install(
    installations: Set<u64>,
    selection: Seq<char>,
    category: i64,
    channel_ids: Seq<i64>,
    old_channel_id: Option<u64>,
)
    requires
        parse_unsigned(selection, u64::MAX as nat) is Ok,
        old_channel_id != Some(parse_unsigned(selection, u64::MAX as nat)->Ok_0 as u64),
    ensures
        ({
            let id = parse_unsigned(selection, u64::MAX as nat)->Ok_0 as u64;
            let s1 = uninstall_step_spec(
                UninstallState::Start,
                UninstallEventView::Requested { selection },
            );
            let s2 = uninstall_step_spec(
                s1.0,
                UninstallEventView::InstallationLoaded { category_id: Some(category) },
            );
            let s3 = uninstall_step_spec(
                s2.0,
                UninstallEventView::RelatedChannelsLoaded { channel_ids },
            );
            let installed = installations.insert(id);
            &&& plan_voice_state_update_spec(old_channel_id, Some(id), installed).create_from == Some(id)
            &&& s3.1[1] == UninstallCommandView::ForgetInstallationChannel { installation_channel_id: id }
            &&& plan_voice_state_update_spec(old_channel_id, Some(id), installed.remove(id)).create_from
                is None
        }),
{
}

/// The ids the bot acts on are the stored ids themselves, read as channel ids:
/// for a selection naming channel `id`, a stored category `category` and stored
/// auto voice channels `channel_ids`, the flow waits for exactly that category,
/// removes exactly those channels (each stored id as a `u64`, in order), and
/// deletes exactly the installation channel and that category.
pub proof fn lemma_stored_ids_name_the_same_channels(
    id: u64,
    category: i64,
    channel_ids: Seq<i64>,
)
    ensures
        ({
            let selection = decimal(id as nat);
            let s1 = uninstall_step_spec(
                UninstallState::Start,
                UninstallEventView::Requested { selection },
            );
            let s2 = uninstall_step_spec(
                s1.0,
                UninstallEventView::InstallationLoaded { category_id: Some(category) },
            );
            let s3 = uninstall_step_spec(
                s2.0,
                UninstallEventView::RelatedChannelsLoaded { channel_ids },
            );
            &&& s1.0 == UninstallState::AwaitingInstallation { installation_channel_id: id }
            &&& s2.0 == UninstallState::AwaitingRelatedChannels {
                installation_channel_id: id,
                category_id: category as u64,
            }
            &&& s3.1.len() == 7
            &&& s3.1[0] matches UninstallCommandView::RemoveRelated { voice_channel_ids, installation_channel_id }
                && installation_channel_id == id && voice_channel_ids.len() == channel_ids.len()
                && forall|i: int|
                0 <= i < channel_ids.len() ==> #[trigger] voice_channel_ids[i] == channel_ids[i] as u64
            &&& s3.1[3] == UninstallCommandView::DeleteChannel { channel_id: id }
            &&& s3.1[4] == UninstallCommandView::DeleteChannel { channel_id: category as u64 }
        }),
{
    lemma_parse_decimal_roundtrip(id as nat, u64::MAX as nat);
}

/// A stored id names the channel whose id has the same bits.
pub proof fn lemma_stored_id_is_cast(id: i64)
    ensures
        stored_id(id) == id as u64,
        id >= 0 ==> stored_id(id) as int == id as int,
{
}

} // verus!
