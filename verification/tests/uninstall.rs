use infbot::types::{AutoVoiceChannel, AutoVoiceChannelsInstallation};
use infbot::uninstall::{
    uninstall_step, UninstallCommand, UninstallEvent, UninstallProgress, UninstallState,
};

fn progress(c: &UninstallCommand) -> Option<UninstallProgress> {
    match c {
        UninstallCommand::Progress(p) => Some(*p),
        _ => None,
    }
}

fn installation(channel: i64, category: i64) -> AutoVoiceChannelsInstallation {
    AutoVoiceChannelsInstallation {
        channel_id: channel,
        category_id: category,
        guild_id: 1,
        created_at: "2024-01-01 00:00:00".to_string(),
        created_by: 2,
    }
}

fn voice(channel: i64, installation: i64) -> AutoVoiceChannel {
    AutoVoiceChannel {
        channel_id: channel,
        guild_id: 1,
        installation_channel_id: installation,
        created_at: "2024-01-01 00:00:00".to_string(),
        created_by: 3,
    }
}

#[test]
fn uninstall_invalid_selection() {
    let (s, cmds) = uninstall_step(
        UninstallState::Start,
        UninstallEvent::Requested { selection: "general".to_string() },
    );
    assert_eq!(s, UninstallState::Finished);
    assert_eq!(cmds.len(), 2);
    assert_eq!(progress(&cmds[0]), Some(UninstallProgress::Starting));
    assert_eq!(progress(&cmds[1]), Some(UninstallProgress::InvalidSelection));
    assert_eq!(UninstallProgress::InvalidSelection.text(), "Invalid installation selected.");
}

#[test]
fn uninstall_missing_installation() {
    let (s, cmds) = uninstall_step(
        UninstallState::Start,
        UninstallEvent::Requested { selection: "111".to_string() },
    );
    assert_eq!(s, UninstallState::AwaitingInstallation { installation_channel_id: 111 });
    assert_eq!(cmds.len(), 3);
    assert_eq!(progress(&cmds[1]), Some(UninstallProgress::Loading));
    assert!(matches!(cmds[2], UninstallCommand::LoadInstallation { installation_channel_id: 111 }));
    let (s, cmds) = uninstall_step(s, UninstallEvent::InstallationLoaded { installation: None });
    assert_eq!(s, UninstallState::Finished);
    assert_eq!(cmds.len(), 1);
    assert_eq!(progress(&cmds[0]), Some(UninstallProgress::NoLongerExists));
    assert_eq!(
        UninstallProgress::NoLongerExists.text(),
        "That Auto Voice Channels installation no longer exists."
    );
}

#[test]
fn uninstall_full_run() {
    let (s, _) = uninstall_step(
        UninstallState::Start,
        UninstallEvent::Requested { selection: "111".to_string() },
    );
    let (s, cmds) = uninstall_step(
        s,
        UninstallEvent::InstallationLoaded { installation: Some(installation(111, 222)) },
    );
    assert_eq!(
        s,
        UninstallState::AwaitingRelatedChannels { installation_channel_id: 111, category_id: 222 }
    );
    assert_eq!(progress(&cmds[0]), Some(UninstallProgress::DeletingRelated));
    assert!(matches!(cmds[1], UninstallCommand::LoadRelatedChannels { installation_channel_id: 111 }));
    let (s, cmds) = uninstall_step(
        s,
        UninstallEvent::RelatedChannelsLoaded { channels: vec![voice(301, 111), voice(302, 111)] },
    );
    assert_eq!(s, UninstallState::Finished);
    assert_eq!(cmds.len(), 7);
    match &cmds[0] {
        UninstallCommand::RemoveRelated { voice_channel_ids, installation_channel_id } => {
            assert_eq!(voice_channel_ids, &vec![301, 302]);
            assert_eq!(*installation_channel_id, 111);
        }
        other => panic!("unexpected {other:?}"),
    }
    assert!(matches!(cmds[1], UninstallCommand::ForgetInstallationChannel { installation_channel_id: 111 }));
    assert_eq!(progress(&cmds[2]), Some(UninstallProgress::DeletingInstallation));
    assert!(matches!(cmds[3], UninstallCommand::DeleteChannel { channel_id: 111 }));
    assert!(matches!(cmds[4], UninstallCommand::DeleteChannel { channel_id: 222 }));
    assert_eq!(progress(&cmds[5]), Some(UninstallProgress::Uninstalled));
    assert!(matches!(cmds[6], UninstallCommand::ReportUninstalled { installation_channel_id: 111 }));
}

#[test]
fn uninstall_ignores_events_out_of_turn() {
    let (s, cmds) = uninstall_step(
        UninstallState::Finished,
        UninstallEvent::Requested { selection: "5".to_string() },
    );
    assert_eq!(s, UninstallState::Finished);
    assert!(cmds.is_empty());
    let (s, cmds) = uninstall_step(
        UninstallState::Start,
        UninstallEvent::InstallationLoaded { installation: None },
    );
    assert_eq!(s, UninstallState::Start);
    assert!(cmds.is_empty());
}

#[test]
fn uninstall_progress_texts() {
    assert_eq!(UninstallProgress::Starting.text(), "Starting Auto Voice Channels uninstallation...");
    assert_eq!(
        UninstallProgress::Loading.text(),
        "Loading installation information from the database..."
    );
    assert_eq!(UninstallProgress::DeletingRelated.text(), "Deleting related voice channels...");
    assert_eq!(
        UninstallProgress::DeletingInstallation.text(),
        "Deleting installation creation channel and category..."
    );
    assert_eq!(
        UninstallProgress::Uninstalled.text(),
        "Uninstalled the Auto Voice Channels installation."
    );
}
