use infbot::installations::{installation_removed, InstallationChannels};
use infbot::voice::{
    auto_voice_channel_creation, auto_voice_channel_record, draft_auto_voice_channel,
    plan_voice_state_update, should_delete_auto_voice_channel, VoiceStatePlan,
};

#[test]
fn registry_read_after_write() {
    let mut reg = InstallationChannels::from_ids(&vec![10, 20]);
    assert!(reg.contains(10) && reg.contains(20) && !reg.contains(30));
    reg.insert(30);
    assert!(reg.contains(30) && reg.contains(10));
    reg.remove(10);
    assert!(!reg.contains(10) && reg.contains(20) && reg.contains(30));
    reg.remove(99);
    assert!(reg.contains(20));
    let empty = InstallationChannels::new();
    assert!(!empty.contains(10));
}

#[test]
fn voice_staying_put_does_nothing() {
    let reg = InstallationChannels::from_ids(&vec![5]);
    let p = plan_voice_state_update(Some(5), Some(5), &reg);
    assert_eq!(p, VoiceStatePlan { create_from: None, check_delete: None });
    let p = plan_voice_state_update(None, None, &reg);
    assert_eq!(p, VoiceStatePlan { create_from: None, check_delete: None });
}

#[test]
fn voice_joining_installation_creates() {
    let reg = InstallationChannels::from_ids(&vec![5]);
    let p = plan_voice_state_update(None, Some(5), &reg);
    assert_eq!(p, VoiceStatePlan { create_from: Some(5), check_delete: None });
    let p = plan_voice_state_update(Some(7), Some(5), &reg);
    assert_eq!(p, VoiceStatePlan { create_from: Some(5), check_delete: Some(7) });
}

#[test]
fn voice_leaving_checks_old_channel() {
    let reg = InstallationChannels::from_ids(&vec![5]);
    let p = plan_voice_state_update(Some(7), None, &reg);
    assert_eq!(p, VoiceStatePlan { create_from: None, check_delete: Some(7) });
    let p = plan_voice_state_update(Some(7), Some(8), &reg);
    assert_eq!(p, VoiceStatePlan { create_from: None, check_delete: Some(7) });
}

#[test]
fn voice_forgotten_installation_stops_creating() {
    let mut reg = InstallationChannels::from_ids(&vec![5]);
    reg.remove(5);
    assert_eq!(plan_voice_state_update(None, Some(5), &reg).create_from, None);
    reg.insert(5);
    assert_eq!(plan_voice_state_update(None, Some(5), &reg).create_from, Some(5));
}

#[test]
fn auto_channel_draft_needs_everything() {
    assert!(draft_auto_voice_channel(None, Some(2), Some(3)).is_none());
    assert!(draft_auto_voice_channel(Some(1), None, Some(3)).is_none());
    assert!(draft_auto_voice_channel(Some(1), Some(2), None).is_none());
    let d = draft_auto_voice_channel(Some(1), Some(2), Some(3)).unwrap();
    assert_eq!((d.installation_channel_id, d.guild_id, d.user_id), (1, 2, 3));
    assert!(auto_voice_channel_creation(&d, "Sam".to_string(), None).is_none());
    let c = auto_voice_channel_creation(&d, "Sam".to_string(), Some(40)).unwrap();
    assert_eq!((c.guild_id, c.name.as_str(), c.category_id), (2, "Sam", 40));
    let r = auto_voice_channel_record(&d, 77);
    assert_eq!((r.installation_channel_id, r.channel_id, r.guild_id, r.created_by), (1, 77, 2, 3));
    let big = draft_auto_voice_channel(Some(u64::MAX), Some(2), Some(3)).unwrap();
    assert_eq!(auto_voice_channel_record(&big, 1).installation_channel_id, -1);
}

#[test]
fn auto_channel_deleted_only_when_empty() {
    assert!(should_delete_auto_voice_channel(0));
    assert!(!should_delete_auto_voice_channel(1));
    assert!(installation_removed(1));
    assert!(!installation_removed(0));
}
