use infbot::install::{
    filter_installation_choices, install_names, installation_choice, installation_record,
    module_choices, resolve_module, unknown_module_message, Choice, InstallableModule,
};

fn pairs(v: &[Choice]) -> Vec<(String, String)> {
    v.iter().map(|c| (c.name.clone(), c.value.clone())).collect()
}

fn pair(a: &str, b: &str) -> (String, String) {
    (a.to_string(), b.to_string())
}

#[test]
fn module_names() {
    assert_eq!(resolve_module("auto-voice-channels"), Some(InstallableModule::AutoVoiceChannels));
    assert_eq!(resolve_module("audit"), None);
    assert_eq!(resolve_module("Auto-Voice-Channels"), None);
    assert_eq!(unknown_module_message("audit"), "The `audit` module does not exist.");
}

#[test]
fn module_autocomplete() {
    assert_eq!(
        pairs(&module_choices("")),
        vec![pair("Audit", "audit"), pair("Auto Voice Channels", "auto-voice-channels")]
    );
    assert_eq!(pairs(&module_choices("VOICE")), vec![pair("Auto Voice Channels", "auto-voice-channels")]);
    assert_eq!(
        pairs(&module_choices("au")),
        vec![pair("Audit", "audit"), pair("Auto Voice Channels", "auto-voice-channels")]
    );
    assert!(module_choices("xyz").is_empty());
}

#[test]
fn installation_choices() {
    let c = installation_choice("\u{2795} New Channel", "INFBOT Voice Channels", 1234);
    assert_eq!(c.name, "\u{2795} New Channel (INFBOT Voice Channels)");
    assert_eq!(c.value, "1234");
    let all = vec![
        installation_choice("Lobby", "Games", 11),
        installation_choice("Join Here", "Music", 22),
        installation_choice("Create", "Study", 123),
    ];
    assert_eq!(pairs(&filter_installation_choices(all, "MUSIC")), vec![pair("Join Here (Music)", "22")]);
    let all = vec![installation_choice("Lobby", "Games", 11), installation_choice("Create", "Study", 123)];
    assert_eq!(pairs(&filter_installation_choices(all, "12")), vec![pair("Create (Study)", "123")]);
}

#[test]
fn installation_choices_at_most_25() {
    let all: Vec<Choice> = (0..30).map(|i| installation_choice("Lobby", "Games", i)).collect();
    let kept = filter_installation_choices(all, "lobby");
    assert_eq!(kept.len(), 25);
    assert_eq!(kept[24].value, "24");
}

#[test]
fn install_defaults() {
    let (cat, chan) = install_names(None, None);
    assert_eq!(cat, "INFBOT Voice Channels");
    assert_eq!(chan, "\u{2795} New Channel");
    let (cat, chan) = install_names(Some("Rooms".to_string()), Some("Join".to_string()));
    assert_eq!((cat.as_str(), chan.as_str()), ("Rooms", "Join"));
    let r = installation_record(1, 2, 3, 4);
    assert_eq!((r.channel_id, r.category_id, r.guild_id, r.created_by), (1, 2, 3, 4));
}
