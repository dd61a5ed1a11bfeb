use infbot::guild::{allowed_bitrates_for_premier_tier, resolve_premium_tier, PremiumTier};
use infbot::interactions::{
    bitrate_menu_options, bitrate_menu_texts, bitrate_option, bitrate_updated_message,
    control_panel_buttons, control_panel_heading, route_component, selected_bitrate,
    ButtonStyle, ComponentAction,
};

#[test]
fn bitrates_per_tier() {
    let low = vec![8_000, 16_000, 32_000, 64_000, 96_000];
    assert_eq!(allowed_bitrates_for_premier_tier(PremiumTier::Tier0), low);
    assert_eq!(allowed_bitrates_for_premier_tier(PremiumTier::Unknown(9)), low);
    let mut t1 = low.clone();
    t1.push(128_000);
    assert_eq!(allowed_bitrates_for_premier_tier(PremiumTier::Tier1), t1);
    let mut t2 = t1.clone();
    t2.push(256_000);
    assert_eq!(allowed_bitrates_for_premier_tier(PremiumTier::Tier2), t2);
    let mut t3 = t2.clone();
    t3.push(384_000);
    assert_eq!(allowed_bitrates_for_premier_tier(PremiumTier::Tier3), t3);
    assert_eq!(*allowed_bitrates_for_premier_tier(PremiumTier::Tier2).last().unwrap(), 256_000);
}

#[test]
fn bitrates_grow_with_tier() {
    let tiers = [PremiumTier::Tier0, PremiumTier::Tier1, PremiumTier::Tier2, PremiumTier::Tier3];
    for w in tiers.windows(2) {
        let lower = allowed_bitrates_for_premier_tier(w[0]);
        let higher = allowed_bitrates_for_premier_tier(w[1]);
        assert_eq!(&higher[..lower.len()], &lower[..]);
        assert!(higher.windows(2).all(|p| p[0] < p[1]));
        assert_eq!(&lower[..5], &[8_000, 16_000, 32_000, 64_000, 96_000]);
    }
}

#[test]
fn premium_tier_fallbacks() {
    assert_eq!(resolve_premium_tier(Some(PremiumTier::Tier2), Some(PremiumTier::Tier3)), PremiumTier::Tier2);
    assert_eq!(resolve_premium_tier(None, Some(PremiumTier::Tier1)), PremiumTier::Tier1);
    assert_eq!(resolve_premium_tier(None, None), PremiumTier::Tier0);
}

#[test]
fn bitrate_menu_entries() {
    let o = bitrate_option(96_000);
    assert_eq!(o.label, "96 kbps");
    assert_eq!(o.value, "96000");
    let opts = bitrate_menu_options(&vec![8_000, 384_000]);
    assert_eq!(opts.len(), 2);
    assert_eq!(opts[0].label, "8 kbps");
    assert_eq!(opts[1].label, "384 kbps");
    assert_eq!(opts[1].value, "384000");
    let (id, placeholder, prompt) = bitrate_menu_texts();
    assert_eq!(id, "avc_bitrate_select");
    assert_eq!(placeholder, "Select a new bitrate");
    assert_eq!(prompt, "Choose a new bitrate for this channel:");
}

#[test]
fn bitrate_selection_roundtrip() {
    for b in allowed_bitrates_for_premier_tier(PremiumTier::Tier3) {
        let o = bitrate_option(b);
        assert_eq!(selected_bitrate(&vec![o.value]), Some(b));
    }
    assert_eq!(selected_bitrate(&vec![]), None);
    assert_eq!(selected_bitrate(&vec!["fast".to_string()]), None);
    assert_eq!(selected_bitrate(&vec!["4294967296".to_string()]), None);
    assert_eq!(selected_bitrate(&vec!["64000".to_string(), "8000".to_string()]), Some(64_000));
    assert_eq!(bitrate_updated_message(128_000), "Bitrate updated to 128 kbps.");
    assert_eq!(bitrate_updated_message(999), "Bitrate updated to 0 kbps.");
}

#[test]
fn component_routing() {
    assert_eq!(route_component("avc_bitrate_prompt"), ComponentAction::BitratePrompt);
    assert_eq!(route_component("avc_bitrate_select"), ComponentAction::BitrateSelect);
    assert_eq!(route_component("avc_lock_toggle"), ComponentAction::Ignore);
    assert_eq!(route_component("avc_userlimit_prompt"), ComponentAction::Ignore);
    assert_eq!(route_component(""), ComponentAction::Ignore);
}

#[test]
fn control_panel_contents() {
    let b = control_panel_buttons();
    assert_eq!(b.len(), 3);
    assert_eq!((b[0].custom_id, b[0].label, b[0].style), ("avc_lock_toggle", "Lock / Unlock", ButtonStyle::Primary));
    assert_eq!((b[1].custom_id, b[1].label, b[1].style), ("avc_bitrate_prompt", "Set Bitrate", ButtonStyle::Secondary));
    assert_eq!((b[2].custom_id, b[2].label, b[2].style), ("avc_userlimit_prompt", "Set User Limit", ButtonStyle::Secondary));
    assert_eq!(route_component(b[1].custom_id), ComponentAction::BitratePrompt);
    assert_eq!(route_component(bitrate_menu_texts().0), ComponentAction::BitrateSelect);
    assert_eq!(control_panel_heading(), ("Channel Control Panel", "Manage this auto voice channel"));
}
