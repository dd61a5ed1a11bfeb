//! The control panel of an auto voice channel and the interactions it starts:
//! which button or menu leads where, and what the bitrate menu offers and answers.

use vstd::prelude::*;
use crate::text::{decimal, parse_unsigned, push_str, push_decimal, str_eq, parse_u32, lemma_parse_decimal_roundtrip};

verus! {

/// The custom id of the control panel's bitrate button.
pub open spec fn bitrate_prompt_id() -> Seq<char> {
    "avc_bitrate_prompt"@
}

/// The custom id of the bitrate menu.
pub open spec fn bitrate_select_id() -> Seq<char> {
    "avc_bitrate_select"@
}

/// What a component interaction leads to.
#[derive(Debug, Clone, Copy, PartialEq, Eq)]
pub enum ComponentAction {
    /// Offer the bitrates the guild allows.
    BitratePrompt,
    /// Apply the bitrate the member picked.
    BitrateSelect,
    /// Nothing: the component has no handler.
    Ignore,
}

/// Which handler a component interaction with the given custom id goes to.
pub open spec fn route_component_spec(custom_id: Seq<char>) -> ComponentAction {
    if custom_id == bitrate_prompt_id() {
        ComponentAction::BitratePrompt
    } else if custom_id == bitrate_select_id() {
        ComponentAction::BitrateSelect
    } else {
        ComponentAction::Ignore
    }
}

/// Which handler a component interaction with the given custom id goes to.
pub fn route_component(custom_id: &str) -> (r: ComponentAction)
    ensures
        r == route_component_spec(custom_id@),
{
    if str_eq(custom_id, "avc_bitrate_prompt") {
        ComponentAction::BitratePrompt
    } else if str_eq(custom_id, "avc_bitrate_select") {
        ComponentAction::BitrateSelect
    } else {
        ComponentAction::Ignore
    }
}

/// How a control panel button looks.
#[derive(Debug, Clone, Copy, PartialEq, Eq)]
pub enum ButtonStyle {
    Primary,
    Secondary,
}

/// One button of the control panel.
#[derive(Debug, Clone, Copy)]
pub struct PanelButton {
    pub custom_id: &'static str,
    pub label: &'static str,
    pub style: ButtonStyle,
}

/// The buttons of the control panel posted in every auto voice channel, in order.
pub fn control_panel_buttons() -> (r: Vec<PanelButton>)
    ensures
        r@.len() == 3,
        r@[0].custom_id@ == "avc_lock_toggle"@,
        r@[0].label@ == "Lock / Unlock"@,
        r@[0].style == ButtonStyle::Primary,
        r@[1].custom_id@ == bitrate_prompt_id(),
        r@[1].label@ == "Set Bitrate"@,
        r@[1].style == ButtonStyle::Secondary,
        r@[2].custom_id@ == "avc_userlimit_prompt"@,
        r@[2].label@ == "Set User Limit"@,
        r@[2].style == ButtonStyle::Secondary,
{
    let mut r: Vec<PanelButton> = Vec::new();
    r.push(
        PanelButton {
            custom_id: "avc_lock_toggle",
            label: "Lock / Unlock",
            style: ButtonStyle::Primary,
        },
    );
    r.push(
        PanelButton {
            custom_id: "avc_bitrate_prompt",
            label: "Set Bitrate",
            style: ButtonStyle::Secondary,
        },
    );
    r.push(
        PanelButton {
            custom_id: "avc_userlimit_prompt",
            label: "Set User Limit",
            style: ButtonStyle::Secondary,
        },
    );
    r
}

/// The title and description of the control panel's embed.
pub fn control_panel_heading() -> (r: (&'static str, &'static str))
    ensures
        r.0@ == "Channel Control Panel"@,
        r.1@ == "Manage this auto voice channel"@,
{
    ("Channel Control Panel", "Manage this auto voice channel")
}

/// The custom id, placeholder and prompt text of the bitrate menu.
pub fn bitrate_menu_texts() -> (r: (&'static str, &'static str, &'static str))
    ensures
        r.0@ == bitrate_select_id(),
        r.1@ == "Select a new bitrate"@,
        r.2@ == "Choose a new bitrate for this channel:"@,
{
    ("avc_bitrate_select", "Select a new bitrate", "Choose a new bitrate for this channel:")
}

/// One entry of the bitrate menu.
#[derive(Debug)]
pub struct SelectOption {
    pub label: String,
    pub value: String,
}

/// The label of a bitrate in the menu: whole kilobits per second.
pub open spec fn bitrate_label(bitrate: u32) -> Seq<char> {
    decimal((bitrate / 1000) as nat) + " kbps"@
}

/// The menu entry for one bitrate: its label in kbps, its value in bits per second.
pub fn bitrate_option(bitrate: u32) -> (r: SelectOption)
    ensures
        r.label@ == bitrate_label(bitrate),
        r.value@ == decimal(bitrate as nat),
{
    let mut label = String::new();
    push_decimal(&mut label, (bitrate / 1000) as u64);
    push_str(&mut label, " kbps");
    let mut value = String::new();
    push_decimal(&mut value, bitrate as u64);
    SelectOption { label, value }
}

/// The entries of the bitrate menu, one per bitrate, in the same order.
pub fn bitrate_menu_options(bitrates: &Vec<u32>) -> (r: Vec<SelectOption>)
    ensures
        r@.len() == bitrates@.len(),
        forall|i: int|
            0 <= i < r@.len() ==> (#[trigger] r@[i]).label@ == bitrate_label(bitrates@[i])
                && r@[i].value@ == decimal(bitrates@[i] as nat),
{
    let mut r: Vec<SelectOption> = Vec::new();
    let mut i: usize = 0;
    while i < bitrates.len()
        invariant
            i <= bitrates@.len(),
            r@.len() == i,
            forall|k: int|
                0 <= k < i ==> (#[trigger] r@[k]).label@ == bitrate_label(bitrates@[k])
                    && r@[k].value@ == decimal(bitrates@[k] as nat),
        decreases bitrates@.len() - i,
    {
        r.push(bitrate_option(bitrates[i]));
        i = i + 1;
    }
    r
}

/// The bitrate a member picked: the first selected value, read as a `u32`.
pub open spec fn selected_bitrate_spec(values: Seq<Seq<char>>) -> Option<u32> {
    if values.len() == 0 {
        None
    } else {
        match parse_unsigned(values[0], u32::MAX as nat) {
            Ok(v) => Some(v as u32),
            Err(_) => None,
        }
    }
}

/// The bitrate a member picked in the menu, if the first selected value is one.
pub fn selected_bitrate(values: &Vec<String>) -> (r: Option<u32>)
    ensures
        r == selected_bitrate_spec(values@.map_values(|v: String| v@)),
{
    if values.len() == 0 {
        return None;
    }
    let first = &values[0];
    assert(values@.map_values(|v: String| v@)[0] == first@);
    match parse_u32(first.as_str()) {
        Ok(v) => Some(v),
        Err(_) => None,
    }
}

/// The reply once a bitrate is applied.
pub fn bitrate_updated_message(bitrate: u32) -> (s: String)
    ensures
        s@ == "Bitrate updated to "@ + decimal((bitrate / 1000) as nat) + " kbps."@,
{
    let mut s = String::new();
    push_str(&mut s, "Bitrate updated to ");
    push_decimal(&mut s, (bitrate / 1000) as u64);
    push_str(&mut s, " kbps.");
    s
}

/// Picking an entry of the bitrate menu applies exactly the bitrate that the
/// entry was made for.
pub proof fn lemma_selected_option_roundtrip(bitrate: u32)
    ensures
        selected_bitrate_spec(seq![decimal(bitrate as nat)]) == Some(bitrate),
{
    lemma_parse_decimal_roundtrip(bitrate as nat, u32::MAX as nat);
}

/// The control panel's bitrate button leads to the bitrate prompt, and the menu
/// that the prompt shows leads to applying the pick.
pub proof fn lemma_panel_routes()
    ensures
        route_component_spec(bitrate_prompt_id()) == ComponentAction::BitratePrompt,
        route_component_spec(bitrate_select_id()) == ComponentAction::BitrateSelect,
        route_component_spec("avc_lock_toggle"@) == ComponentAction::Ignore,
        route_component_spec("avc_userlimit_prompt"@) == ComponentAction::Ignore,
{
    reveal_strlit("avc_bitrate_prompt");
    reveal_strlit("avc_bitrate_select");
    reveal_strlit("avc_lock_toggle");
    reveal_strlit("avc_userlimit_prompt");
    assert(bitrate_select_id()[12] != bitrate_prompt_id()[12]);
    assert("avc_lock_toggle"@.len() != bitrate_prompt_id().len());
    assert("avc_lock_toggle"@.len() != bitrate_select_id().len());
    assert("avc_userlimit_prompt"@.len() != bitrate_prompt_id().len());
    assert("avc_userlimit_prompt"@.len() != bitrate_select_id().len());
}

} // verus!
