//! The analytics events the bot reports: their names, whom they are about, and
//! the properties they carry. Channel ids travel as decimal strings, the way
//! Discord ids are serialized.

use vstd::prelude::*;
use crate::text::{decimal, push_decimal, push_str};

verus! {

/// The value of an event property.
#[derive(Debug)]
pub enum PropValue {
    Text(String),
    Unsigned(u64),
    OptionalBool(Option<bool>),
}

/// A property value with its text as a sequence.
pub enum PropValueView {
    Text(Seq<char>),
    Unsigned(u64),
    OptionalBool(Option<bool>),
}

impl View for PropValue {
    type V = PropValueView;

    open spec fn view(&self) -> PropValueView {
        match self {
            PropValue::Text(s) => PropValueView::Text(s@),
            PropValue::Unsigned(n) => PropValueView::Unsigned(*n),
            PropValue::OptionalBool(b) => PropValueView::OptionalBool(*b),
        }
    }
}

/// An event to report.
#[derive(Debug)]
pub struct AnalyticsEvent {
    pub name: &'static str,
    pub distinct_id: String,
    pub properties: Vec<(&'static str, PropValue)>,
}

/// The properties as pairs of name and value.
pub open spec fn props_view(p: Seq<(&'static str, PropValue)>) -> Seq<(Seq<char>, PropValueView)> {
    p.map_values(|e: (&'static str, PropValue)| (e.0@, e.1@))
}

fn decimal_string(n: u64) -> (s: String)
    ensures
        s@ == decimal(n as nat),
{
    let mut s = String::new();
    push_decimal(&mut s, n);
    s
}

fn text(t: &str) -> (s: String)
    ensures
        s@ == t@,
{
    let mut s = String::new();
    push_str(&mut s, t);
    s
}

/// The bot joined a guild.
pub fn guild_joined(guild_id: u64, is_new: Option<bool>, member_count: u64) -> (e: AnalyticsEvent)
    ensures
        e.name@ == "guild_joined"@,
        e.distinct_id@ == decimal(guild_id as nat),
        props_view(e.properties@) == seq![
            ("is_new"@, PropValueView::OptionalBool(is_new)),
            ("member_count"@, PropValueView::Unsigned(member_count)),
        ],
{
    let mut p: Vec<(&'static str, PropValue)> = Vec::new();
    p.push(("is_new", PropValue::OptionalBool(is_new)));
    p.push(("member_count", PropValue::Unsigned(member_count)));
    let e = AnalyticsEvent { name: "guild_joined", distinct_id: decimal_string(guild_id), properties: p };
    assert(props_view(e.properties@) =~= seq![
        ("is_new"@, PropValueView::OptionalBool(is_new)),
        ("member_count"@, PropValueView::Unsigned(member_count)),
    ]);
    e
}

/// The bot left a guild.
pub fn guild_left(guild_id: u64) -> (e: AnalyticsEvent)
    ensures
        e.name@ == "guild_left"@,
        e.distinct_id@ == decimal(guild_id as nat),
        e.properties@.len() == 0,
{
    AnalyticsEvent { name: "guild_left", distinct_id: decimal_string(guild_id), properties: Vec::new() }
}

fn with_channel(name: &'static str, guild_id: u64, prop: &'static str, channel_id: u64) -> (e:
    AnalyticsEvent)
    ensures
        e.name == name,
        e.distinct_id@ == decimal(guild_id as nat),
        props_view(e.properties@) == seq![(prop@, PropValueView::Text(decimal(channel_id as nat)))],
{
    let mut p: Vec<(&'static str, PropValue)> = Vec::new();
    p.push((prop, PropValue::Text(decimal_string(channel_id))));
    let e = AnalyticsEvent { name, distinct_id: decimal_string(guild_id), properties: p };
    assert(props_view(e.properties@) =~= seq![
        (prop@, PropValueView::Text(decimal(channel_id as nat))),
    ]);
    e
}

/// The auto voice channels module was installed in a guild.
pub fn module_installed(guild_id: u64, channel_id: u64) -> (e: AnalyticsEvent)
    ensures
        e.name@ == "auto_voice_channels_module_installed"@,
        e.distinct_id@ == decimal(guild_id as nat),
        props_view(e.properties@) == seq![("channel_id"@, PropValueView::Text(decimal(channel_id as nat)))],
{
    with_channel("auto_voice_channels_module_installed", guild_id, "channel_id", channel_id)
}

/// An installation was uninstalled with the command.
pub fn module_uninstalled(guild_id: u64, channel_id: u64) -> (e: AnalyticsEvent)
    ensures
        e.name@ == "auto_voice_channels_module_uninstalled"@,
        e.distinct_id@ == decimal(guild_id as nat),
        props_view(e.properties@) == seq![("channel_id"@, PropValueView::Text(decimal(channel_id as nat)))],
{
    with_channel("auto_voice_channels_module_uninstalled", guild_id, "channel_id", channel_id)
}

/// An installation went away because its channel was deleted.
pub fn installation_channel_deleted(guild_id: u64) -> (e: AnalyticsEvent)
    ensures
        e.name@ == "auto_voice_channels_module_uninstalled"@,
        e.distinct_id@ == decimal(guild_id as nat),
        e.properties@.len() == 0,
{
    AnalyticsEvent {
        name: "auto_voice_channels_module_uninstalled",
        distinct_id: decimal_string(guild_id),
        properties: Vec::new(),
    }
}

/// An auto voice channel was made from an installation.
pub fn auto_voice_channel_created(guild_id: u64, installation_channel_id: u64) -> (e: AnalyticsEvent)
    ensures
        e.name@ == "auto_voice_channel_created"@,
        e.distinct_id@ == decimal(guild_id as nat),
        props_view(e.properties@) == seq![
            ("installation_channel_id"@, PropValueView::Text(decimal(installation_channel_id as nat))),
        ],
{
    with_channel("auto_voice_channel_created", guild_id, "installation_channel_id", installation_channel_id)
}

/// An auto voice channel was removed.
pub fn auto_voice_channel_deleted(guild_id: u64) -> (e: AnalyticsEvent)
    ensures
        e.name@ == "auto_voice_channel_deleted"@,
        e.distinct_id@ == decimal(guild_id as nat),
        e.properties@.len() == 0,
{
    AnalyticsEvent {
        name: "auto_voice_channel_deleted",
        distinct_id: decimal_string(guild_id),
        properties: Vec::new(),
    }
}

/// Whom a command event is about: its guild, or 0 outside guilds.
pub open spec fn command_guild(guild_id: Option<u64>) -> nat {
    match guild_id {
        Some(g) => g as nat,
        None => 0,
    }
}

/// A command is about to run.
pub fn command_used(guild_id: Option<u64>, command_name: &str, channel_id: u64) -> (e: AnalyticsEvent)
    ensures
        e.name@ == "command_used"@,
        e.distinct_id@ == decimal(command_guild(guild_id)),
        props_view(e.properties@) == seq![
            ("command_name"@, PropValueView::Text(command_name@)),
            ("channel_id"@, PropValueView::Text(decimal(channel_id as nat))),
        ],
{
    let g: u64 = match guild_id {
        Some(g) => g,
        None => 0,
    };
    let mut p: Vec<(&'static str, PropValue)> = Vec::new();
    p.push(("command_name", PropValue::Text(text(command_name))));
    p.push(("channel_id", PropValue::Text(decimal_string(channel_id))));
    let e = AnalyticsEvent { name: "command_used", distinct_id: decimal_string(g), properties: p };
    assert(props_view(e.properties@) =~= seq![
        ("command_name"@, PropValueView::Text(command_name@)),
        ("channel_id"@, PropValueView::Text(decimal(channel_id as nat))),
    ]);
    e
}

/// A command failed with the given error, as its debug text.
pub fn command_failed(guild_id: Option<u64>, command_name: &str, error: &str) -> (e: AnalyticsEvent)
    ensures
        e.name@ == "command_failed"@,
        e.distinct_id@ == decimal(command_guild(guild_id)),
        props_view(e.properties@) == seq![
            ("command_name"@, PropValueView::Text(command_name@)),
            ("error"@, PropValueView::Text(error@)),
        ],
{
    let g: u64 = match guild_id {
        Some(g) => g,
        None => 0,
    };
    let mut p: Vec<(&'static str, PropValue)> = Vec::new();
    p.push(("command_name", PropValue::Text(text(command_name))));
    p.push(("error", PropValue::Text(text(error))));
    let e = AnalyticsEvent { name: "command_failed", distinct_id: decimal_string(g), properties: p };
    assert(props_view(e.properties@) =~= seq![
        ("command_name"@, PropValueView::Text(command_name@)),
        ("error"@, PropValueView::Text(error@)),
    ]);
    e
}

/// Where analytics are sent: only when both the project key and the host are set.
pub fn posthog_settings(project_key: Option<String>, project_host: Option<String>) -> (r: Option<
    (String, String),
>)
    ensures
        r is Some <==> (project_key is Some && project_host is Some),
        r matches Some(kh) ==> kh.0@ == project_key->0@ && kh.1@ == project_host->0@,
{
    match (project_key, project_host) {
        (Some(key), Some(host)) => Some((key, host)),
        _ => None,
    }
}

} // verus!
