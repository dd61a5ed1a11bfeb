//! Installing modules: which module a name selects, what the autocompletion
//! offers, and what an installation of the auto voice channels module is made of.

use vstd::prelude::*;
use crate::seqs::{lemma_filter_push, lemma_filter_empty, lemma_filter_all, truncated};
use crate::text::{
    has_substring, lowercase, to_lowercase, str_contains, str_eq, push_str, push_decimal_i64,
    decimal_int, lemma_empty_substring,
};

verus! {

/// A module that can be installed.
#[derive(Debug, Clone, Copy, PartialEq, Eq)]
pub enum InstallableModule {
    AutoVoiceChannels,
}

/// The module that the name given to `/module install` selects, if any.
pub fn resolve_module(name: &str) -> (r: Option<InstallableModule>)
    ensures
        r is Some <==> name@ == "auto-voice-channels"@,
        r matches Some(m) ==> m == InstallableModule::AutoVoiceChannels,
{
    if str_eq(name, "auto-voice-channels") {
        Some(InstallableModule::AutoVoiceChannels)
    } else {
        None
    }
}

/// The reply to a request to install a module that does not exist.
pub fn unknown_module_message(name: &str) -> (s: String)
    ensures
        s@ == "The `"@ + name@ + "` module does not exist."@,
{
    let mut s = String::new();
    push_str(&mut s, "The `");
    push_str(&mut s, name);
    push_str(&mut s, "` module does not exist.");
    s
}

/// One autocompletion choice: what is shown, and what is sent back.
#[derive(Debug)]
pub struct Choice {
    pub name: String,
    pub value: String,
}

impl View for Choice {
    type V = (Seq<char>, Seq<char>);

    open spec fn view(&self) -> (Seq<char>, Seq<char>) {
        (self.name@, self.value@)
    }
}

/// The choices as pairs of name and value.
pub open spec fn choices_view(v: Seq<Choice>) -> Seq<(Seq<char>, Seq<char>)> {
    v.map_values(|c: Choice| c@)
}

/// The modules offered by the autocompletion, in order.
pub open spec fn module_catalog() -> Seq<(Seq<char>, Seq<char>)> {
    seq![("Audit"@, "audit"@), ("Auto Voice Channels"@, "auto-voice-channels"@)]
}

/// Whether a module's name, lowercased, contains the lowercased text typed so far.
pub open spec fn module_matches(partial_lower: Seq<char>) -> spec_fn((Seq<char>, Seq<char>)) -> bool {
    |m: (Seq<char>, Seq<char>)| has_substring(lowercase(m.0), partial_lower)
}

/// The autocompletion of `/module install`: the modules whose name contains what
/// was typed, without regard to case, at most 25 of them.
pub open spec fn module_choices_spec(partial: Seq<char>) -> Seq<(Seq<char>, Seq<char>)> {
    truncated(module_catalog().filter(module_matches(lowercase(partial))), 25)
}

/// The autocompletion of `/module install` for the text typed so far.
pub fn module_choices(partial: &str) -> (r: Vec<Choice>)
    ensures
        choices_view(r@) == module_choices_spec(partial@),
{
    let partial_lower = to_lowercase(partial);
    let ghost pred = module_matches(lowercase(partial@));
    let ghost cat = module_catalog();
    let mut r: Vec<Choice> = Vec::new();
    proof {
        lemma_filter_empty(pred);
        assert(cat.subrange(0, 0) =~= Seq::<(Seq<char>, Seq<char>)>::empty());
    }
    let names: [&str; 2] = ["Audit", "Auto Voice Channels"];
    let values: [&str; 2] = ["audit", "auto-voice-channels"];
    let mut i: usize = 0;
    while i < 2
        invariant
            i <= 2,
            partial_lower@ == lowercase(partial@),
            pred == module_matches(lowercase(partial@)),
            cat == module_catalog(),
            names@.len() == 2 && names@[0]@ == "Audit"@ && names@[1]@ == "Auto Voice Channels"@,
            values@.len() == 2 && values@[0]@ == "audit"@ && values@[1]@ == "auto-voice-channels"@,
            choices_view(r@) == cat.subrange(0, i as int).filter(pred),
        decreases 2 - i,
    {
        let name = names[i];
        let value = values[i];
        let lname = to_lowercase(name);
        let keep = str_contains(lname.as_str(), partial_lower.as_str());
        proof {
            assert(cat[i as int] == (name@, value@));
            lemma_filter_push(cat.subrange(0, i as int), pred, cat[i as int]);
            assert(cat.subrange(0, i + 1) =~= cat.subrange(0, i as int).push(cat[i as int]));
        }
        if keep {
            let mut n = String::new();
            push_str(&mut n, name);
            let mut v = String::new();
            push_str(&mut v, value);
            let ghost before = r@;
            r.push(Choice { name: n, value: v });
            assert(choices_view(r@) =~= choices_view(before).push((name@, value@)));
        }
        i = i + 1;
    }
    assert(cat.subrange(0, 2) =~= cat);
    proof {
        cat.lemma_filter_len(pred);
    }
    r
}

/// The choice offered for an installation: its channel and category names, and
/// its channel id.
pub fn installation_choice(channel_name: &str, category_name: &str, channel_id: i64) -> (r: Choice)
    ensures
        r.name@ == channel_name@ + " ("@ + category_name@ + ")"@,
        r.value@ == decimal_int(channel_id as int),
{
    let mut name = String::new();
    push_str(&mut name, channel_name);
    push_str(&mut name, " (");
    push_str(&mut name, category_name);
    push_str(&mut name, ")");
    let mut value = String::new();
    push_decimal_i64(&mut value, channel_id);
    Choice { name, value }
}

/// Whether an installation choice fits the lowercased text typed so far: its
/// lowercased name contains it, or its value does.
pub open spec fn installation_matches(partial_lower: Seq<char>) -> spec_fn((Seq<char>, Seq<char>)) -> bool {
    |c: (Seq<char>, Seq<char>)| has_substring(lowercase(c.0), partial_lower) || has_substring(c.1, partial_lower)
}

/// The autocompletion of the installation to uninstall: the choices that fit what
/// was typed, in order, at most 25 of them.
pub open spec fn installation_choices_spec(choices: Seq<(Seq<char>, Seq<char>)>, partial: Seq<char>) -> Seq<(Seq<char>, Seq<char>)> {
    truncated(choices.filter(installation_matches(lowercase(partial))), 25)
}

/// Keeps the installation choices that fit the text typed so far, at most 25.
pub fn filter_installation_choices(choices: Vec<Choice>, partial: &str) -> (r: Vec<Choice>)
    ensures
        choices_view(r@) == installation_choices_spec(choices_view(choices@), partial@),
        r@.len() <= 25,
        partial@.len() == 0 ==> r@.len() == (if choices@.len() < 25 {
            choices@.len()
        } else {
            25
        }),
        partial@.len() == 0 ==> forall|i: int|
            0 <= i < r@.len() ==> (#[trigger] r@[i]).name@ == choices@[i].name@ && r@[i].value@
                == choices@[i].value@,
{
    let partial_lower = to_lowercase(partial);
    let ghost pred = installation_matches(lowercase(partial@));
    let ghost all = choices_view(choices@);
    proof {
        if partial@.len() == 0 {
            assert(lowercase(partial@) =~= partial_lower@);
            assert forall|i: int| 0 <= i < all.len() implies pred(#[trigger] all[i]) by {
                lemma_empty_substring(all[i].1, lowercase(partial@));
            }
            lemma_filter_all(all, pred);
        }
    }
    let mut kept: Vec<Choice> = Vec::new();
    proof {
        lemma_filter_empty(pred);
        assert(all.subrange(0, 0) =~= Seq::<(Seq<char>, Seq<char>)>::empty());
    }
    let mut i: usize = 0;
    while i < choices.len()
        invariant
            partial_lower@ == lowercase(partial@),
            pred == installation_matches(lowercase(partial@)),
            all == choices_view(choices@),
            i <= choices@.len(),
            choices_view(kept@) == all.subrange(0, i as int).filter(pred),
        decreases choices@.len() - i,
    {
        let c = &choices[i];
        assert(c@ == all[i as int]);
        let lname = to_lowercase(c.name.as_str());
        let keep = str_contains(lname.as_str(), partial_lower.as_str()) || str_contains(
            c.value.as_str(),
            partial_lower.as_str(),
        );
        proof {
            lemma_filter_push(all.subrange(0, i as int), pred, all[i as int]);
            assert(all.subrange(0, i + 1) =~= all.subrange(0, i as int).push(all[i as int]));
        }
        if keep {
            let ghost before = kept@;
            kept.push(Choice { name: c.name.clone(), value: c.value.clone() });
            assert(choices_view(kept@) =~= choices_view(before).push(all[i as int]));
        }
        i = i + 1;
    }
    assert(all.subrange(0, choices@.len() as int) =~= all);
    let ghost filtered = all.filter(pred);
    let limit: usize = if kept.len() < 25 { kept.len() } else { 25 };
    let mut r: Vec<Choice> = Vec::new();
    let mut j: usize = 0;
    while j < limit
        invariant
            limit <= kept@.len(),
            limit == if filtered.len() < 25 { filtered.len() } else { 25 },
            j <= limit,
            choices_view(kept@) == filtered,
            choices_view(r@) == filtered.subrange(0, j as int),
        decreases limit - j,
    {
        let c = &kept[j];
        assert(c@ == filtered[j as int]);
        let ghost before = r@;
        r.push(Choice { name: c.name.clone(), value: c.value.clone() });
        assert(choices_view(r@) =~= choices_view(before).push(filtered[j as int]));
        assert(filtered.subrange(0, j + 1) =~= filtered.subrange(0, j as int).push(filtered[j as int]));
        j = j + 1;
    }
    assert(choices_view(r@) =~= truncated(filtered, 25));
    proof {
        if partial@.len() == 0 {
            assert forall|k: int| 0 <= k < r@.len() implies (#[trigger] r@[k]).name@ == choices@[k].name@
                && r@[k].value@ == choices@[k].value@ by {
                assert(choices_view(r@)[k] == r@[k]@);
                assert(all[k] == choices@[k]@);
                assert(choices_view(r@)[k] == filtered[k]);
            }
        }
    }
    r
}

/// The names of the category and of the installation channel, where the member
/// left them blank in the form.
pub fn install_names(category_name: Option<String>, channel_name: Option<String>) -> (r: (
    String,
    String,
))
    ensures
        r.0@ == match category_name {
            Some(n) => n@,
            None => "INFBOT Voice Channels"@,
        },
        r.1@ == match channel_name {
            Some(n) => n@,
            None => "\u{2795} New Channel"@,
        },
{
    let category = match category_name {
        Some(n) => n,
        None => {
            let mut s = String::new();
            push_str(&mut s, "INFBOT Voice Channels");
            s
        },
    };
    let channel = match channel_name {
        Some(n) => n,
        None => {
            let mut s = String::new();
            push_str(&mut s, "\u{2795} New Channel");
            s
        },
    };
    (category, channel)
}

/// The record of a new installation, its ids in the form they are stored in.
#[derive(Debug, Clone, Copy, PartialEq, Eq)]
pub struct NewInstallation {
    pub channel_id: i64,
    pub category_id: i64,
    pub guild_id: i64,
    pub created_by: i64,
}

/// The record to store for an installation made of the given channel and category.
pub fn installation_record(channel_id: u64, category_id: u64, guild_id: u64, author_id: u64) -> (r:
    NewInstallation)
    ensures
        r.channel_id == channel_id as i64,
        r.category_id == category_id as i64,
        r.guild_id == guild_id as i64,
        r.created_by == author_id as i64,
{
    NewInstallation {
        channel_id: channel_id as i64,
        category_id: category_id as i64,
        guild_id: guild_id as i64,
        created_by: author_id as i64,
    }
}

} // verus!
