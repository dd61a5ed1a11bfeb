//! The custom statuses the bot cycles through.

use vstd::prelude::*;
use crate::text::{decimal, push_decimal, push_str};

verus! {

/// The status shown at the given turn, for a bot in `guild_count` guilds.
pub open spec fn status_spec(turn: nat, guild_count: nat) -> Seq<char> {
    if turn % 3 == 0 {
        "Managing "@ + decimal(guild_count) + " servers"@
    } else if turn % 3 == 1 {
        "Watching out for / commands"@
    } else {
        "Now with more rust \u{1F980}"@
    }
}

/// The status to show at the given turn.
pub fn status_text(turn: usize, guild_count: usize) -> (s: String)
    ensures
        s@ == status_spec(turn as nat, guild_count as nat),
{
    let mut s = String::new();
    let k = turn % 3;
    if k == 0 {
        push_str(&mut s, "Managing ");
        push_decimal(&mut s, guild_count as u64);
        push_str(&mut s, " servers");
    } else if k == 1 {
        push_str(&mut s, "Watching out for / commands");
    } else {
        push_str(&mut s, "Now with more rust \u{1F980}");
    }
    s
}

/// How long each status stays, in seconds.
pub fn status_period_secs() -> (s: u64)
    ensures
        s == 15,
{
    15
}

/// The statuses repeat every three turns.
pub proof fn lemma_status_cycle(turn: nat, guild_count: nat)
    ensures
        status_spec(turn + 3, guild_count) == status_spec(turn, guild_count),
{
    assert((turn + 3) % 3 == turn % 3);
}

} // verus!
