//! The contents of the `/bot` and `/server` replies.

use vstd::prelude::*;
use crate::text::{decimal, decimal_int, pad2, push_str, push_decimal, push_decimal_i64, push_pad2, parse_unsigned, IntErrorKind, lemma_decimal_shape, lemma_parse_decimal_roundtrip};

verus! {

/// One field of an embed: its name, its value, and whether it sits inline.
#[derive(Debug)]
pub struct EmbedField {
    pub name: String,
    pub value: String,
    pub inline: bool,
}

impl View for EmbedField {
    type V = (Seq<char>, Seq<char>, bool);

    open spec fn view(&self) -> (Seq<char>, Seq<char>, bool) {
        (self.name@, self.value@, self.inline)
    }
}

/// The fields as triples.
pub open spec fn fields_view(v: Seq<EmbedField>) -> Seq<(Seq<char>, Seq<char>, bool)> {
    v.map_values(|f: EmbedField| f@)
}

fn field(name: &str, value: String, inline: bool) -> (f: EmbedField)
    ensures
        f@ == (name@, value@, inline),
{
    let mut n = String::new();
    push_str(&mut n, name);
    EmbedField { name: n, value, inline }
}

fn text_field(name: &str, value: &str, inline: bool) -> (f: EmbedField)
    ensures
        f@ == (name@, value@, inline),
{
    let mut v = String::new();
    push_str(&mut v, value);
    field(name, v, inline)
}

/// The accent colour of the bot's embeds.
pub fn embed_colour() -> (c: u32)
    ensures
        c == 0x818CF8,
{
    0x818CF8
}

/// A Discord timestamp that shows how long ago the bot came online.
pub fn get_relative_online_string(started_at_unix: i64) -> (s: String)
    ensures
        s@ == "<t:"@ + decimal_int(started_at_unix as int) + ":R>"@,
{
    let mut s = String::new();
    push_str(&mut s, "<t:");
    push_decimal_i64(&mut s, started_at_unix);
    push_str(&mut s, ":R>");
    s
}

/// The hours, minutes and seconds of an uptime in seconds.
pub open spec fn uptime_parts(secs: nat) -> (nat, nat, nat) {
    (secs / 3600, (secs % 3600) / 60, secs % 60)
}

/// An uptime as `HHh:MMm:SSs`, each part zero-padded to at least two digits.
pub open spec fn uptime_text(secs: nat) -> Seq<char> {
    let (h, m, s) = uptime_parts(secs);
    pad2(h) + "h:"@ + pad2(m) + "m:"@ + pad2(s) + "s"@
}

/// How long the bot has been running, from its uptime in seconds.
pub fn get_uptime_string(uptime_secs: u64) -> (s: String)
    ensures
        s@ == uptime_text(uptime_secs as nat),
{
    let h = uptime_secs / 3600;
    let m = (uptime_secs % 3600) / 60;
    let sec = uptime_secs % 60;
    let mut s = String::new();
    push_pad2(&mut s, h);
    push_str(&mut s, "h:");
    push_pad2(&mut s, m);
    push_str(&mut s, "m:");
    push_pad2(&mut s, sec);
    push_str(&mut s, "s");
    s
}

/// The parts of an uptime add up to it, and minutes and seconds stay below sixty.
pub proof fn lemma_uptime_parts(secs: nat)
    ensures
        uptime_parts(secs).0 * 3600 + uptime_parts(secs).1 * 60 + uptime_parts(secs).2 == secs,
        uptime_parts(secs).1 < 60,
        uptime_parts(secs).2 < 60,
{
    assert(secs % 3600 == (secs % 3600) / 60 * 60 + secs % 60) by (nonlinear_arith);
}

/// A count followed by a word that is singular exactly when the count is one.
pub open spec fn count_text(n: nat, singular: Seq<char>, plural: Seq<char>) -> Seq<char> {
    decimal(n) + " "@ + if n == 1 {
        singular
    } else {
        plural
    }
}

fn count_string(n: u64, singular: &str, plural: &str) -> (s: String)
    ensures
        s@ == count_text(n as nat, singular@, plural@),
{
    let mut s = String::new();
    push_decimal(&mut s, n);
    push_str(&mut s, " ");
    if n == 1 {
        push_str(&mut s, singular);
    } else {
        push_str(&mut s, plural);
    }
    s
}

/// The sum of some counts.
pub open spec fn total(counts: Seq<usize>) -> nat
    decreases counts.len(),
{
    if counts.len() == 0 {
        0
    } else {
        total(counts.drop_last()) + counts.last() as nat
    }
}

/// How many members the guilds have together.
pub fn get_user_count_string(member_counts: &Vec<usize>) -> (s: String)
    requires
        total(member_counts@) <= usize::MAX,
    ensures
        s@ == count_text(total(member_counts@), "user"@, "users"@),
{
    let mut sum: usize = 0;
    let mut i: usize = 0;
    while i < member_counts.len()
        invariant
            i <= member_counts@.len(),
            total(member_counts@) <= usize::MAX,
            sum == total(member_counts@.subrange(0, i as int)),
        decreases member_counts@.len() - i,
    {
        proof {
            lemma_total_prefix(member_counts@, i as int + 1);
            assert(member_counts@.subrange(0, i + 1).drop_last() =~= member_counts@.subrange(
                0,
                i as int,
            ));
        }
        sum = sum + member_counts[i];
        i = i + 1;
    }
    assert(member_counts@.subrange(0, i as int) =~= member_counts@);
    count_string(sum as u64, "user", "users")
}

/// The sum of a prefix of counts is no more than the sum of all of them.
pub proof fn lemma_total_prefix(counts: Seq<usize>, k: int)
    requires
        0 <= k <= counts.len(),
    ensures
        total(counts.subrange(0, k)) <= total(counts),
    decreases counts.len() - k,
{
    if k < counts.len() {
        lemma_total_prefix(counts, k + 1);
        assert(counts.subrange(0, k + 1).drop_last() =~= counts.subrange(0, k));
    } else {
        assert(counts.subrange(0, k) =~= counts);
    }
}

/// How many guilds the bot is in.
pub fn get_guild_count_string(guild_count: usize) -> (s: String)
    ensures
        s@ == count_text(guild_count as nat, "server"@, "servers"@),
{
    count_string(guild_count as u64, "server", "servers")
}

/// How many guild channels the bot sees.
pub fn get_channel_count_string(channel_count: usize) -> (s: String)
    ensures
        s@ == count_text(channel_count as nat, "channel"@, "channels"@),
{
    count_string(channel_count as u64, "channel", "channels")
}

/// A count reads in the singular exactly when it is one.
pub proof fn lemma_count_word(n: nat, singular: Seq<char>, plural: Seq<char>)
    ensures
        count_text(n, singular, plural) == decimal(n) + " "@ + singular <==> (n == 1 || singular
            == plural),
{
    let a = decimal(n) + " "@;
    if count_text(n, singular, plural) == a + singular && n != 1 {
        assert(count_text(n, singular, plural) == a + plural);
        assert(singular =~= (a + singular).subrange(a.len() as int, (a + singular).len() as int));
        assert(plural =~= (a + plural).subrange(a.len() as int, (a + plural).len() as int));
    }
}

/// The fields of the `/bot` reply.
pub open spec fn bot_fields_spec(
    started_at_unix: int,
    uptime_secs: nat,
    member_total: nat,
    guild_count: nat,
    channel_count: nat,
    version: Seq<char>,
) -> Seq<(Seq<char>, Seq<char>, bool)> {
    seq![
        ("Got online"@, "<t:"@ + decimal_int(started_at_unix) + ":R>"@, true),
        ("Uptime"@, uptime_text(uptime_secs), true),
        (""@, ""@, true),
        ("Users"@, count_text(member_total, "user"@, "users"@), true),
        ("Servers"@, count_text(guild_count, "server"@, "servers"@), true),
        ("Channels"@, count_text(channel_count, "channel"@, "channels"@), true),
        ("Version"@, version, true),
        ("Developer"@, "realZenyth"@, true),
        (""@, ""@, true),
        ("Support Server"@, "https://discord.gg/BayN67CgAx"@, false),
        ("Source Code"@, "https://github.com/AuthenticSamuel/infbot.rs"@, false),
    ]
}

/// The title and fields of the `/bot` reply.
pub fn bot_embed(
    started_at_unix: i64,
    uptime_secs: u64,
    member_counts: &Vec<usize>,
    guild_count: usize,
    channel_count: usize,
    version: &str,
) -> (r: (&'static str, Vec<EmbedField>))
    requires
        total(member_counts@) <= usize::MAX,
    ensures
        r.0@ == "INFBOT Services"@,
        fields_view(r.1@) == bot_fields_spec(
            started_at_unix as int,
            uptime_secs as nat,
            total(member_counts@),
            guild_count as nat,
            channel_count as nat,
            version@,
        ),
{
    let mut f: Vec<EmbedField> = Vec::new();
    f.push(field("Got online", get_relative_online_string(started_at_unix), true));
    f.push(field("Uptime", get_uptime_string(uptime_secs), true));
    f.push(text_field("", "", true));
    f.push(field("Users", get_user_count_string(member_counts), true));
    f.push(field("Servers", get_guild_count_string(guild_count), true));
    f.push(field("Channels", get_channel_count_string(channel_count), true));
    f.push(text_field("Version", version, true));
    f.push(text_field("Developer", "realZenyth", true));
    f.push(text_field("", "", true));
    f.push(text_field("Support Server", "https://discord.gg/BayN67CgAx", false));
    f.push(text_field("Source Code", "https://github.com/AuthenticSamuel/infbot.rs", false));
    assert(fields_view(f@) =~= bot_fields_spec(
        started_at_unix as int,
        uptime_secs as nat,
        total(member_counts@),
        guild_count as nat,
        channel_count as nat,
        version@,
    ));
    ("INFBOT Services", f)
}

/// When a guild was created, in seconds since 1970, as its id tells: Discord
/// ids carry their creation time in milliseconds since 2015 in their upper bits.
pub open spec fn snowflake_unix(id: u64) -> int {
    ((id / 4194304) + 1420070400000) / 1000
}

/// serenity's `GuildId::created_at`, then `Timestamp::unix_timestamp`. serenity
/// builds the timestamp from the milliseconds `(id >> 22) + 1420070400000`, which
/// cannot fail for any id, and the UNIX timestamp is that in whole seconds,
/// rounded down. `GuildId::new` panics on 0, which `requires` leaves out.
#[verifier::external_body]
fn guild_created_at_unix(guild_id: u64) -> (r: i64)
    requires
        guild_id != 0,
    ensures
        r == snowflake_unix(guild_id),
{
    serenity::model::id::GuildId::new(guild_id).created_at().unix_timestamp()
}

/// Which member count the `/server` reply shows: the cached guild's, else the
/// approximate count Discord reports.
pub fn resolve_member_count(cached: Option<u64>, approximate: Option<u64>) -> (r: Option<u64>)
    ensures
        r == match cached {
            Some(n) => Some(n),
            None => approximate,
        },
{
    match cached {
        Some(n) => Some(n),
        None => approximate,
    }
}

/// The fields of the `/server` reply.
pub open spec fn server_fields_spec(owner_id: u64, member_count: Option<u64>, created_unix: int) -> Seq<
    (Seq<char>, Seq<char>, bool),
> {
    seq![
        ("Members"@, match member_count {
            Some(n) => decimal(n as nat),
            None => "unknown"@,
        }, false),
        ("Created"@, "<t:"@ + decimal_int(created_unix) + ":F>\n<t:"@ + decimal_int(created_unix)
            + ":R>"@, false),
        ("Created by"@, "<@"@ + decimal(owner_id as nat) + ">"@, false),
    ]
}

/// The title and fields of the `/server` reply for a guild.
pub fn server_embed(guild_id: u64, name: &str, owner_id: u64, member_count: Option<u64>) -> (r: (
    String,
    Vec<EmbedField>,
))
    requires
        guild_id != 0,
    ensures
        r.0@ == "Server: "@ + name@,
        fields_view(r.1@) == server_fields_spec(owner_id, member_count, snowflake_unix(guild_id)),
{
    let mut title = String::new();
    push_str(&mut title, "Server: ");
    push_str(&mut title, name);
    let mut members = String::new();
    match member_count {
        Some(n) => push_decimal(&mut members, n),
        None => push_str(&mut members, "unknown"),
    }
    let created_unix = guild_created_at_unix(guild_id);
    let mut created = String::new();
    push_str(&mut created, "<t:");
    push_decimal_i64(&mut created, created_unix);
    push_str(&mut created, ":F>\n<t:");
    push_decimal_i64(&mut created, created_unix);
    push_str(&mut created, ":R>");
    let mut owner = String::new();
    push_str(&mut owner, "<@");
    push_decimal(&mut owner, owner_id);
    push_str(&mut owner, ">");
    let mut f: Vec<EmbedField> = Vec::new();
    f.push(field("Members", members, false));
    f.push(field("Created", created, false));
    f.push(field("Created by", owner, false));
    assert(fields_view(f@) =~= server_fields_spec(owner_id, member_count, snowflake_unix(guild_id)));
    (title, f)
}

/// A guild with a larger id was not created earlier.
pub proof fn lemma_creation_time_follows_id(a: u64, b: u64)
    requires
        a <= b,
    ensures
        snowflake_unix(a) <= snowflake_unix(b),
{
    vstd::arithmetic::div_mod::lemma_div_is_ordered(a as int, b as int, 4194304);
    vstd::arithmetic::div_mod::lemma_div_is_ordered(
        (a / 4194304) + 1420070400000,
        (b / 4194304) + 1420070400000,
        1000,
    );
}

/// The owner mention of the `/server` reply names the owner: the text between
/// `<@` and `>` reads back as the owner's id, for every id; likewise the member
/// count shown reads back as the count.
pub proof fn lemma_server_fields_read_back(owner_id: u64, member_count: Option<u64>, created_unix: int)
    ensures
        ({
            let f = server_fields_spec(owner_id, member_count, created_unix);
            let owner = f[2].1;
            &&& f[2].0 == "Created by"@
            &&& owner.len() >= 4
            &&& owner.subrange(0, 2) == "<@"@
            &&& owner.last() == '>'
            &&& parse_unsigned(owner.subrange(2, owner.len() - 1), u64::MAX as nat) == Ok::<
                nat,
                IntErrorKind,
            >(owner_id as nat)
            &&& member_count matches Some(n) ==> parse_unsigned(f[0].1, u64::MAX as nat) == Ok::<
                nat,
                IntErrorKind,
            >(n as nat)
        }),
{
    reveal_strlit("<@");
    reveal_strlit(">");
    let f = server_fields_spec(owner_id, member_count, created_unix);
    let d = decimal(owner_id as nat);
    lemma_decimal_shape(owner_id as nat);
    lemma_parse_decimal_roundtrip(owner_id as nat, u64::MAX as nat);
    let owner = f[2].1;
    assert(owner == "<@"@ + d + ">"@);
    assert(owner.subrange(2, owner.len() - 1) =~= d);
    assert(owner.subrange(0, 2) =~= "<@"@);
    if let Some(n) = member_count {
        lemma_parse_decimal_roundtrip(n as nat, u64::MAX as nat);
    }
}

} // verus!
