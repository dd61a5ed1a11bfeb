use infbot::info::{
    bot_embed, embed_colour, get_channel_count_string, get_guild_count_string,
    get_relative_online_string, get_uptime_string, get_user_count_string, resolve_member_count,
    server_embed, EmbedField,
};
use infbot::status::{status_period_secs, status_text};

fn triple(f: &EmbedField) -> (String, String, bool) {
    (f.name.clone(), f.value.clone(), f.inline)
}

#[test]
fn uptime_formatting() {
    assert_eq!(get_uptime_string(0), "00h:00m:00s");
    assert_eq!(get_uptime_string(3661), "01h:01m:01s");
    assert_eq!(get_uptime_string(86399), "23h:59m:59s");
    assert_eq!(get_uptime_string(360000), "100h:00m:00s");
    let secs = 123_456u64;
    let (h, m, s) = (secs / 3600, (secs % 3600) / 60, secs % 60);
    assert_eq!(h * 3600 + m * 60 + s, secs);
    assert_eq!(get_uptime_string(secs), format!("{:02}h:{:02}m:{:02}s", h, m, s));
}

#[test]
fn counts_pluralize() {
    assert_eq!(get_guild_count_string(1), "1 server");
    assert_eq!(get_guild_count_string(0), "0 servers");
    assert_eq!(get_guild_count_string(2), "2 servers");
    assert_eq!(get_channel_count_string(1), "1 channel");
    assert_eq!(get_channel_count_string(12), "12 channels");
    assert_eq!(get_user_count_string(&vec![]), "0 users");
    assert_eq!(get_user_count_string(&vec![1]), "1 user");
    assert_eq!(get_user_count_string(&vec![3, 4, 5]), "12 users");
}

#[test]
fn relative_online() {
    assert_eq!(get_relative_online_string(1700000000), "<t:1700000000:R>");
}

#[test]
fn bot_reply() {
    let (title, fields) = bot_embed(1700000000, 59, &vec![1], 2, 1, "0.1.0");
    assert_eq!(title, "INFBOT Services");
    let got: Vec<_> = fields.iter().map(triple).collect();
    let t = |a: &str, b: &str, c: bool| (a.to_string(), b.to_string(), c);
    assert_eq!(
        got,
        vec![
            t("Got online", "<t:1700000000:R>", true),
            t("Uptime", "00h:00m:59s", true),
            t("", "", true),
            t("Users", "1 user", true),
            t("Servers", "2 servers", true),
            t("Channels", "1 channel", true),
            t("Version", "0.1.0", true),
            t("Developer", "realZenyth", true),
            t("", "", true),
            t("Support Server", "https://discord.gg/BayN67CgAx", false),
            t("Source Code", "https://github.com/AuthenticSamuel/infbot.rs", false),
        ]
    );
    assert_eq!(embed_colour(), 0x818CF8);
}

#[test]
fn server_reply() {
    // The creation time of this id is given in serenity's documentation.
    let (title, fields) = server_embed(175928847299117063, "Guild", 42, Some(5));
    assert_eq!(title, "Server: Guild");
    let got: Vec<_> = fields.iter().map(triple).collect();
    assert_eq!(got[0], ("Members".to_string(), "5".to_string(), false));
    assert_eq!(
        got[1],
        ("Created".to_string(), "<t:1462015105:F>\n<t:1462015105:R>".to_string(), false)
    );
    assert_eq!(got[2], ("Created by".to_string(), "<@42>".to_string(), false));
    let (_, fields) = server_embed(1, "G", 1, None);
    assert_eq!(fields[0].value, "unknown");
    assert_eq!(fields[1].value, "<t:1420070400:F>\n<t:1420070400:R>");
}

#[test]
fn server_member_count_sources() {
    assert_eq!(resolve_member_count(Some(3), Some(9)), Some(3));
    assert_eq!(resolve_member_count(None, Some(9)), Some(9));
    assert_eq!(resolve_member_count(None, None), None);
}

#[test]
fn status_rotation() {
    assert_eq!(status_text(0, 3), "Managing 3 servers");
    assert_eq!(status_text(1, 3), "Watching out for / commands");
    assert_eq!(status_text(2, 3), "Now with more rust \u{1F980}");
    for i in 0..9usize {
        assert_eq!(status_text(i, 7), status_text(i + 3, 7));
    }
    assert_eq!(status_period_secs(), 15);
}

#[test]
fn later_ids_were_created_later() {
    let created = |id: u64| -> i64 {
        let value = server_embed(id, "G", 1, None).1[1].value.clone();
        value["<t:".len()..value.find(":F>").unwrap()].parse().unwrap()
    };
    assert_eq!(created(4194304 * 1000), 1420070401);
    let ids = [1u64, 4194304 * 999, 4194304 * 1000, 175928847299117063, u64::MAX];
    let secs: Vec<i64> = ids.iter().map(|id| created(*id)).collect();
    assert!(secs.windows(2).all(|w| w[0] <= w[1]));
}
