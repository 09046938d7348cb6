use memoria_bootstrapper::uri::{decode_value, parse_play_uri, PlayParams, UriError};

#[test]
fn parses_player_link() {
    let p = parse_play_uri(
        "memoria-player:1+launchmode:play+gameinfo:TICKET+launchtime:1700000000+placelauncherurl:https%3A%2F%2Fapi.memora.zip%2FGame%2FPlaceLauncher.ashx%3FplaceId%3D1818+clientyear:2018+browsertrackerid:42",
    )
    .unwrap();
    assert_eq!(p.launchmode, "play");
    assert_eq!(p.gameinfo.as_deref(), Some("TICKET"));
    assert_eq!(p.launchtime.as_deref(), Some("1700000000"));
    assert_eq!(
        p.placelauncherurl.as_deref(),
        Some("https://api.memora.zip/Game/PlaceLauncher.ashx?placeId=1818")
    );
    assert_eq!(p.clientyear.as_deref(), Some("2018"));
    assert_eq!(p.browsertrackerid.as_deref(), Some("42"));
    assert_eq!(p.clientversion, None);
}

#[test]
fn missing_separator_is_refused() {
    assert_eq!(parse_play_uri("memoria-player").unwrap_err(), UriError::MissingSchemeSeparator);
}

#[test]
fn skips_empty_and_keyless_tokens() {
    let p = parse_play_uri("memoria-studio:++task+task:EditPlace++placeId:77+unknown:x").unwrap();
    assert_eq!(p.task.as_deref(), Some("EditPlace"));
    assert_eq!(p.place_id.as_deref(), Some("77"));
    assert_eq!(p.launchmode, "");
}

#[test]
fn later_tokens_win_and_aliases() {
    let p = parse_play_uri("x:launchmode:a+1:b+placeid:1+placeId:2+userid:u+universeId:9").unwrap();
    assert_eq!(p.launchmode, "b");
    assert_eq!(p.place_id.as_deref(), Some("2"));
    assert_eq!(p.user_id.as_deref(), Some("u"));
    assert_eq!(p.universe_id.as_deref(), Some("9"));
}

#[test]
fn value_keeps_colons_after_the_first() {
    let p = parse_play_uri("memoria-player:placelauncherurl:https://a/b").unwrap();
    assert_eq!(p.placelauncherurl.as_deref(), Some("https://a/b"));
}

#[test]
fn percent_decoding() {
    assert_eq!(decode_value("a%20b"), "a b");
    assert_eq!(decode_value("%E2%9C%93"), "\u{2713}");
    assert_eq!(decode_value("100%"), "100%");
    assert_eq!(decode_value("%zz"), "%zz");
    assert_eq!(decode_value("%ff"), "\u{fffd}");
    assert_eq!(decode_value("plain"), "plain");
    assert_eq!(decode_value("100%25"), "100%");
    assert_eq!(decode_value("%2541"), "%41");
}

#[test]
fn apply_sets_named_parameter() {
    let mut p = PlayParams::new();
    p.apply("script", "print(1)".to_string());
    p.apply("nothing", "ignored".to_string());
    assert_eq!(p.script.as_deref(), Some("print(1)"));
    let d = PlayParams::default();
    assert_eq!(d.launchmode, "");
    assert!(d.task.is_none());
}
