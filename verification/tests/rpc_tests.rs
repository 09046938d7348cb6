use memoria_bootstrapper::config::Kind;
use memoria_bootstrapper::rpc::{
    describe, extract_json_string, find_place_id, place_name_from_body, watcher_flag, watcher_kind,
};

fn args(a: &[&str]) -> Vec<String> {
    a.iter().map(|s| s.to_string()).collect()
}

#[test]
fn watcher_flags_round_trip() {
    for kind in [Kind::Player, Kind::Studio] {
        assert_eq!(watcher_kind(watcher_flag(kind)), Some(kind));
    }
    assert_eq!(watcher_flag(Kind::Player), "--rpc-play");
    assert_eq!(watcher_flag(Kind::Studio), "--rpc-studio");
    assert_eq!(watcher_kind("--play-url"), None);
}

#[test]
fn presence_texts() {
    assert_eq!(
        describe(Kind::Player, Some("Crossroads".to_string())),
        ("Crossroads".to_string(), "Playing on Memoria".to_string())
    );
    assert_eq!(
        describe(Kind::Player, None),
        ("Playing Memoria".to_string(), "Playing on Memoria".to_string())
    );
    assert_eq!(
        describe(Kind::Studio, Some("Crossroads".to_string())),
        ("Memoria Studio".to_string(), "Editing Crossroads".to_string())
    );
    assert_eq!(
        describe(Kind::Studio, None),
        ("Memoria Studio".to_string(), "In the editor".to_string())
    );
}

#[test]
fn place_id_after_flag() {
    assert_eq!(find_place_id(&args(&["-task", "EditPlace", "-placeId", "1818"])), Some("1818".to_string()));
    assert_eq!(find_place_id(&args(&["-PLACEID", "12a", "x"])), None);
    assert_eq!(find_place_id(&args(&["-placeid"])), None);
    assert_eq!(find_place_id(&args(&["-placeid", ""])), None);
}

#[test]
fn place_id_inside_url() {
    assert_eq!(
        find_place_id(&args(&["-j", "https://a/PlaceLauncher.ashx?request=RequestGame&PlaceId=1818&x=1"])),
        Some("1818".to_string())
    );
    assert_eq!(find_place_id(&args(&["placeid=abc", "placeid=5"])), Some("5".to_string()));
    assert_eq!(find_place_id(&args(&[])), None);
}

#[test]
fn json_strings() {
    assert_eq!(extract_json_string(r#"{"id":1,"name":"Crossroads"}"#, "name"), Some("Crossroads".to_string()));
    assert_eq!(extract_json_string(r#"{"name":"a\"b\\c\/d"}"#, "name"), Some("a\"b\\c/d".to_string()));
    assert_eq!(extract_json_string(r#"{"name":"x\ny\tz"}"#, "name"), Some("x y z".to_string()));
    assert_eq!(extract_json_string(r#"{"name":"\u0041\u00e9"}"#, "name"), Some("A\u{e9}".to_string()));
    assert_eq!(extract_json_string(r#"{"name":"\ud83d!"}"#, "name"), Some("!".to_string()));
    assert_eq!(extract_json_string(r#"{"name":"\u+041x"}"#, "name"), Some("Ax".to_string()));
    assert_eq!(extract_json_string(r#"{"name":"\u+41x"}"#, "name"), Some("".to_string()));
    assert_eq!(extract_json_string(r#"{"name":"unterminated"#, "name"), None);
    assert_eq!(extract_json_string(r#"{"name":"trailing\"#, "name"), None);
    assert_eq!(extract_json_string(r#"{"title":"x"}"#, "name"), None);
    assert_eq!(extract_json_string(r#"{"name": "spaced"}"#, "name"), None);
}

#[test]
fn place_names() {
    assert_eq!(place_name_from_body(r#"{"name":"  Crossroads  "}"#), Some("Crossroads".to_string()));
    assert_eq!(place_name_from_body(r#"{"name":" x "}"#), None);
    assert_eq!(place_name_from_body(r#"{"name":"\u00e9"}"#), Some("\u{e9}".to_string()));
    assert_eq!(place_name_from_body(r#"{"other":"x"}"#), None);
    let long = "n".repeat(150);
    let body = format!("{{\"name\":\"{}\"}}", long);
    assert_eq!(place_name_from_body(&body), Some("n".repeat(100)));
}

#[test]
fn studio_command_line_carries_place_id() {
    let p = memoria_bootstrapper::uri::parse_play_uri("memoria-studio:task:EditPlace+placeId:4242+universeId:7").unwrap();
    assert_eq!(find_place_id(&memoria_bootstrapper::launcher::build_studio_args(&p)), Some("4242".to_string()));
    let p = memoria_bootstrapper::uri::parse_play_uri("memoria-player:placelauncherurl:https%3A%2F%2Fx%2FPlaceLauncher.ashx%3FplaceId%3D99").unwrap();
    let args = memoria_bootstrapper::launcher::build_player_args(&p);
    assert_eq!(find_place_id(&args), Some("99".to_string()));
}
