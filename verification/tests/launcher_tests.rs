use memoria_bootstrapper::config::Kind;
use memoria_bootstrapper::launcher::{
    build_player_args, build_studio_args, is_client_process, is_studio_bootstrapper,
    is_studio_extension, launch_args, looks_like_studio_file, parse_argv,
    parse_argv_classified, wants_single_instance, window_title,
};
use memoria_bootstrapper::uri::{parse_play_uri, UriError};

fn args(a: &[&str]) -> Vec<String> {
    a.iter().map(|s| s.to_string()).collect()
}

#[test]
fn empty_command_line() {
    let i = parse_argv(&[]);
    assert_eq!(i.play_url, None);
    assert_eq!(i.local_file, None);
    assert_eq!(i.client, "2021");
    assert_eq!(i.kind, Kind::Player);
    assert!(!i.install_only);
    assert!(!i.launch_when_idle);
}

#[test]
fn link_picks_kind_and_client_year() {
    let i = parse_argv(&args(&["memoria-studio:1+task:EditPlace+clientyear:2018"]));
    assert_eq!(i.play_url.as_deref(), Some("memoria-studio:1+task:EditPlace+clientyear:2018"));
    assert_eq!(i.kind, Kind::Studio);
    assert_eq!(i.client, "2018");
}

#[test]
fn client_flag_wins_over_link() {
    let i = parse_argv(&args(&["--client", "2016", "MEMORIA-PLAYER:1+clientyear:2018"]));
    assert_eq!(i.client, "2016");
    assert_eq!(i.kind, Kind::Player);
}

#[test]
fn explicit_kind_flags() {
    let i = parse_argv(&args(&["--studio", "memoria-player:1"]));
    assert_eq!(i.kind, Kind::Studio);
    let i = parse_argv(&args(&["memoria-studio:1", "--player"]));
    assert_eq!(i.kind, Kind::Player);
}

#[test]
fn options_and_trailing_values() {
    let i = parse_argv(&args(&["--install", "--launch", "--play-url"]));
    assert!(i.install_only);
    assert!(i.launch_when_idle);
    assert_eq!(i.play_url, None);
    let i = parse_argv(&args(&["--installer", "--play-url", "anything", "--client", "2020"]));
    assert!(i.install_only);
    assert_eq!(i.play_url.as_deref(), Some("anything"));
    assert_eq!(i.client, "2020");
}

#[test]
fn open_flag_and_studio_files() {
    let i = parse_argv(&args(&["--open", "C:/places/a.rbxl"]));
    assert_eq!(i.local_file.as_deref(), Some("C:/places/a.rbxl"));
    assert_eq!(i.kind, Kind::Studio);
    let i = parse_argv(&args(&["/home/u/place.MemoriaRBXM"]));
    assert_eq!(i.local_file.as_deref(), Some("/home/u/place.MemoriaRBXM"));
    assert_eq!(i.kind, Kind::Studio);
    let i = parse_argv(&args(&["--player", "place.memoriarbxm"]));
    assert_eq!(i.kind, Kind::Player);
    let i = parse_argv(&args(&["notes.txt"]));
    assert_eq!(i.local_file, None);
}

#[test]
fn classified_command_line() {
    let a = args(&["whatever", "x"]);
    let i = parse_argv_classified(&a, &[true, false]);
    assert_eq!(i.local_file.as_deref(), Some("whatever"));
    assert_eq!(i.kind, Kind::Studio);
}

#[test]
fn studio_file_extensions() {
    assert!(is_studio_extension("memoriarbxm"));
    assert!(is_studio_extension("MemoriaRbxm"));
    assert!(!is_studio_extension("rbxm"));
    assert!(looks_like_studio_file("a.memoriarbxm"));
    assert!(!looks_like_studio_file("memoriarbxm"));
    assert!(!looks_like_studio_file(".memoriarbxm"));
    assert!(looks_like_studio_file("Place.MemoriaRbxm"));
    assert!(!looks_like_studio_file("place.memoriarbxm.bak"));
    assert!(looks_like_studio_file("v1.2.memoriarbxm"));
}

#[test]
fn player_command_line() {
    let p = parse_play_uri(
        "memoria-player:1+gameinfo:T+placelauncherurl:U+launchtime:5+clientversion:V+launchexp:E+browsertrackerid:B",
    )
    .unwrap();
    assert_eq!(
        build_player_args(&p),
        args(&[
            "-a",
            "https://api.memora.zip/Login/Negotiate.ashx",
            "-t",
            "T",
            "-j",
            "U",
            "-b",
            "5",
            "--rbxexp",
            "V",
            "--launchexp",
            "E",
            "--browserTrackerId",
            "B"
        ])
    );
    let p = parse_play_uri("memoria-player:").unwrap();
    assert_eq!(build_player_args(&p), args(&["-a", "https://api.memora.zip/Login/Negotiate.ashx"]));
}

#[test]
fn studio_command_line() {
    let p = parse_play_uri("memoria-studio:placeId:12+universeId:3+userId:4+script:s").unwrap();
    assert_eq!(
        build_studio_args(&p),
        args(&[
            "-a",
            "https://api.memora.zip/Login/Negotiate.ashx",
            "-task",
            "EditPlace",
            "-placeId",
            "12",
            "-universeId",
            "3",
            "-userId",
            "4",
            "-script",
            "s"
        ])
    );
    let p = parse_play_uri("memoria-studio:launchmode:edit").unwrap();
    assert_eq!(build_studio_args(&p)[3], "EditPlace");
    let p = parse_play_uri("memoria-studio:launchmode:StartServer").unwrap();
    assert_eq!(build_studio_args(&p)[3], "StartServer");
    let p = parse_play_uri("memoria-studio:launchmode:play+task:PlaySolo").unwrap();
    assert_eq!(build_studio_args(&p)[3], "PlaySolo");
}

#[test]
fn launch_command_lines() {
    assert_eq!(
        launch_args(Kind::Player, Some("memoria-player:1"), Some("f.memoriarbxm"), false),
        Ok(Some(args(&["f.memoriarbxm"])))
    );
    assert_eq!(
        launch_args(Kind::Studio, None, None, true),
        Ok(Some(args(&["-a", "https://api.memora.zip/Login/Negotiate.ashx"])))
    );
    assert_eq!(launch_args(Kind::Studio, None, None, false), Ok(None));
    assert_eq!(
        launch_args(Kind::Player, None, None, true),
        Ok(Some(args(&["-a", "https://api.memora.zip/Login/Negotiate.ashx"])))
    );
    assert_eq!(launch_args(Kind::Player, None, None, false), Ok(None));
    assert_eq!(launch_args(Kind::Player, Some("nolink"), None, false), Err(UriError::MissingSchemeSeparator));
    assert_eq!(
        launch_args(Kind::Studio, Some("memoria-studio:task:Build"), None, false).unwrap().unwrap()[3],
        "Build"
    );
}

#[test]
fn bootstrapper_names() {
    assert!(is_studio_bootstrapper("MemoriaStudioLauncher.exe"));
    assert!(!is_studio_bootstrapper("MemoriaPlayerLauncher.exe"));
}

#[test]
fn window_titles_and_single_instance() {
    let mut i = parse_argv(&args(&["memoria-player:1"]));
    assert_eq!(window_title(&i), "Memoria");
    assert!(wants_single_instance(&i));
    i.force_install_only();
    assert!(i.install_only);
    assert_eq!(i.play_url, None);
    assert_eq!(window_title(&i), "Memoria Installer");
    assert!(!wants_single_instance(&i));
    let s = parse_argv(&args(&["memoria-studio:1"]));
    assert_eq!(window_title(&s), "Memoria Studio");
    assert!(!wants_single_instance(&s));
}

#[test]
fn client_processes() {
    assert!(is_client_process(
        "RobloxPlayerBeta.exe",
        "C:\\Users\\U\\AppData\\Local\\Memoria\\clients\\2021\\RobloxPlayerBeta.exe",
        "c:\\users\\u\\appdata\\local\\memoria"
    ));
    assert!(!is_client_process(
        "RobloxPlayerBeta.exe",
        "C:\\Program Files\\Roblox\\RobloxPlayerBeta.exe",
        "c:\\users\\u\\appdata\\local\\memoria"
    ));
    assert!(!is_client_process("notepad.exe", "C:\\memoria\\notepad.exe", "c:\\memoria"));
}

#[test]
fn studio_files_by_full_path() {
    assert!(looks_like_studio_file("dir/place.MemoriaRBXM"));
    assert!(looks_like_studio_file("C:\\Users\\u\\Documents\\place.memoriarbxm"));
    assert!(!looks_like_studio_file("place.rbxm"));
    assert!(!looks_like_studio_file("a.memoriarbxm.zip"));
    assert!(!looks_like_studio_file("dir/.memoriarbxm"));
    assert!(!looks_like_studio_file("dir.memoriarbxm/place"));
    let i = parse_argv(&args(&["place.MemoriaRBXM"]));
    assert_eq!(i.local_file.as_deref(), Some("place.MemoriaRBXM"));
    assert_eq!(i.kind, Kind::Studio);
    assert_eq!(i.play_url, None);
    assert_eq!(i.client, "2021");
    assert!(!i.install_only);
    let i = parse_argv(&args(&["C:\\places\\x.memoriarbxm", "memoria-player:1"]));
    assert_eq!(i.kind, Kind::Studio);
    assert_eq!(i.local_file.as_deref(), Some("C:\\places\\x.memoriarbxm"));
    assert_eq!(i.play_url.as_deref(), Some("memoria-player:1"));
}
