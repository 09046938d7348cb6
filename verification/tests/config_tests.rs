use memoria_bootstrapper::config::{
    bundle_url, cached_version_file, global_version_file, global_version_url, install_dir,
    install_root, kind_root, launcher_exe_path, launcher_url, launcher_version_url, state_dir,
    target_exe, version_url, FsPath, Kind,
};

fn path(parts: &[&str]) -> FsPath {
    FsPath::from_parts(parts.iter().map(|p| p.to_string()).collect())
}

fn parts(p: &FsPath) -> Vec<&str> {
    p.parts.iter().map(|s| s.as_str()).collect()
}

#[test]
fn from_scheme_ignores_ascii_case() {
    assert_eq!(Kind::from_scheme("memoria-player"), Some(Kind::Player));
    assert_eq!(Kind::from_scheme("MEMORIA-Player"), Some(Kind::Player));
    assert_eq!(Kind::from_scheme("memoria-studio"), Some(Kind::Studio));
    assert_eq!(Kind::from_scheme("Memoria-Studio"), Some(Kind::Studio));
    assert_eq!(Kind::from_scheme("roblox-player"), None);
    assert_eq!(Kind::from_scheme(""), None);
}

#[test]
fn labels_and_executables() {
    assert_eq!(Kind::Player.label(), "Memoria");
    assert_eq!(Kind::Studio.label(), "Memoria Studio");
    assert_eq!(Kind::Player.exe_name(), "RobloxPlayerBeta.exe");
    assert_eq!(Kind::Studio.exe_name(), "RobloxStudioBeta.exe");
}

#[test]
fn install_layout() {
    let local = path(&["C:\\", "Users", "u", "AppData", "Local"]);
    let root = install_root(&local);
    assert_eq!(parts(&root), vec!["C:\\", "Users", "u", "AppData", "Local", "Memoria"]);
    let r = path(&["R"]);
    assert_eq!(parts(&launcher_exe_path(&r)), vec!["R", "MemoriaPlayerLauncher.exe"]);
    assert_eq!(parts(&kind_root(&r, Kind::Player)), vec!["R", "clients"]);
    assert_eq!(parts(&kind_root(&r, Kind::Studio)), vec!["R", "Studio"]);
    assert_eq!(parts(&install_dir(&r, Kind::Player, "2021")), vec!["R", "clients", "2021"]);
    assert_eq!(
        parts(&target_exe(&r, Kind::Studio, "2018")),
        vec!["R", "Studio", "2018", "RobloxStudioBeta.exe"]
    );
    assert_eq!(parts(&state_dir(&r)), vec!["R", "state"]);
    assert_eq!(
        parts(&cached_version_file(&r, Kind::Player, "2021")),
        vec!["R", "state", "LATEST-2021"]
    );
    assert_eq!(
        parts(&cached_version_file(&r, Kind::Studio, "2021")),
        vec!["R", "state", "LATEST-studio-2021"]
    );
    assert_eq!(parts(&global_version_file(&r)), vec!["R", "state", "GLOBAL-VERSION"]);
}

#[test]
fn cached_version_files_collide_only_through_studio_prefix() {
    let r = path(&["R"]);
    let a = cached_version_file(&r, Kind::Player, "studio-2021");
    let b = cached_version_file(&r, Kind::Studio, "2021");
    assert_eq!(a.parts, b.parts);
    let c = cached_version_file(&r, Kind::Player, "2021");
    assert_ne!(c.parts, b.parts);
}

#[test]
fn server_urls() {
    assert_eq!(
        version_url(Kind::Player, "2021"),
        "https://api.memora.zip/setup/2021/version.txt"
    );
    assert_eq!(
        version_url(Kind::Studio, "2021"),
        "https://api.memora.zip/setup/studio/2021/version.txt"
    );
    assert_eq!(
        bundle_url(Kind::Player, "2021", "version-abc"),
        "https://api.memora.zip/setup/2021/version-abc-client.zip"
    );
    assert_eq!(
        bundle_url(Kind::Studio, "2018", "v1"),
        "https://api.memora.zip/setup/studio/2018/v1-studio.zip"
    );
    assert_eq!(launcher_url(), "https://api.memora.zip/setup/launcher.exe");
    assert_eq!(launcher_version_url(), "https://api.memora.zip/setup/launcher/version.txt");
    assert_eq!(global_version_url(), "https://api.memora.zip/version");
}

#[test]
fn installs_lie_under_their_kind_root() {
    let r = path(&["R"]);
    for kind in [Kind::Player, Kind::Studio] {
        let kr = kind_root(&r, kind);
        let dir = install_dir(&r, kind, "2017");
        let exe = target_exe(&r, kind, "2017");
        assert_eq!(&dir.parts[..kr.parts.len()], &kr.parts[..]);
        assert_eq!(&exe.parts[..dir.parts.len()], &dir.parts[..]);
    }
    assert_ne!(install_dir(&r, Kind::Player, "2017").parts, install_dir(&r, Kind::Studio, "2017").parts);
}
