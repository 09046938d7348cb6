use memoria_bootstrapper::config::Kind;
use memoria_bootstrapper::registry::{file_association_registrations, url_scheme_registrations, RegistryOp};
use memoria_bootstrapper::status::{ready_message, starting_message, upgrading_message, BootstrapState, Phase};

fn set(key: &str, name: &str, data: &str) -> (String, String, String) {
    (key.to_string(), name.to_string(), data.to_string())
}

fn sets(ops: &[RegistryOp]) -> Vec<(String, String, String)> {
    ops.iter()
        .map(|o| match o {
            RegistryOp::SetValue { key, name, data } => (key.clone(), name.clone(), data.clone()),
            RegistryOp::DeleteTree { key } => (key.clone(), "<delete>".to_string(), String::new()),
        })
        .collect()
}

#[test]
fn url_schemes() {
    let l = "C:\\M\\MemoriaPlayerLauncher.exe";
    let ops = url_scheme_registrations(l);
    let mut want = Vec::new();
    for scheme in ["memoria-player", "memoria-studio"] {
        let base = format!("Software\\Classes\\{scheme}");
        want.push(set(&base, "", "URL:Memoria Protocol"));
        want.push(set(&base, "URL Protocol", ""));
        want.push(set(&format!("{base}\\DefaultIcon"), "", &format!("\"{l}\",0")));
        want.push(set(&format!("{base}\\shell\\open\\command"), "", &format!("\"{l}\" \"%1\"")));
    }
    assert_eq!(sets(&ops), want);
}

#[test]
fn file_associations() {
    let l = "L.exe";
    let ops = file_association_registrations(l);
    let base = "Software\\Classes\\Memoria.StudioFile";
    let want = vec![
        set(base, "", "Memoria Studio File"),
        set(base, "FriendlyTypeName", "Memoria Studio File"),
        set("Software\\Classes\\Memoria.StudioFile\\DefaultIcon", "", "\"L.exe\",0"),
        set("Software\\Classes\\Memoria.StudioFile\\shell\\open\\command", "", "\"L.exe\" \"%1\""),
        set("Software\\Classes\\.memoriarbxm", "", "Memoria.StudioFile"),
        set("Software\\Classes\\.memoriarbxm\\OpenWithProgids", "Memoria.StudioFile", ""),
    ];
    assert_eq!(sets(&ops), want);
}

#[test]
fn bootstrap_state() {
    let s = BootstrapState::new(Some("u".to_string()), None, "2021".to_string(), Kind::Player, false);
    assert_eq!(s.phase, Phase::Connecting);
    assert_eq!(s.status, "Connecting");
    assert!(!s.request_close);
    assert!(s.error.is_none());
    let mut s = BootstrapState::new(None, None, "2021".to_string(), Kind::Studio, true);
    assert_eq!(s.status, "Getting things ready");
    s.fail("Launch failed: boom".to_string());
    assert_eq!(s.phase, Phase::Failed);
    assert_eq!(s.status, "Launch failed: boom");
    assert_eq!(s.error.as_deref(), Some("Launch failed: boom"));
    assert_eq!(s.kind, Kind::Studio);
}

#[test]
fn messages() {
    assert_eq!(upgrading_message(Kind::Player), "Upgrading Memoria...");
    assert_eq!(upgrading_message(Kind::Studio), "Upgrading Memoria Studio...");
    assert_eq!(ready_message(Kind::Studio), "Memoria Studio is ready. Launch from the website to start.");
    assert_eq!(starting_message(Kind::Player), "Starting Memoria...");
}
