use memoria_bootstrapper::config::Kind;
use memoria_bootstrapper::pipeline::{Pipeline, PipelineAction, PipelineEvent, Stage};
use memoria_bootstrapper::status::Phase;

fn new(kind: Kind, install_only: bool, play_url: Option<&str>, local: Option<&str>, idle: bool, studio_boot: bool) -> Pipeline {
    Pipeline::new(
        kind,
        "2021".to_string(),
        install_only,
        play_url.map(|s| s.to_string()),
        local.map(|s| s.to_string()),
        idle,
        studio_boot,
    )
}

fn describe(a: &PipelineAction) -> String {
    match a {
        PipelineAction::Show { phase, status, progress } => format!("show {:?} {} {:?}", phase, status, progress),
        other => format!("{:?}", other),
    }
}

#[test]
fn player_launch_already_installed() {
    let mut p = new(Kind::Player, false, Some("memoria-player:1+gameinfo:T"), None, false, false);
    let mut log = Vec::new();
    let events = vec![
        PipelineEvent::Done,
        PipelineEvent::Done,
        PipelineEvent::Done,
        PipelineEvent::Done,
        PipelineEvent::Done,
        PipelineEvent::Done,
        PipelineEvent::Resolved("v1".to_string()),
        PipelineEvent::InstalledCheck(true),
        PipelineEvent::Done,
        PipelineEvent::Done,
        PipelineEvent::Done,
        PipelineEvent::Done,
        PipelineEvent::Done,
        PipelineEvent::Done,
        PipelineEvent::Done,
    ];
    for e in events {
        log.push(describe(&p.step(e)));
    }
    assert_eq!(
        log,
        vec![
            "show Connecting Upgrading Memoria... None",
            "InstallLauncher { from_server: false }",
            "RegisterUrlSchemes",
            "RegisterFileAssociations",
            "EnforceGlobalVersion",
            "ResolveVersion { kind: Player }",
            "CheckInstalled { kind: Player, version: \"v1\" }",
            "SetProgress(950)",
            "show Configuring Upgrading Memoria... Some(970)",
            "CheckExecutable",
            "show Starting Starting Memoria... Some(1000)",
            "Launch { args: [\"-a\", \"https://api.memora.zip/Login/Negotiate.ashx\", \"-t\", \"T\"] }",
            "show Done Have fun! Some(1000)",
            "CloseSoon",
            "Stop",
        ]
    );
    assert_eq!(p.stage, Stage::Finished);
}

#[test]
fn studio_install_then_idle() {
    let mut p = new(Kind::Studio, false, None, None, false, true);
    let mut acts = Vec::new();
    let events = vec![
        PipelineEvent::Done,
        PipelineEvent::Done,
        PipelineEvent::Done,
        PipelineEvent::Failed("registry".to_string()),
        PipelineEvent::Done,
        PipelineEvent::Failed("offline".to_string()),
        PipelineEvent::Resolved("v2".to_string()),
        PipelineEvent::InstalledCheck(false),
        PipelineEvent::Done,
        PipelineEvent::Done,
        PipelineEvent::Done,
        PipelineEvent::Done,
        PipelineEvent::Done,
    ];
    for e in events {
        acts.push(describe(&p.step(e)));
    }
    assert_eq!(
        acts,
        vec![
            "show Connecting Upgrading Memoria Studio... None",
            "InstallLauncher { from_server: true }",
            "RegisterUrlSchemes",
            "RegisterFileAssociations",
            "EnforceGlobalVersion",
            "ResolveVersion { kind: Studio }",
            "CheckInstalled { kind: Studio, version: \"v2\" }",
            "show Configuring Upgrading Memoria Studio... Some(0)",
            "InstallClient { kind: Studio, version: \"v2\" }",
            "show Configuring Upgrading Memoria Studio... Some(970)",
            "CheckExecutable",
            "show Idle Memoria Studio is ready. Launch from the website to start. Some(1000)",
            "Stop",
        ]
    );
}

fn run_events(p: &mut Pipeline, events: Vec<PipelineEvent>) -> Vec<String> {
    events.into_iter().map(|e| describe(&p.step(e))).collect()
}

fn done(n: usize) -> Vec<PipelineEvent> {
    (0..n).map(|_| PipelineEvent::Done).collect()
}

#[test]
fn installer_run() {
    let mut p = new(Kind::Studio, true, None, None, false, false);
    let mut events = done(6);
    events.extend([
        PipelineEvent::Done,
        PipelineEvent::Resolved("p1".to_string()),
        PipelineEvent::InstalledCheck(false),
        PipelineEvent::Done,
        PipelineEvent::Done,
        PipelineEvent::Done,
        PipelineEvent::Resolved("s1".to_string()),
        PipelineEvent::InstalledCheck(true),
        PipelineEvent::Done,
        PipelineEvent::Done,
    ]);
    assert_eq!(
        run_events(&mut p, events),
        vec![
            "show Connecting Upgrading Memoria... None",
            "InstallLauncher { from_server: true }",
            "RegisterUrlSchemes",
            "RegisterFileAssociations",
            "EnforceGlobalVersion",
            "show Configuring Upgrading Memoria... Some(0)",
            "ResolveVersion { kind: Player }",
            "CheckInstalled { kind: Player, version: \"p1\" }",
            "InstallClient { kind: Player, version: \"p1\" }",
            "SetProgress(500)",
            "show Configuring Upgrading Memoria Studio... Some(500)",
            "ResolveVersion { kind: Studio }",
            "CheckInstalled { kind: Studio, version: \"s1\" }",
            "SetProgress(1000)",
            "show Idle Memoria is installed. You can now play from the website. Some(1000)",
            "Stop",
        ]
    );
    assert_eq!(p.stage, Stage::Finished);
}

#[test]
fn installer_run_passes_over_studio_failure() {
    let mut p = new(Kind::Player, true, None, None, false, false);
    let mut events = done(7);
    events.extend([
        PipelineEvent::Resolved("p1".to_string()),
        PipelineEvent::InstalledCheck(true),
        PipelineEvent::Done,
        PipelineEvent::Done,
        PipelineEvent::Failed("studio unavailable".to_string()),
        PipelineEvent::Done,
    ]);
    let acts = run_events(&mut p, events);
    assert_eq!(
        acts[8..].to_vec(),
        vec![
            "SetProgress(500)",
            "show Configuring Upgrading Memoria Studio... Some(500)",
            "ResolveVersion { kind: Studio }",
            "show Idle Memoria is installed. You can now play from the website. Some(1000)",
            "Stop",
        ]
    );
}

#[test]
fn installer_run_fails_without_the_player() {
    let mut p = new(Kind::Player, true, None, None, false, false);
    let mut events = done(7);
    events.extend([
        PipelineEvent::Resolved("p1".to_string()),
        PipelineEvent::InstalledCheck(false),
        PipelineEvent::Failed("download: timed out".to_string()),
        PipelineEvent::Done,
    ]);
    let acts = run_events(&mut p, events);
    assert_eq!(
        acts[8..].to_vec(),
        vec![
            "InstallClient { kind: Player, version: \"p1\" }",
            "Fail { message: \"Launch failed: download: timed out\" }",
            "Stop",
        ]
    );
}

#[test]
fn launch_when_idle_starts_the_player() {
    let mut p = new(Kind::Player, false, None, None, true, false);
    let mut events = done(6);
    events.extend([PipelineEvent::Resolved("v".to_string()), PipelineEvent::InstalledCheck(true)]);
    events.extend(done(5));
    let acts = run_events(&mut p, events);
    assert_eq!(
        acts[10..].to_vec(),
        vec![
            "show Starting Starting Memoria... Some(1000)",
            "Launch { args: [\"-a\", \"https://api.memora.zip/Login/Negotiate.ashx\"] }",
            "show Done Have fun! Some(1000)",
        ]
    );
}

#[test]
fn failure_ends_the_pipeline() {
    let mut p = new(Kind::Player, false, None, None, false, false);
    p.step(PipelineEvent::Done);
    p.step(PipelineEvent::Done);
    match p.step(PipelineEvent::Failed("copying launcher: denied".to_string())) {
        PipelineAction::Fail { message } => assert_eq!(message, "Launch failed: copying launcher: denied"),
        other => panic!("unexpected {:?}", other),
    }
    assert!(matches!(p.step(PipelineEvent::Done), PipelineAction::Stop));
}

#[test]
fn bad_link_fails_after_install() {
    let mut p = new(Kind::Player, false, Some("nolink"), None, false, false);
    for e in [
        PipelineEvent::Done,
        PipelineEvent::Done,
        PipelineEvent::Done,
        PipelineEvent::Done,
        PipelineEvent::Done,
        PipelineEvent::Done,
        PipelineEvent::Resolved("v".to_string()),
        PipelineEvent::InstalledCheck(true),
        PipelineEvent::Done,
        PipelineEvent::Done,
    ] {
        p.step(e);
    }
    match p.step(PipelineEvent::Done) {
        PipelineAction::Fail { message } => {
            assert_eq!(message, "Launch failed: parsing launch URI: missing scheme separator in URI")
        }
        other => panic!("unexpected {:?}", other),
    }
}

#[test]
fn unexpected_events_repeat_the_request() {
    let mut p = new(Kind::Player, false, None, None, false, false);
    for _ in 0..6 {
        p.step(PipelineEvent::Done);
    }
    assert_eq!(p.stage, Stage::AwaitVersion);
    assert!(matches!(p.step(PipelineEvent::Done), PipelineAction::ResolveVersion { kind: Kind::Player }));
    p.step(PipelineEvent::Resolved("v".to_string()));
    match p.step(PipelineEvent::Done) {
        PipelineAction::CheckInstalled { version, .. } => assert_eq!(version, "v"),
        other => panic!("unexpected {:?}", other),
    }
    let _ = Phase::Idle;
}
