//! The launch pipeline as a state machine: each step takes what the last
//! action gave and says what app/ does next. Progress is counted in
//! thousandths of the bar.
use vstd::prelude::*;
use crate::config::Kind;
use crate::launcher::{launch_args, spec_launch_args};
use crate::status::{Phase, ready_message, starting_message, upgrading_message};
use crate::text::{opt_view, strings_view};
use crate::uri::UriError;

verus! {

/// Where the pipeline is: which action it waits on.
#[derive(Debug, Clone, Copy, PartialEq, Eq, Structural)]
pub enum Stage {
    Start,
    ShownConnecting,
    AwaitLauncher,
    AwaitSchemes,
    AwaitAssociations,
    AwaitGlobal,
    /// An installer run: the kind's status is shown.
    KindShown(Kind),
    /// An installer run: the kind's version is being resolved.
    KindAwaitVersion(Kind),
    /// An installer run: whether the kind is installed at its version.
    KindAwaitCheck(Kind),
    /// An installer run: the kind is being installed.
    KindAwaitInstall(Kind),
    /// An installer run: the bar was moved past the kind.
    KindProgressSet(Kind),
    ShownInstalled,
    AwaitVersion,
    AwaitInstalledCheck,
    ShownInstalling,
    AwaitInstall,
    ProgressSet,
    ShownReady,
    AwaitExe,
    ShownIdle,
    ShownStarting,
    AwaitLaunch,
    ShownDone,
    Closing,
    Finished,
}

/// What the last action gave.
#[derive(Debug)]
pub enum PipelineEvent {
    /// It succeeded.
    Done,
    /// It failed; the text says why.
    Failed(String),
    /// The version to run was found.
    Resolved(String),
    /// Whether the client is installed at that version.
    InstalledCheck(bool),
}

/// What app/ does next.
#[derive(Debug)]
pub enum PipelineAction {
    /// Shows a phase and a status line, and the bar at `progress` thousandths.
    Show { phase: Phase, status: String, progress: Option<u32> },
    /// Moves the bar to `progress` thousandths.
    SetProgress(u32),
    /// Installs the launcher's own copy: downloaded, or copied from this one.
    InstallLauncher { from_server: bool },
    RegisterUrlSchemes,
    RegisterFileAssociations,
    EnforceGlobalVersion,
    /// Finds the version of the client of `kind` to run.
    ResolveVersion { kind: Kind },
    /// Checks whether the client of `kind` is installed at `version`.
    CheckInstalled { kind: Kind, version: String },
    /// Downloads and installs the client of `kind` at `version`.
    InstallClient { kind: Kind, version: String },
    /// Checks that the client's executable is there.
    CheckExecutable,
    /// Starts the client with `args`.
    Launch { args: Vec<String> },
    /// Closes the window after a moment.
    CloseSoon,
    /// Shows the failure `message`; the pipeline is over.
    Fail { message: String },
    /// Nothing more to do.
    Stop,
}

/// The pipeline for one launch.
#[derive(Debug)]
pub struct Pipeline {
    pub kind: Kind,
    pub client: String,
    pub install_only: bool,
    pub play_url: Option<String>,
    pub local_file: Option<String>,
    pub launch_when_idle: bool,
    pub is_studio_bootstrapper: bool,
    pub stage: Stage,
    pub version: Option<String>,
    pub args: Option<Vec<String>>,
}

pub struct SpecPipeline {
    pub kind: Kind,
    pub client: Seq<char>,
    pub install_only: bool,
    pub play_url: Option<Seq<char>>,
    pub local_file: Option<Seq<char>>,
    pub launch_when_idle: bool,
    pub is_studio_bootstrapper: bool,
    pub stage: Stage,
    pub version: Option<Seq<char>>,
    pub args: Option<Seq<Seq<char>>>,
}

pub open spec fn args_view(a: Option<Vec<String>>) -> Option<Seq<Seq<char>>> {
    match a {
        Some(v) => Some(strings_view(v@)),
        None => None,
    }
}

impl View for Pipeline {
    type V = SpecPipeline;

    open spec fn view(&self) -> SpecPipeline {
        SpecPipeline {
            kind: self.kind,
            client: self.client@,
            install_only: self.install_only,
            play_url: opt_view(self.play_url),
            local_file: opt_view(self.local_file),
            launch_when_idle: self.launch_when_idle,
            is_studio_bootstrapper: self.is_studio_bootstrapper,
            stage: self.stage,
            version: opt_view(self.version),
            args: args_view(self.args),
        }
    }
}

pub enum SpecEvent {
    Done,
    Failed(Seq<char>),
    Resolved(Seq<char>),
    InstalledCheck(bool),
}

impl PipelineEvent {
    pub open spec fn spec(&self) -> SpecEvent {
        match self {
            PipelineEvent::Done => SpecEvent::Done,
            PipelineEvent::Failed(m) => SpecEvent::Failed(m@),
            PipelineEvent::Resolved(v) => SpecEvent::Resolved(v@),
            PipelineEvent::InstalledCheck(b) => SpecEvent::InstalledCheck(*b),
        }
    }
}

pub enum SpecAction {
    Show { phase: Phase, status: Seq<char>, progress: Option<u32> },
    SetProgress(u32),
    InstallLauncher { from_server: bool },
    RegisterUrlSchemes,
    RegisterFileAssociations,
    EnforceGlobalVersion,
    ResolveVersion { kind: Kind },
    CheckInstalled { kind: Kind, version: Seq<char> },
    InstallClient { kind: Kind, version: Seq<char> },
    CheckExecutable,
    Launch { args: Seq<Seq<char>> },
    CloseSoon,
    Fail { message: Seq<char> },
    Stop,
}

impl PipelineAction {
    pub open spec fn spec(&self) -> SpecAction {
        match self {
            PipelineAction::Show { phase, status, progress } => SpecAction::Show {
                phase: *phase,
                status: status@,
                progress: *progress,
            },
            PipelineAction::SetProgress(p) => SpecAction::SetProgress(*p),
            PipelineAction::InstallLauncher { from_server } => SpecAction::InstallLauncher {
                from_server: *from_server,
            },
            PipelineAction::RegisterUrlSchemes => SpecAction::RegisterUrlSchemes,
            PipelineAction::RegisterFileAssociations => SpecAction::RegisterFileAssociations,
            PipelineAction::EnforceGlobalVersion => SpecAction::EnforceGlobalVersion,
            PipelineAction::ResolveVersion { kind } => SpecAction::ResolveVersion { kind: *kind },
            PipelineAction::CheckInstalled { kind, version } => SpecAction::CheckInstalled {
                kind: *kind,
                version: version@,
            },
            PipelineAction::InstallClient { kind, version } => SpecAction::InstallClient {
                kind: *kind,
                version: version@,
            },
            PipelineAction::CheckExecutable => SpecAction::CheckExecutable,
            PipelineAction::Launch { args } => SpecAction::Launch { args: strings_view(args@) },
            PipelineAction::CloseSoon => SpecAction::CloseSoon,
            PipelineAction::Fail { message } => SpecAction::Fail { message: message@ },
            PipelineAction::Stop => SpecAction::Stop,
        }
    }
}

pub open spec fn upgrading(kind: Kind) -> Seq<char> {
    "Upgrading "@ + kind.spec_label() + "..."@
}

pub open spec fn launch_failed(m: Seq<char>) -> Seq<char> {
    "Launch failed: "@ + m
}

/// Why the launch link could not be read, as the failure shows it.
pub open spec fn uri_failure() -> Seq<char> {
    "parsing launch URI: missing scheme separator in URI"@
}

pub open spec fn show(phase: Phase, status: Seq<char>, progress: Option<u32>) -> SpecAction {
    SpecAction::Show { phase, status, progress }
}

pub open spec fn at(p: SpecPipeline, stage: Stage) -> SpecPipeline {
    SpecPipeline { stage, ..p }
}

/// The pipeline fails with `m`: the failure is shown and nothing follows.
pub open spec fn fail(p: SpecPipeline, m: Seq<char>) -> (SpecPipeline, SpecAction) {
    (at(p, Stage::Finished), SpecAction::Fail { message: launch_failed(m) })
}

/// Where the bar stands when an installer run starts on a kind: the player
/// fills its first half, Studio its second.
pub open spec fn kind_from(k: Kind) -> u32 {
    match k {
        Kind::Player => 0,
        Kind::Studio => 500,
    }
}

/// Where the bar stands once an installer run is done with a kind.
pub open spec fn kind_to(k: Kind) -> u32 {
    match k {
        Kind::Player => 500,
        Kind::Studio => 1000,
    }
}

pub open spec fn installed_message() -> Seq<char> {
    "Memoria is installed. You can now play from the website."@
}

/// An installer run starts on kind `k`: its status, the bar at its start.
pub open spec fn begin_kind(p: SpecPipeline, k: Kind) -> (SpecPipeline, SpecAction) {
    (at(p, Stage::KindShown(k)), show(Phase::Configuring, upgrading(k), Some(kind_from(k))))
}

/// An installer run is over.
pub open spec fn installer_done(p: SpecPipeline) -> (SpecPipeline, SpecAction) {
    (at(p, Stage::ShownInstalled), show(Phase::Idle, installed_message(), Some(1000)))
}

/// An installer run is done with kind `k`: the player is followed by Studio.
pub open spec fn kind_finished(p: SpecPipeline, k: Kind) -> (SpecPipeline, SpecAction) {
    match k {
        Kind::Player => begin_kind(p, Kind::Studio),
        Kind::Studio => installer_done(p),
    }
}

/// An installer run could not install kind `k`: without the player the
/// pipeline fails, without Studio the run is over all the same.
pub open spec fn kind_failed(p: SpecPipeline, k: Kind, m: Seq<char>) -> (SpecPipeline, SpecAction) {
    match k {
        Kind::Player => fail(p, m),
        Kind::Studio => installer_done(p),
    }
}

/// After a step that may fail without stopping the pipeline: an installer
/// run installs both kinds, a launch resolves its client's version.
pub open spec fn after_global(p: SpecPipeline) -> (SpecPipeline, SpecAction) {
    if p.install_only {
        begin_kind(p, Kind::Player)
    } else {
        (at(p, Stage::AwaitVersion), SpecAction::ResolveVersion { kind: p.kind })
    }
}

/// Once the executable is there: the client's command line decides.
pub open spec fn after_exe(p: SpecPipeline) -> (SpecPipeline, SpecAction) {
    match spec_launch_args(p.kind, p.play_url, p.local_file, p.launch_when_idle) {
        Err(_) => fail(p, uri_failure()),
        Ok(None) => (at(p, Stage::ShownIdle), show(Phase::Idle, ready_message_spec(p.kind), Some(1000))),
        Ok(Some(args)) => (
            SpecPipeline { stage: Stage::ShownStarting, args: Some(args), ..p },
            show(Phase::Starting, "Starting "@ + p.kind.spec_label() + "..."@, Some(1000)),
        ),
    }
}

pub open spec fn ready_message_spec(kind: Kind) -> Seq<char> {
    kind.spec_label() + " is ready. Launch from the website to start."@
}

/// One step: the next state and action, given what the last action gave.
pub open spec fn spec_step(p: SpecPipeline, e: SpecEvent) -> (SpecPipeline, SpecAction) {
    match p.stage {
        Stage::Start => (
            at(p, Stage::ShownConnecting),
            show(
                Phase::Connecting,
                upgrading(
                    if p.install_only {
                        Kind::Player
                    } else {
                        p.kind
                    },
                ),
                None,
            ),
        ),
        Stage::ShownConnecting => (
            at(p, Stage::AwaitLauncher),
            SpecAction::InstallLauncher { from_server: p.install_only || p.is_studio_bootstrapper },
        ),
        Stage::AwaitLauncher => match e {
            SpecEvent::Failed(m) => fail(p, m),
            _ => (at(p, Stage::AwaitSchemes), SpecAction::RegisterUrlSchemes),
        },
        Stage::AwaitSchemes => (at(p, Stage::AwaitAssociations), SpecAction::RegisterFileAssociations),
        Stage::AwaitAssociations => (at(p, Stage::AwaitGlobal), SpecAction::EnforceGlobalVersion),
        Stage::AwaitGlobal => after_global(p),
        Stage::KindShown(k) => (at(p, Stage::KindAwaitVersion(k)), SpecAction::ResolveVersion { kind: k }),
        Stage::KindAwaitVersion(k) => match e {
            SpecEvent::Failed(m) => kind_failed(p, k, m),
            SpecEvent::Resolved(v) => (
                SpecPipeline { stage: Stage::KindAwaitCheck(k), version: Some(v), ..p },
                SpecAction::CheckInstalled { kind: k, version: v },
            ),
            _ => (p, SpecAction::ResolveVersion { kind: k }),
        },
        Stage::KindAwaitCheck(k) => match p.version {
            Some(v) => match e {
                SpecEvent::InstalledCheck(true) => (
                    at(p, Stage::KindProgressSet(k)),
                    SpecAction::SetProgress(kind_to(k)),
                ),
                SpecEvent::InstalledCheck(false) => (
                    at(p, Stage::KindAwaitInstall(k)),
                    SpecAction::InstallClient { kind: k, version: v },
                ),
                _ => (p, SpecAction::CheckInstalled { kind: k, version: v }),
            },
            None => (at(p, Stage::KindAwaitVersion(k)), SpecAction::ResolveVersion { kind: k }),
        },
        Stage::KindAwaitInstall(k) => match e {
            SpecEvent::Failed(m) => kind_failed(p, k, m),
            _ => (at(p, Stage::KindProgressSet(k)), SpecAction::SetProgress(kind_to(k))),
        },
        Stage::KindProgressSet(k) => kind_finished(p, k),
        Stage::ShownInstalled => (at(p, Stage::Finished), SpecAction::Stop),
        Stage::AwaitVersion => match e {
            SpecEvent::Failed(m) => fail(p, m),
            SpecEvent::Resolved(v) => (
                SpecPipeline { stage: Stage::AwaitInstalledCheck, version: Some(v), ..p },
                SpecAction::CheckInstalled { kind: p.kind, version: v },
            ),
            _ => (p, SpecAction::ResolveVersion { kind: p.kind }),
        },
        Stage::AwaitInstalledCheck => match e {
            SpecEvent::InstalledCheck(true) => (at(p, Stage::ProgressSet), SpecAction::SetProgress(950)),
            SpecEvent::InstalledCheck(false) => (
                at(p, Stage::ShownInstalling),
                show(Phase::Configuring, upgrading(p.kind), Some(0)),
            ),
            _ => match p.version {
                Some(v) => (p, SpecAction::CheckInstalled { kind: p.kind, version: v }),
                None => (at(p, Stage::AwaitVersion), SpecAction::ResolveVersion { kind: p.kind }),
            },
        },
        Stage::ShownInstalling => match p.version {
            Some(v) => (
                at(p, Stage::AwaitInstall),
                SpecAction::InstallClient { kind: p.kind, version: v },
            ),
            None => (at(p, Stage::AwaitVersion), SpecAction::ResolveVersion { kind: p.kind }),
        },
        Stage::AwaitInstall => match e {
            SpecEvent::Failed(m) => fail(p, m),
            _ => (at(p, Stage::ShownReady), show(Phase::Configuring, upgrading(p.kind), Some(970))),
        },
        Stage::ProgressSet => (
            at(p, Stage::ShownReady),
            show(Phase::Configuring, upgrading(p.kind), Some(970)),
        ),
        Stage::ShownReady => (at(p, Stage::AwaitExe), SpecAction::CheckExecutable),
        Stage::AwaitExe => match e {
            SpecEvent::Failed(m) => fail(p, m),
            _ => after_exe(p),
        },
        Stage::ShownIdle => (at(p, Stage::Finished), SpecAction::Stop),
        Stage::ShownStarting => match p.args {
            Some(a) => (at(p, Stage::AwaitLaunch), SpecAction::Launch { args: a }),
            None => after_exe(p),
        },
        Stage::AwaitLaunch => match e {
            SpecEvent::Failed(m) => fail(p, m),
            _ => (at(p, Stage::ShownDone), show(Phase::Done, "Have fun!"@, Some(1000))),
        },
        Stage::ShownDone => (at(p, Stage::Closing), SpecAction::CloseSoon),
        Stage::Closing => (at(p, Stage::Finished), SpecAction::Stop),
        Stage::Finished => (p, SpecAction::Stop),
    }
}

/// What holds in every state the pipeline reaches: a version is known once
/// one was resolved, and the command line is known once it was built from
/// the launch's own link, file and flag; an installer-only run never enters
/// the launch path, and a launch never enters the installer run's steps.
pub open spec fn pipeline_inv(p: SpecPipeline) -> bool {
    let launch_path = p.stage == Stage::AwaitVersion || p.stage == Stage::AwaitInstalledCheck
        || p.stage == Stage::ShownInstalling || p.stage == Stage::AwaitInstall || p.stage
        == Stage::ProgressSet || p.stage == Stage::ShownReady || p.stage == Stage::AwaitExe
        || p.stage == Stage::ShownIdle || p.stage == Stage::ShownStarting || p.stage
        == Stage::AwaitLaunch || p.stage == Stage::ShownDone || p.stage == Stage::Closing;
    let versioned = p.stage == Stage::AwaitInstalledCheck || p.stage == Stage::ShownInstalling
        || p.stage == Stage::AwaitInstall || p.stage == Stage::ProgressSet || p.stage
        == Stage::ShownReady || p.stage == Stage::AwaitExe || p.stage == Stage::ShownIdle
        || p.stage == Stage::ShownStarting || p.stage == Stage::AwaitLaunch || p.stage
        == Stage::ShownDone || p.stage == Stage::Closing;
    let kind_path = p.stage is KindShown || p.stage is KindAwaitVersion || p.stage is KindAwaitCheck
        || p.stage is KindAwaitInstall || p.stage is KindProgressSet || p.stage == Stage::ShownInstalled;
    &&& launch_path ==> !p.install_only
    &&& kind_path ==> p.install_only
    &&& versioned ==> p.version is Some
    &&& (p.stage is KindAwaitCheck || p.stage is KindAwaitInstall) ==> p.version is Some
    &&& (p.stage == Stage::ShownStarting || p.stage == Stage::AwaitLaunch) ==> spec_launch_args(
        p.kind,
        p.play_url,
        p.local_file,
        p.launch_when_idle,
    ) == Ok::<Option<Seq<Seq<char>>>, UriError>(p.args)
        && p.args is Some
}


fn show_exec(phase: Phase, status: String, progress: Option<u32>) -> (r: PipelineAction)
    ensures
        r.spec() == show(phase, status@, progress),
{
    PipelineAction::Show { phase, status, progress }
}

fn kind_range(k: Kind) -> (r: (u32, u32))
    ensures
        r == (kind_from(k), kind_to(k)),
{
    match k {
        Kind::Player => (0, 500),
        Kind::Studio => (500, 1000),
    }
}

fn clone_opt(o: &Option<String>) -> (r: Option<String>)
    ensures
        opt_view(r) == opt_view(*o),
{
    match o {
        Some(s) => Some(s.clone()),
        None => None,
    }
}

fn clone_strings(v: &Vec<String>) -> (r: Vec<String>)
    ensures
        strings_view(r@) == strings_view(v@),
{
    let mut out: Vec<String> = Vec::new();
    let n = v.len();
    for i in 0..n
        invariant
            n == v@.len(),
            out@.len() == i,
            forall|k: int| 0 <= k < i ==> #[trigger] out@[k]@ == v@[k]@,
    {
        out.push(v[i].clone());
    }
    assert(strings_view(out@) =~= strings_view(v@));
    out
}

impl Pipeline {
    /// A pipeline for one launch, about to start.
    pub fn new(
        kind: Kind,
        client: String,
        install_only: bool,
        play_url: Option<String>,
        local_file: Option<String>,
        launch_when_idle: bool,
        is_studio_bootstrapper: bool,
    ) -> (r: Pipeline)
        ensures
            r@ == (SpecPipeline {
                kind,
                client: client@,
                install_only,
                play_url: opt_view(play_url),
                local_file: opt_view(local_file),
                launch_when_idle,
                is_studio_bootstrapper,
                stage: Stage::Start,
                version: None,
                args: None,
            }),
    {
        Pipeline {
            kind,
            client,
            install_only,
            play_url,
            local_file,
            launch_when_idle,
            is_studio_bootstrapper,
            stage: Stage::Start,
            version: None,
            args: None,
        }
    }

    fn goto(&mut self, stage: Stage)
        ensures
            final(self)@ == at(old(self)@, stage),
    {
        self.stage = stage;
    }

    fn fail_with(&mut self, m: &str) -> (r: PipelineAction)
        ensures
            (final(self)@, r.spec()) == fail(old(self)@, m@),
    {
        self.stage = Stage::Finished;
        let mut message = String::from_str("Launch failed: ");
        message.append(m);
        PipelineAction::Fail { message }
    }

    fn begin_kind_exec(&mut self, k: Kind) -> (r: PipelineAction)
        ensures
            (final(self)@, r.spec()) == begin_kind(old(self)@, k),
    {
        self.goto(Stage::KindShown(k));
        show_exec(Phase::Configuring, upgrading_message(k), Some(kind_range(k).0))
    }

    fn installer_done_exec(&mut self) -> (r: PipelineAction)
        ensures
            (final(self)@, r.spec()) == installer_done(old(self)@),
    {
        self.goto(Stage::ShownInstalled);
        show_exec(
            Phase::Idle,
            String::from_str("Memoria is installed. You can now play from the website."),
            Some(1000),
        )
    }

    fn kind_failed_exec(&mut self, k: Kind, m: &str) -> (r: PipelineAction)
        ensures
            (final(self)@, r.spec()) == kind_failed(old(self)@, k, m@),
    {
        match k {
            Kind::Player => self.fail_with(m),
            Kind::Studio => self.installer_done_exec(),
        }
    }

    fn after_exe_exec(&mut self) -> (r: PipelineAction)
        ensures
            (final(self)@, r.spec()) == after_exe(old(self)@),
    {
        match launch_args(
            self.kind,
            match &self.play_url {
                Some(u) => Some(u.as_str()),
                None => None,
            },
            match &self.local_file {
                Some(f) => Some(f.as_str()),
                None => None,
            },
            self.launch_when_idle,
        ) {
            Err(_) => self.fail_with("parsing launch URI: missing scheme separator in URI"),
            Ok(None) => {
                self.goto(Stage::ShownIdle);
                show_exec(Phase::Idle, ready_message(self.kind), Some(1000))
            },
            Ok(Some(args)) => {
                self.stage = Stage::ShownStarting;
                self.args = Some(args);
                show_exec(Phase::Starting, starting_message(self.kind), Some(1000))
            },
        }
    }

    /// One step of an installer run, which installs each kind in turn.
    fn installer_step(&mut self, e: PipelineEvent) -> (r: PipelineAction)
        requires
            old(self).stage is KindShown || old(self).stage is KindAwaitVersion || old(self).stage is KindAwaitCheck
                || old(self).stage is KindAwaitInstall || old(self).stage is KindProgressSet,
        ensures
            (final(self)@, r.spec()) == spec_step(old(self)@, e.spec()),
    {
        match self.stage {
            Stage::KindShown(k) => {
                self.goto(Stage::KindAwaitVersion(k));
                PipelineAction::ResolveVersion { kind: k }
            },
            Stage::KindAwaitVersion(k) => match e {
                PipelineEvent::Failed(m) => self.kind_failed_exec(k, m.as_str()),
                PipelineEvent::Resolved(v) => {
                    self.stage = Stage::KindAwaitCheck(k);
                    self.version = Some(v.clone());
                    PipelineAction::CheckInstalled { kind: k, version: v }
                },
                _ => PipelineAction::ResolveVersion { kind: k },
            },
            Stage::KindAwaitCheck(k) => match clone_opt(&self.version) {
                Some(v) => match e {
                    PipelineEvent::InstalledCheck(true) => {
                        self.goto(Stage::KindProgressSet(k));
                        PipelineAction::SetProgress(kind_range(k).1)
                    },
                    PipelineEvent::InstalledCheck(false) => {
                        self.goto(Stage::KindAwaitInstall(k));
                        PipelineAction::InstallClient { kind: k, version: v }
                    },
                    _ => PipelineAction::CheckInstalled { kind: k, version: v },
                },
                None => {
                    self.goto(Stage::KindAwaitVersion(k));
                    PipelineAction::ResolveVersion { kind: k }
                },
            },
            Stage::KindAwaitInstall(k) => match e {
                PipelineEvent::Failed(m) => self.kind_failed_exec(k, m.as_str()),
                _ => {
                    self.goto(Stage::KindProgressSet(k));
                    PipelineAction::SetProgress(kind_range(k).1)
                },
            },
            Stage::KindProgressSet(k) => match k {
                Kind::Player => self.begin_kind_exec(Kind::Studio),
                Kind::Studio => self.installer_done_exec(),
            },
            // No other stage reaches this function (see `requires`).
            _ => PipelineAction::Stop,
        }
    }

    /// Takes what the last action gave and says what to do next.
    pub fn step(&mut self, e: PipelineEvent) -> (r: PipelineAction)
        ensures
            (final(self)@, r.spec()) == spec_step(old(self)@, e.spec()),
    {
        match self.stage {
            Stage::Start => {
                self.goto(Stage::ShownConnecting);
                let k = if self.install_only {
                    Kind::Player
                } else {
                    self.kind
                };
                show_exec(Phase::Connecting, upgrading_message(k), None)
            },
            Stage::ShownConnecting => {
                self.goto(Stage::AwaitLauncher);
                PipelineAction::InstallLauncher {
                    from_server: self.install_only || self.is_studio_bootstrapper,
                }
            },
            Stage::AwaitLauncher => match e {
                PipelineEvent::Failed(m) => self.fail_with(m.as_str()),
                _ => {
                    self.goto(Stage::AwaitSchemes);
                    PipelineAction::RegisterUrlSchemes
                },
            },
            Stage::AwaitSchemes => {
                self.goto(Stage::AwaitAssociations);
                PipelineAction::RegisterFileAssociations
            },
            Stage::AwaitAssociations => {
                self.goto(Stage::AwaitGlobal);
                PipelineAction::EnforceGlobalVersion
            },
            Stage::AwaitGlobal => {
                if self.install_only {
                    self.begin_kind_exec(Kind::Player)
                } else {
                    self.goto(Stage::AwaitVersion);
                    PipelineAction::ResolveVersion { kind: self.kind }
                }
            },
            Stage::KindShown(_)
            | Stage::KindAwaitVersion(_)
            | Stage::KindAwaitCheck(_)
            | Stage::KindAwaitInstall(_)
            | Stage::KindProgressSet(_) => self.installer_step(e),
            Stage::ShownInstalled => {
                self.goto(Stage::Finished);
                PipelineAction::Stop
            },
            Stage::AwaitVersion => match e {
                PipelineEvent::Failed(m) => self.fail_with(m.as_str()),
                PipelineEvent::Resolved(v) => {
                    self.stage = Stage::AwaitInstalledCheck;
                    self.version = Some(v.clone());
                    PipelineAction::CheckInstalled { kind: self.kind, version: v }
                },
                _ => PipelineAction::ResolveVersion { kind: self.kind },
            },
            Stage::AwaitInstalledCheck => match e {
                PipelineEvent::InstalledCheck(true) => {
                    self.goto(Stage::ProgressSet);
                    PipelineAction::SetProgress(950)
                },
                PipelineEvent::InstalledCheck(false) => {
                    self.goto(Stage::ShownInstalling);
                    show_exec(Phase::Configuring, upgrading_message(self.kind), Some(0))
                },
                _ => match clone_opt(&self.version) {
                    Some(v) => PipelineAction::CheckInstalled { kind: self.kind, version: v },
                    None => {
                        self.goto(Stage::AwaitVersion);
                        PipelineAction::ResolveVersion { kind: self.kind }
                    },
                },
            },
            Stage::ShownInstalling => match clone_opt(&self.version) {
                Some(v) => {
                    self.goto(Stage::AwaitInstall);
                    PipelineAction::InstallClient { kind: self.kind, version: v }
                },
                None => {
                    self.goto(Stage::AwaitVersion);
                    PipelineAction::ResolveVersion { kind: self.kind }
                },
            },
            Stage::AwaitInstall => match e {
                PipelineEvent::Failed(m) => self.fail_with(m.as_str()),
                _ => {
                    self.goto(Stage::ShownReady);
                    show_exec(Phase::Configuring, upgrading_message(self.kind), Some(970))
                },
            },
            Stage::ProgressSet => {
                self.goto(Stage::ShownReady);
                show_exec(Phase::Configuring, upgrading_message(self.kind), Some(970))
            },
            Stage::ShownReady => {
                self.goto(Stage::AwaitExe);
                PipelineAction::CheckExecutable
            },
            Stage::AwaitExe => match e {
                PipelineEvent::Failed(m) => self.fail_with(m.as_str()),
                _ => self.after_exe_exec(),
            },
            Stage::ShownIdle => {
                self.goto(Stage::Finished);
                PipelineAction::Stop
            },
            Stage::ShownStarting => {
                let copy = match &self.args {
                    Some(a) => Some(clone_strings(a)),
                    None => None,
                };
                match copy {
                    Some(a) => {
                        self.goto(Stage::AwaitLaunch);
                        PipelineAction::Launch { args: a }
                    },
                    None => self.after_exe_exec(),
                }
            },
            Stage::AwaitLaunch => match e {
                PipelineEvent::Failed(m) => self.fail_with(m.as_str()),
                _ => {
                    self.goto(Stage::ShownDone);
                    show_exec(Phase::Done, String::from_str("Have fun!"), Some(1000))
                },
            },
            Stage::ShownDone => {
                self.goto(Stage::Closing);
                PipelineAction::CloseSoon
            },
            Stage::Closing => {
                self.goto(Stage::Finished);
                PipelineAction::Stop
            },
            Stage::Finished => PipelineAction::Stop,
        }
    }
}

} // verus!

verus! {

/// A new pipeline satisfies the invariant, and every step keeps it.
pub proof fn law_pipeline_inv(p: SpecPipeline, e: SpecEvent)
    ensures
        p.stage == Stage::Start && p.version is None && p.args is None ==> pipeline_inv(p),
        pipeline_inv(p) ==> pipeline_inv(spec_step(p, e).0),
{
}

/// A client is started only with the command line built for this launch,
/// never by an installer-only run, and only once a version was resolved.
pub proof fn law_launch_only_as_built(p: SpecPipeline, e: SpecEvent)
    requires
        pipeline_inv(p),
    ensures
        spec_step(p, e).1 matches SpecAction::Launch { args } ==> {
            &&& !p.install_only
            &&& p.version is Some
            &&& spec_launch_args(p.kind, p.play_url, p.local_file, p.launch_when_idle)
                == Ok::<Option<Seq<Seq<char>>>, UriError>(Some(args))
        },
{
}

/// The client is started only after the executable check succeeded, which
/// comes only after the client was installed, or found installed, at the
/// resolved version.
pub proof fn law_launch_path_order(p: SpecPipeline, e: SpecEvent)
    requires
        pipeline_inv(p),
    ensures
        ({
            let q = spec_step(p, e).0;
            q.stage != p.stage ==> match q.stage {
                Stage::AwaitLaunch => p.stage == Stage::ShownStarting,
                Stage::ShownStarting => p.stage == Stage::AwaitExe && !(e is Failed),
                Stage::AwaitExe => p.stage == Stage::ShownReady,
                Stage::ShownReady => (p.stage == Stage::AwaitInstall && !(e is Failed)) || p.stage
                    == Stage::ProgressSet,
                Stage::ProgressSet => p.stage == Stage::AwaitInstalledCheck && e
                    == SpecEvent::InstalledCheck(true),
                Stage::AwaitInstall => p.stage == Stage::ShownInstalling,
                Stage::ShownInstalling => p.stage == Stage::AwaitInstalledCheck && e
                    == SpecEvent::InstalledCheck(false),
                Stage::AwaitInstalledCheck => p.stage == Stage::AwaitVersion && e is Resolved,
                _ => true,
            }
        }),
{
}

/// An installer run installs the player, then Studio: it starts on the
/// player, Studio is begun only once the player is installed (or found
/// installed), and a kind is taken as installed only when the check found it
/// so or its install succeeded.
pub proof fn law_installer_order(p: SpecPipeline, e: SpecEvent)
    requires
        pipeline_inv(p),
    ensures
        ({
            let q = spec_step(p, e).0;
            q.stage != p.stage ==> match q.stage {
                Stage::KindShown(k) => (k == Kind::Player && p.stage == Stage::AwaitGlobal) || (k
                    == Kind::Studio && p.stage == Stage::KindProgressSet(Kind::Player)),
                Stage::KindAwaitVersion(k) => p.stage == Stage::KindShown(k) || p.stage
                    == Stage::KindAwaitCheck(k),
                Stage::KindAwaitCheck(k) => p.stage == Stage::KindAwaitVersion(k) && e is Resolved,
                Stage::KindAwaitInstall(k) => p.stage == Stage::KindAwaitCheck(k) && e
                    == SpecEvent::InstalledCheck(false),
                Stage::KindProgressSet(k) => (p.stage == Stage::KindAwaitCheck(k) && e
                    == SpecEvent::InstalledCheck(true)) || (p.stage == Stage::KindAwaitInstall(k)
                    && !(e is Failed)),
                Stage::ShownInstalled => p.stage == Stage::KindProgressSet(Kind::Studio) || ((
                p.stage == Stage::KindAwaitVersion(Kind::Studio) || p.stage
                    == Stage::KindAwaitInstall(Kind::Studio)) && e is Failed),
                _ => true,
            }
        }),
{
}

/// Registering the URL schemes and the file type, and checking the
/// server-wide version, may fail without stopping the pipeline.
pub proof fn law_optional_steps_do_not_stop(p: SpecPipeline, m: Seq<char>)
    requires
        p.stage == Stage::AwaitSchemes || p.stage == Stage::AwaitAssociations || p.stage
            == Stage::AwaitGlobal,
    ensures
        spec_step(p, SpecEvent::Failed(m)) == spec_step(p, SpecEvent::Done),
{
}

/// In an installer run, when Studio cannot be resolved or installed, the run
/// ends as it does with Studio installed: it says that Memoria is installed.
pub proof fn law_studio_failure_is_passed_over(p: SpecPipeline, m: Seq<char>)
    requires
        p.stage == Stage::KindAwaitVersion(Kind::Studio) || p.stage == Stage::KindAwaitInstall(
            Kind::Studio,
        ),
    ensures
        spec_step(p, SpecEvent::Failed(m)) == (
            at(p, Stage::ShownInstalled),
            show(Phase::Idle, installed_message(), Some(1000)),
        ),
        spec_step(at(p, Stage::KindProgressSet(Kind::Studio)), SpecEvent::Done) == (
            at(p, Stage::ShownInstalled),
            show(Phase::Idle, installed_message(), Some(1000)),
        ),
{
}

/// When installing the launcher or a client, resolving the version, finding
/// the executable or starting the client fails, the failure is shown and the
/// pipeline ends: nothing else is done.
pub proof fn law_failure_is_final(p: SpecPipeline, m: Seq<char>, e: SpecEvent)
    ensures
        (p.stage == Stage::AwaitLauncher || p.stage == Stage::KindAwaitVersion(Kind::Player)
            || p.stage == Stage::KindAwaitInstall(Kind::Player) || p.stage == Stage::AwaitVersion
            || p.stage == Stage::AwaitInstall || p.stage == Stage::AwaitExe || p.stage
            == Stage::AwaitLaunch) ==> spec_step(p, SpecEvent::Failed(m)) == (
        at(p, Stage::Finished),
        SpecAction::Fail { message: launch_failed(m) },
        ),
        p.stage == Stage::Finished ==> spec_step(p, e) == (p, SpecAction::Stop),
{
}

} // verus!
