//! The bootstrap window's state and the texts it shows.
use vstd::prelude::*;
use crate::config::Kind;
use crate::text::opt_view;

verus! {

/// Where the bootstrap is.
#[derive(Debug, Clone, Copy, PartialEq, Eq, Structural)]
pub enum Phase {
    Connecting,
    Configuring,
    Starting,
    Done,
    Idle,
    Failed,
}

/// What the window shows and what the pipeline works on; the progress bar's
/// fraction is kept beside it by the window.
#[derive(Debug)]
pub struct BootstrapState {
    pub phase: Phase,
    pub status: String,
    pub play_url: Option<String>,
    pub local_file: Option<String>,
    pub client: String,
    pub kind: Kind,
    pub install_only: bool,
    pub request_close: bool,
    pub error: Option<String>,
}

pub struct SpecBootstrapState {
    pub phase: Phase,
    pub status: Seq<char>,
    pub play_url: Option<Seq<char>>,
    pub local_file: Option<Seq<char>>,
    pub client: Seq<char>,
    pub kind: Kind,
    pub install_only: bool,
    pub request_close: bool,
    pub error: Option<Seq<char>>,
}

impl View for BootstrapState {
    type V = SpecBootstrapState;

    open spec fn view(&self) -> SpecBootstrapState {
        SpecBootstrapState {
            phase: self.phase,
            status: self.status@,
            play_url: opt_view(self.play_url),
            local_file: opt_view(self.local_file),
            client: self.client@,
            kind: self.kind,
            install_only: self.install_only,
            request_close: self.request_close,
            error: opt_view(self.error),
        }
    }
}

impl BootstrapState {
    /// A bootstrap that is just starting: connecting, with no error.
    pub fn new(
        play_url: Option<String>,
        local_file: Option<String>,
        client: String,
        kind: Kind,
        install_only: bool,
    ) -> (r: BootstrapState)
        ensures
            r@ == (SpecBootstrapState {
                phase: Phase::Connecting,
                status: if install_only {
                    "Getting things ready"@
                } else {
                    "Connecting"@
                },
                play_url: opt_view(play_url),
                local_file: opt_view(local_file),
                client: client@,
                kind,
                install_only,
                request_close: false,
                error: None,
            }),
    {
        let status = if install_only {
            String::from_str("Getting things ready")
        } else {
            String::from_str("Connecting")
        };
        BootstrapState {
            phase: Phase::Connecting,
            status,
            play_url,
            local_file,
            client,
            kind,
            install_only,
            request_close: false,
            error: None,
        }
    }

    /// The bootstrap failed with `message`, which the window shows.
    pub fn fail(&mut self, message: String)
        ensures
            final(self)@ == (SpecBootstrapState {
                phase: Phase::Failed,
                status: message@,
                error: Some(message@),
                ..old(self)@
            }),
    {
        let msg = message.clone();
        self.phase = Phase::Failed;
        self.status = msg;
        self.error = Some(message);
    }
}

/// `Upgrading <label>...`.
pub fn upgrading_message(kind: Kind) -> (r: String)
    ensures
        r@ == "Upgrading "@ + kind.spec_label() + "..."@,
{
    let mut s = String::from_str("Upgrading ");
    s.append(kind.label());
    s.append("...");
    s
}

/// `<label> is ready. Launch from the website to start.`.
pub fn ready_message(kind: Kind) -> (r: String)
    ensures
        r@ == kind.spec_label() + " is ready. Launch from the website to start."@,
{
    let mut s = String::from_str(kind.label());
    s.append(" is ready. Launch from the website to start.");
    s
}

/// `Starting <label>...`.
pub fn starting_message(kind: Kind) -> (r: String)
    ensures
        r@ == "Starting "@ + kind.spec_label() + "..."@,
{
    let mut s = String::from_str("Starting ");
    s.append(kind.label());
    s.append("...");
    s
}

} // verus!
