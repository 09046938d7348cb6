//! The launcher's command line and the client command lines it builds.
use vstd::prelude::*;
use crate::config::{BASE_URL, DEFAULT_CLIENT, Kind, spec_from_scheme, studio_file_exts, studio_file_extensions, list_contains};
use crate::text::{
    ascii_lower, ascii_lowercase, chars_of, find, find_chars, index_of, index_of_from,
    lemma_index_of, occurs_at, push_str, seq_eq, slice_chars, string_of, strings_view,
};
use crate::uri::{PlayParams, SpecPlayParams, UriError, parse_play_uri, spec_parse_play_uri};
use crate::text::{opt_str_view, opt_view};

verus! {

/// What the launcher was asked to do.
#[derive(Debug)]
pub struct LaunchInput {
    pub play_url: Option<String>,
    pub local_file: Option<String>,
    pub client: String,
    pub kind: Kind,
    pub install_only: bool,
    pub launch_when_idle: bool,
}

/// The model of `LaunchInput`.
pub struct SpecLaunchInput {
    pub play_url: Option<Seq<char>>,
    pub local_file: Option<Seq<char>>,
    pub client: Seq<char>,
    pub kind: Kind,
    pub install_only: bool,
    pub launch_when_idle: bool,
}

impl View for LaunchInput {
    type V = SpecLaunchInput;

    open spec fn view(&self) -> SpecLaunchInput {
        SpecLaunchInput {
            play_url: opt_view(self.play_url),
            local_file: opt_view(self.local_file),
            client: self.client@,
            kind: self.kind,
            install_only: self.install_only,
            launch_when_idle: self.launch_when_idle,
        }
    }
}

impl LaunchInput {
    /// Installs only: no link is opened and no file either.
    pub fn force_install_only(&mut self)
        ensures
            final(self)@ == (SpecLaunchInput {
                install_only: true,
                play_url: None,
                local_file: None,
                ..old(self)@
            }),
    {
        self.install_only = true;
        self.play_url = None;
        self.local_file = None;
    }
}

/// A file extension that Studio opens, compared without ASCII case.
pub open spec fn spec_is_studio_extension(ext: Seq<char>) -> bool {
    studio_file_exts().contains(ascii_lower(ext))
}

pub fn is_studio_extension(ext: &str) -> (r: bool)
    ensures
        r == spec_is_studio_extension(ext@),
{
    let lc = ascii_lowercase(&chars_of(ext));
    list_contains(&studio_file_extensions(), &lc)
}

/// A path separator on some platform: `/` everywhere, `\` on Windows.
pub open spec fn is_sep(c: char) -> bool {
    c == '/' || c == '\\'
}

/// Where the text after the last separator of `s` begins (0 without one).
pub open spec fn segment_start(s: Seq<char>) -> int
    decreases s.len(),
{
    if s.len() == 0 {
        0
    } else if is_sep(s.last()) {
        s.len() as int
    } else {
        segment_start(s.drop_last())
    }
}

/// The text after the last separator of `s`.
pub open spec fn last_segment(s: Seq<char>) -> Seq<char> {
    s.skip(segment_start(s))
}

/// A path whose file name is its last segment on every platform: it does not
/// begin with two separators (which on Windows start a network, device or
/// verbatim prefix), and its last segment holds no `:` (which can end a drive
/// prefix) and is none of ``, `.` and `..` (which a path's file name never is).
pub open spec fn plain_last_segment(arg: Seq<char>) -> bool {
    let seg = last_segment(arg);
    &&& !(arg.len() >= 2 && is_sep(arg[0]) && is_sep(arg[1]))
    &&& !seg.contains(':')
    &&& seg.len() > 0
    &&& seg != "."@
    &&& seg != ".."@
}

/// The position of the last `.` in `s`.
pub open spec fn last_dot(s: Seq<char>) -> Option<int>
    decreases s.len(),
{
    if s.len() == 0 {
        None
    } else if s.last() == '.' {
        Some(s.len() - 1)
    } else {
        last_dot(s.drop_last())
    }
}

/// The extension of `arg` as a path, wherever no platform reads it otherwise:
/// `Some(Some(e))` when `e` follows the last `.` of a plain last segment that
/// does not begin with that `.`, `Some(None)` when `arg` has no extension, and
/// `None` when the platform's separators decide (a `\` that Unix takes for a
/// character of the file name, a prefix, a trailing separator).
pub open spec fn stated_extension(arg: Seq<char>) -> Option<Option<Seq<char>>> {
    let seg = last_segment(arg);
    if !arg.contains('.') {
        Some(None)
    } else if !plain_last_segment(arg) {
        None
    } else {
        match last_dot(seg) {
            Some(i) => if i > 0 {
                Some(Some(seg.skip(i + 1)))
            } else if !arg.contains('\\') {
                Some(None)
            } else {
                None
            },
            None => if !arg.contains('\\') {
                Some(None)
            } else {
                None
            },
        }
    }
}

/// std's `Path::extension` of `arg`, read as UTF-8 (`OsStr::to_str`).
/// The contract states that an extension holds no `.` and follows a `.` in
/// `arg`, and, as std documents `Path::extension`, `Path::file_name` and
/// `Path::components`, that it is `stated_extension(arg)` wherever that is
/// stated. Where the platform's separators and prefixes decide which
/// component is the file name, which extension comes back is not stated.
#[verifier::external_body]
fn path_extension(arg: &str) -> (r: Option<String>)
    ensures
        r matches Some(e) ==> !e@.contains('.') && exists|i: int|
            occurs_at(arg@, seq!['.'] + e@, i),
        stated_extension(arg@) matches Some(x) ==> opt_view(r) == x,
{
    std::path::Path::new(arg).extension().and_then(|e| e.to_str()).map(|e| e.to_string())
}

/// `arg` names a file with one of Studio's extensions somewhere after a `.`.
pub open spec fn has_studio_extension(arg: Seq<char>) -> bool {
    exists|e: Seq<char>, i: int|
        spec_is_studio_extension(e) && #[trigger] occurs_at(arg, seq!['.'] + e, i)
}

/// Whether `arg` names a file that Studio opens, wherever its extension does
/// not depend on the platform.
pub open spec fn studio_file_stated(arg: Seq<char>) -> Option<bool> {
    match stated_extension(arg) {
        Some(Some(e)) => Some(spec_is_studio_extension(e)),
        Some(None) => Some(false),
        None => None,
    }
}

/// Whether `arg` is a path of a file that Studio opens, judged by its
/// extension: what follows the last `.` of its file name, when that `.` does
/// not begin the name.
pub fn looks_like_studio_file(arg: &str) -> (r: bool)
    ensures
        r ==> has_studio_extension(arg@),
        studio_file_stated(arg@) matches Some(b) ==> r == b,
{
    match path_extension(arg) {
        Some(ext) => {
            let r = is_studio_extension(ext.as_str());
            proof {
                if r {
                    let i = choose|i: int| occurs_at(arg@, seq!['.'] + ext@, i);
                    assert(occurs_at(arg@, seq!['.'] + ext@, i));
                }
            }
            r
        },
        None => false,
    }
}

/// What the command line says so far.
pub struct ArgScan {
    pub play_url: Option<Seq<char>>,
    pub local_file: Option<Seq<char>>,
    pub client: Option<Seq<char>>,
    pub kind: Option<Kind>,
    pub install_only: bool,
    pub launch_when_idle: bool,
}

pub open spec fn empty_scan() -> ArgScan {
    ArgScan {
        play_url: None,
        local_file: None,
        client: None,
        kind: None,
        install_only: false,
        launch_when_idle: false,
    }
}

pub open spec fn kind_or(k: Option<Kind>, d: Kind) -> Option<Kind> {
    match k {
        Some(k) => Some(k),
        None => Some(d),
    }
}

/// The scheme of an argument: what stands before its first `:`.
pub open spec fn arg_scheme(a: Seq<char>) -> Option<Seq<char>> {
    match index_of(a, ':') {
        Some(j) => Some(a.take(j)),
        None => None,
    }
}

/// An argument that is no option: a link of one of the launcher's schemes,
/// else a file that Studio opens (`studio` says whether `a` is one).
pub open spec fn scan_other(st: ArgScan, a: Seq<char>, studio: bool) -> ArgScan {
    let scheme_kind = match arg_scheme(a) {
        Some(s) => spec_from_scheme(s),
        None => None,
    };
    match scheme_kind {
        Some(k) => ArgScan { play_url: Some(a), kind: kind_or(st.kind, k), ..st },
        None => if studio {
            ArgScan { local_file: Some(a), kind: kind_or(st.kind, Kind::Studio), ..st }
        } else {
            st
        },
    }
}

/// The command line from position `i` on, read into `st`; `studio[j]` says
/// whether `args[j]` names a file that Studio opens.
pub open spec fn scan_args(args: Seq<Seq<char>>, studio: Seq<bool>, i: int, st: ArgScan) -> ArgScan
    decreases args.len() - i,
{
    if i < 0 || i >= args.len() {
        st
    } else {
        let a = args[i];
        let has_next = i + 1 < args.len();
        if a == "--play-url"@ {
            if has_next {
                scan_args(args, studio, i + 2, ArgScan { play_url: Some(args[i + 1]), ..st })
            } else {
                st
            }
        } else if a == "--client"@ {
            if has_next {
                scan_args(args, studio, i + 2, ArgScan { client: Some(args[i + 1]), ..st })
            } else {
                st
            }
        } else if a == "--install"@ || a == "--installer"@ {
            scan_args(args, studio, i + 1, ArgScan { install_only: true, ..st })
        } else if a == "--launch"@ {
            scan_args(args, studio, i + 1, ArgScan { launch_when_idle: true, ..st })
        } else if a == "--studio"@ {
            scan_args(args, studio, i + 1, ArgScan { kind: Some(Kind::Studio), ..st })
        } else if a == "--player"@ {
            scan_args(args, studio, i + 1, ArgScan { kind: Some(Kind::Player), ..st })
        } else if a == "--open"@ {
            if has_next {
                scan_args(
                    args,
                    studio,
                    i + 2,
                    ArgScan {
                        local_file: Some(args[i + 1]),
                        kind: kind_or(st.kind, Kind::Studio),
                        ..st
                    },
                )
            } else {
                st
            }
        } else {
            scan_args(args, studio, i + 1, scan_other(st, a, studio[i]))
        }
    }
}

/// The client year: `--client`, else the link's `clientyear`, else
/// `DEFAULT_CLIENT`.
pub open spec fn chosen_client(st: ArgScan) -> Seq<char> {
    match st.client {
        Some(c) => c,
        None => match st.play_url {
            Some(u) => match spec_parse_play_uri(u) {
                Some(p) => match p.clientyear {
                    Some(y) => y,
                    None => DEFAULT_CLIENT@,
                },
                None => DEFAULT_CLIENT@,
            },
            None => DEFAULT_CLIENT@,
        },
    }
}

/// What a command line asks for.
pub open spec fn spec_parse_argv(args: Seq<Seq<char>>, studio: Seq<bool>) -> SpecLaunchInput {
    let st = scan_args(args, studio, 0, empty_scan());
    SpecLaunchInput {
        play_url: st.play_url,
        local_file: st.local_file,
        client: chosen_client(st),
        kind: match st.kind {
            Some(k) => k,
            None => Kind::Player,
        },
        install_only: st.install_only,
        launch_when_idle: st.launch_when_idle,
    }
}

fn is_lit(a: &[char], lit: &str) -> (r: bool)
    ensures
        r == (a@ == lit@),
{
    seq_eq(a, &chars_of(lit))
}

fn kind_or_exec(k: Option<Kind>, d: Kind) -> (r: Option<Kind>)
    ensures
        r == kind_or(k, d),
{
    match k {
        Some(k) => Some(k),
        None => Some(d),
    }
}

fn scheme_kind(a: &[char]) -> (r: Option<Kind>)
    ensures
        r == match arg_scheme(a@) {
            Some(s) => spec_from_scheme(s),
            None => None,
        },
{
    proof {
        lemma_index_of(a@, ':');
    }
    assert(a@.len() == a.len());
    assert(a@.subrange(0, a@.len() as int) =~= a@);
    assert(index_of(a@.subrange(0, a@.len() as int), ':') == index_of(a@, ':'));
    match index_of_from(a, ':', 0) {
        Some(j) => {
            let scheme = string_of(&slice_chars(a, 0, j));
            assert(index_of(a@, ':') == Some(j as int));
            assert(a@.subrange(0, j as int) =~= a@.take(j as int));
            assert(arg_scheme(a@) == Some(scheme@));
            let k = Kind::from_scheme(scheme.as_str());
            assert(k == spec_from_scheme(scheme@));
            k
        },
        None => None,
    }
}

/// Reads a command line, given for each argument whether it names a file that
/// Studio opens.
pub fn parse_argv_classified(args: &[String], studio: &[bool]) -> (r: LaunchInput)
    requires
        studio@.len() == args@.len(),
    ensures
        r@ == spec_parse_argv(strings_view(args@), studio@),
{
    let ghost av = strings_view(args@);
    let mut play_url: Option<String> = None;
    let mut local_file: Option<String> = None;
    let mut client: Option<String> = None;
    let mut kind: Option<Kind> = None;
    let mut install_only = false;
    let mut launch_when_idle = false;
    let n = args.len();
    let mut i: usize = 0;
    while i < n
        invariant
            i <= n,
            n == args@.len(),
            studio@.len() == n,
            av == strings_view(args@),
            scan_args(av, studio@, 0, empty_scan()) == scan_args(
                av,
                studio@,
                i as int,
                ArgScan {
                    play_url: opt_view(play_url),
                    local_file: opt_view(local_file),
                    client: opt_view(client),
                    kind,
                    install_only,
                    launch_when_idle,
                },
            ),
        decreases n - i,
    {
        let a = chars_of(args[i].as_str());
        assert(a@ == av[i as int]);
        let has_next = i + 1 < n;
        if is_lit(&a, "--play-url") {
            if has_next {
                assert(av[i + 1] == args@[i + 1]@);
                play_url = Some(args[i + 1].clone());
                i = i + 2;
            } else {
                i = n;
            }
        } else if is_lit(&a, "--client") {
            if has_next {
                assert(av[i + 1] == args@[i + 1]@);
                client = Some(args[i + 1].clone());
                i = i + 2;
            } else {
                i = n;
            }
        } else if is_lit(&a, "--install") || is_lit(&a, "--installer") {
            install_only = true;
            i = i + 1;
        } else if is_lit(&a, "--launch") {
            launch_when_idle = true;
            i = i + 1;
        } else if is_lit(&a, "--studio") {
            kind = Some(Kind::Studio);
            i = i + 1;
        } else if is_lit(&a, "--player") {
            kind = Some(Kind::Player);
            i = i + 1;
        } else if is_lit(&a, "--open") {
            if has_next {
                assert(av[i + 1] == args@[i + 1]@);
                local_file = Some(args[i + 1].clone());
                kind = kind_or_exec(kind, Kind::Studio);
                i = i + 2;
            } else {
                i = n;
            }
        } else {
            match scheme_kind(&a) {
                Some(k) => {
                    play_url = Some(args[i].clone());
                    kind = kind_or_exec(kind, k);
                },
                None => {
                    if studio[i] {
                        local_file = Some(args[i].clone());
                        kind = kind_or_exec(kind, Kind::Studio);
                    }
                },
            }
            i = i + 1;
        }
    }
    let ghost st = ArgScan {
        play_url: opt_view(play_url),
        local_file: opt_view(local_file),
        client: opt_view(client),
        kind,
        install_only,
        launch_when_idle,
    };
    let chosen = match client {
        Some(c) => c,
        None => {
            let from_link = match &play_url {
                Some(u) => match parse_play_uri(u.as_str()) {
                    Ok(p) => p.clientyear,
                    Err(_) => None,
                },
                None => None,
            };
            match from_link {
                Some(y) => y,
                None => String::from_str(DEFAULT_CLIENT),
            }
        },
    };
    assert(chosen@ == chosen_client(st));
    LaunchInput {
        play_url,
        local_file,
        client: chosen,
        kind: match kind {
            Some(k) => k,
            None => Kind::Player,
        },
        install_only,
        launch_when_idle,
    }
}

/// Reads the launcher's command line. An argument that is neither an option
/// nor a link is a Studio file when its extension is one of Studio's, as
/// `looks_like_studio_file` judges it: `studio` records that judgement, which
/// is fixed wherever the extension does not depend on the platform.
pub fn parse_argv(args: &[String]) -> (r: LaunchInput)
    ensures
        exists|studio: Seq<bool>|
            {
                &&& studio.len() == args@.len()
                &&& forall|j: int|
                    0 <= j < studio.len() ==> {
                        &&& #[trigger] studio[j] ==> has_studio_extension(args@[j]@)
                        &&& studio_file_stated(args@[j]@) matches Some(b) ==> studio[j] == b
                    }
                &&& r@ == spec_parse_argv(strings_view(args@), studio)
            },
{
    let mut studio: Vec<bool> = Vec::new();
    let n = args.len();
    for i in 0..n
        invariant
            n == args@.len(),
            studio@.len() == i,
            forall|j: int|
                0 <= j < i ==> {
                    &&& #[trigger] studio@[j] ==> has_studio_extension(args@[j]@)
                    &&& studio_file_stated(args@[j]@) matches Some(b) ==> studio@[j] == b
                },
    {
        studio.push(looks_like_studio_file(args[i].as_str()));
    }
    let r = parse_argv_classified(args, &studio);
    assert(studio@.len() == args@.len());
    r
}

} // verus!

verus! {

/// The login endpoint every client is pointed at.
pub open spec fn negotiate_url() -> Seq<char> {
    BASE_URL@ + "/Login/Negotiate.ashx"@
}

fn push_negotiate(args: &mut Vec<String>)
    ensures
        strings_view(final(args)@) == strings_view(old(args)@).push(negotiate_url()),
{
    let mut url = String::from_str(BASE_URL);
    url.append("/Login/Negotiate.ashx");
    let ghost before = args@;
    args.push(url);
    assert(strings_view(args@) =~= strings_view(before).push(negotiate_url()));
}

/// `flag` and the value, when there is a value.
pub open spec fn opt_pair(flag: Seq<char>, v: Option<Seq<char>>) -> Seq<Seq<char>> {
    match v {
        Some(x) => seq![flag, x],
        None => Seq::empty(),
    }
}

fn push_opt_pair(args: &mut Vec<String>, flag: &str, v: &Option<String>)
    ensures
        strings_view(final(args)@) == strings_view(old(args)@) + opt_pair(flag@, opt_view(*v)),
{
    match v {
        Some(x) => {
            let ghost before = strings_view(args@);
            push_str(args, flag);
            push_str(args, x.as_str());
            assert(strings_view(args@) =~= before + opt_pair(flag@, opt_view(*v)));
        },
        None => {
            assert(strings_view(args@) =~= strings_view(args@) + opt_pair(flag@, opt_view(*v)));
        },
    }
}

/// The player's command line for a launch link's parameters.
pub open spec fn spec_player_args(p: SpecPlayParams) -> Seq<Seq<char>> {
    seq!["-a"@, negotiate_url()] + opt_pair("-t"@, p.gameinfo) + opt_pair("-j"@, p.placelauncherurl)
        + opt_pair("-b"@, p.launchtime) + opt_pair("--rbxexp"@, p.clientversion) + opt_pair(
        "--launchexp"@,
        p.launchexp,
    ) + opt_pair("--browserTrackerId"@, p.browsertrackerid)
}

pub fn build_player_args(p: &PlayParams) -> (r: Vec<String>)
    ensures
        strings_view(r@) == spec_player_args(p@),
{
    let mut args: Vec<String> = Vec::new();
    push_str(&mut args, "-a");
    push_negotiate(&mut args);
    assert(strings_view(args@) =~= seq!["-a"@, negotiate_url()]);
    push_opt_pair(&mut args, "-t", &p.gameinfo);
    push_opt_pair(&mut args, "-j", &p.placelauncherurl);
    push_opt_pair(&mut args, "-b", &p.launchtime);
    push_opt_pair(&mut args, "--rbxexp", &p.clientversion);
    push_opt_pair(&mut args, "--launchexp", &p.launchexp);
    push_opt_pair(&mut args, "--browserTrackerId", &p.browsertrackerid);
    args
}

/// Studio's task: the link's `task`, else its launch mode, where an empty
/// mode and `edit` mean `EditPlace`.
pub open spec fn studio_task(p: SpecPlayParams) -> Seq<char> {
    match p.task {
        Some(t) => t,
        None => if p.launchmode == ""@ || p.launchmode == "edit"@ {
            "EditPlace"@
        } else {
            p.launchmode
        },
    }
}

/// Studio's command line for a launch link's parameters.
pub open spec fn spec_studio_args(p: SpecPlayParams) -> Seq<Seq<char>> {
    seq!["-a"@, negotiate_url(), "-task"@, studio_task(p)] + opt_pair("-placeId"@, p.place_id)
        + opt_pair("-universeId"@, p.universe_id) + opt_pair("-userId"@, p.user_id) + opt_pair(
        "-script"@,
        p.script,
    )
}

pub fn build_studio_args(p: &PlayParams) -> (r: Vec<String>)
    ensures
        strings_view(r@) == spec_studio_args(p@),
{
    let mut args: Vec<String> = Vec::new();
    push_str(&mut args, "-a");
    push_negotiate(&mut args);
    let task: String = match &p.task {
        Some(t) => t.clone(),
        None => {
            let mode = chars_of(p.launchmode.as_str());
            if is_lit(&mode, "") || is_lit(&mode, "edit") {
                String::from_str("EditPlace")
            } else {
                p.launchmode.clone()
            }
        },
    };
    push_str(&mut args, "-task");
    push_str(&mut args, task.as_str());
    assert(strings_view(args@) =~= seq!["-a"@, negotiate_url(), "-task"@, studio_task(p@)]);
    push_opt_pair(&mut args, "-placeId", &p.place_id);
    push_opt_pair(&mut args, "-universeId", &p.universe_id);
    push_opt_pair(&mut args, "-userId", &p.user_id);
    push_opt_pair(&mut args, "-script", &p.script);
    args
}

/// The client's command line for a launch: the local file alone, else the
/// command line for the link, else (asked to launch anyway) a bare login;
/// `None` when there is nothing to launch.
pub open spec fn spec_launch_args(
    kind: Kind,
    play_url: Option<Seq<char>>,
    local_file: Option<Seq<char>>,
    launch_when_idle: bool,
) -> Result<Option<Seq<Seq<char>>>, UriError> {
    match local_file {
        Some(f) => Ok(Some(seq![f])),
        None => match play_url {
            Some(u) => match spec_parse_play_uri(u) {
                Some(p) => Ok(
                    Some(
                        match kind {
                            Kind::Player => spec_player_args(p),
                            Kind::Studio => spec_studio_args(p),
                        },
                    ),
                ),
                None => Err(UriError::MissingSchemeSeparator),
            },
            None => if launch_when_idle {
                Ok(Some(seq!["-a"@, negotiate_url()]))
            } else {
                Ok(None)
            },
        },
    }
}

pub open spec fn launch_args_view(r: Result<Option<Vec<String>>, UriError>) -> Result<
    Option<Seq<Seq<char>>>,
    UriError,
> {
    match r {
        Ok(Some(v)) => Ok(Some(strings_view(v@))),
        Ok(None) => Ok(None),
        Err(e) => Err(e),
    }
}

pub fn launch_args(
    kind: Kind,
    play_url: Option<&str>,
    local_file: Option<&str>,
    launch_when_idle: bool,
) -> (r: Result<Option<Vec<String>>, UriError>)
    ensures
        launch_args_view(r) == spec_launch_args(
            kind,
            opt_str_view(play_url),
            opt_str_view(local_file),
            launch_when_idle,
        ),
{
    match local_file {
        Some(f) => {
            let mut v: Vec<String> = Vec::new();
            push_str(&mut v, f);
            assert(strings_view(v@) =~= seq![f@]);
            Ok(Some(v))
        },
        None => match play_url {
            Some(u) => match parse_play_uri(u) {
                Ok(p) => Ok(
                    Some(
                        match kind {
                            Kind::Player => build_player_args(&p),
                            Kind::Studio => build_studio_args(&p),
                        },
                    ),
                ),
                Err(e) => Err(e),
            },
            None => if launch_when_idle {
                let mut v: Vec<String> = Vec::new();
                push_str(&mut v, "-a");
                push_negotiate(&mut v);
                assert(strings_view(v@) =~= seq!["-a"@, negotiate_url()]);
                Ok(Some(v))
            } else {
                Ok(None)
            },
        },
    }
}

/// A launcher executable named so is the Studio bootstrapper, which must not
/// replace the shared player launcher with itself.
pub open spec fn spec_is_studio_bootstrapper(exe_file_name: Seq<char>) -> bool {
    find(ascii_lower(exe_file_name), "studiolauncher"@) is Some
}

pub fn is_studio_bootstrapper(exe_file_name: &str) -> (r: bool)
    ensures
        r == spec_is_studio_bootstrapper(exe_file_name@),
{
    let lc = ascii_lowercase(&chars_of(exe_file_name));
    find_chars(&lc, &chars_of("studiolauncher")).is_some()
}

} // verus!

verus! {

/// The window's title: the installer's, else the client's label.
pub fn window_title(input: &LaunchInput) -> (r: String)
    ensures
        r@ == if input.install_only {
            "Memoria Installer"@
        } else {
            input.kind.spec_label()
        },
{
    if input.install_only {
        String::from_str("Memoria Installer")
    } else {
        String::from_str(input.kind.label())
    }
}

/// A link for the player is opened by one client at a time: a second
/// launch is refused while one of the launcher's clients runs.
pub open spec fn spec_wants_single_instance(input: SpecLaunchInput) -> bool {
    !input.install_only && input.kind == Kind::Player && input.play_url is Some
}

pub fn wants_single_instance(input: &LaunchInput) -> (r: bool)
    ensures
        r == spec_wants_single_instance(input@),
{
    !input.install_only && input.kind == Kind::Player && input.play_url.is_some()
}

/// The executable name of the player client, compared without ASCII case.
pub open spec fn spec_is_client_exe_name(exe_name: Seq<char>) -> bool {
    ascii_lower(exe_name) == "robloxplayerbeta.exe"@
}

pub fn is_client_exe_name(exe_name: &str) -> (r: bool)
    ensures
        r == spec_is_client_exe_name(exe_name@),
{
    is_lit(&ascii_lowercase(&chars_of(exe_name)), "robloxplayerbeta.exe")
}

/// A process image lies under the install root, compared without ASCII case.
pub open spec fn spec_is_under_root(image_path: Seq<char>, install_root: Seq<char>) -> bool {
    let path = ascii_lower(image_path);
    let root = ascii_lower(install_root);
    root.len() <= path.len() && path.subrange(0, root.len() as int) == root
}

pub fn is_under_root(image_path: &str, install_root: &str) -> (r: bool)
    ensures
        r == spec_is_under_root(image_path@, install_root@),
{
    let path = ascii_lowercase(&chars_of(image_path));
    let root = ascii_lowercase(&chars_of(install_root));
    crate::text::starts_with(&path, &root)
}

/// A running process is one of the launcher's player clients when its
/// executable is the player's and its image lies under the install root.
pub fn is_client_process(exe_name: &str, image_path: &str, install_root: &str) -> (r: bool)
    ensures
        r == (spec_is_client_exe_name(exe_name@) && spec_is_under_root(image_path@, install_root@)),
{
    is_client_exe_name(exe_name) && is_under_root(image_path, install_root)
}

} // verus!

verus! {

/// An argument that holds `:` is none of the launcher's options.
proof fn lemma_link_is_no_option(u: Seq<char>)
    requires
        index_of(u, ':') is Some,
    ensures
        u != "--play-url"@,
        u != "--client"@,
        u != "--install"@,
        u != "--installer"@,
        u != "--launch"@,
        u != "--studio"@,
        u != "--player"@,
        u != "--open"@,
{
    lemma_index_of(u, ':');
    let j = index_of(u, ':').unwrap();
    reveal_strlit("--play-url");
    reveal_strlit("--client");
    reveal_strlit("--install");
    reveal_strlit("--installer");
    reveal_strlit("--launch");
    reveal_strlit("--studio");
    reveal_strlit("--player");
    reveal_strlit("--open");
    assert(forall|k: int| 0 <= k < "--play-url"@.len() ==> "--play-url"@[k] != ':');
    assert(forall|k: int| 0 <= k < "--client"@.len() ==> "--client"@[k] != ':');
    assert(forall|k: int| 0 <= k < "--install"@.len() ==> "--install"@[k] != ':');
    assert(forall|k: int| 0 <= k < "--installer"@.len() ==> "--installer"@[k] != ':');
    assert(forall|k: int| 0 <= k < "--launch"@.len() ==> "--launch"@[k] != ':');
    assert(forall|k: int| 0 <= k < "--studio"@.len() ==> "--studio"@[k] != ':');
    assert(forall|k: int| 0 <= k < "--player"@.len() ==> "--player"@[k] != ':');
    assert(forall|k: int| 0 <= k < "--open"@.len() ==> "--open"@[k] != ':');
    assert(u[j] == ':');
}

/// A link of one of the launcher's schemes, alone on the command line, is
/// opened by the client of its scheme, for the client year that the link
/// names, else the default one.
pub proof fn law_link_opens_its_kind(u: Seq<char>, studio: Seq<bool>, k: Kind)
    requires
        studio.len() == 1,
        arg_scheme(u) matches Some(s) && spec_from_scheme(s) == Some(k),
    ensures
        spec_parse_argv(seq![u], studio) == (SpecLaunchInput {
            play_url: Some(u),
            local_file: None,
            client: match spec_parse_play_uri(u) {
                Some(p) => match p.clientyear {
                    Some(y) => y,
                    None => DEFAULT_CLIENT@,
                },
                None => DEFAULT_CLIENT@,
            },
            kind: k,
            install_only: false,
            launch_when_idle: false,
        }),
{
    lemma_link_is_no_option(u);
    let args = seq![u];
    assert(args[0] == u);
    assert(scan_args(args, studio, 1, scan_other(empty_scan(), u, studio[0])) == scan_other(
        empty_scan(),
        u,
        studio[0],
    ));
}

/// An argument that holds `.` is none of the launcher's options.
proof fn lemma_dotted_is_no_option(u: Seq<char>)
    requires
        u.contains('.'),
    ensures
        u != "--play-url"@,
        u != "--client"@,
        u != "--install"@,
        u != "--installer"@,
        u != "--launch"@,
        u != "--studio"@,
        u != "--player"@,
        u != "--open"@,
{
    let j = choose|j: int| 0 <= j < u.len() && u[j] == '.';
    reveal_strlit("--play-url");
    reveal_strlit("--client");
    reveal_strlit("--install");
    reveal_strlit("--installer");
    reveal_strlit("--launch");
    reveal_strlit("--studio");
    reveal_strlit("--player");
    reveal_strlit("--open");
    assert(forall|k: int| 0 <= k < "--play-url"@.len() ==> "--play-url"@[k] != '.');
    assert(forall|k: int| 0 <= k < "--client"@.len() ==> "--client"@[k] != '.');
    assert(forall|k: int| 0 <= k < "--install"@.len() ==> "--install"@[k] != '.');
    assert(forall|k: int| 0 <= k < "--installer"@.len() ==> "--installer"@[k] != '.');
    assert(forall|k: int| 0 <= k < "--launch"@.len() ==> "--launch"@[k] != '.');
    assert(forall|k: int| 0 <= k < "--studio"@.len() ==> "--studio"@[k] != '.');
    assert(forall|k: int| 0 <= k < "--player"@.len() ==> "--player"@[k] != '.');
    assert(forall|k: int| 0 <= k < "--open"@.len() ==> "--open"@[k] != '.');
}

/// A file that Studio opens, alone on the command line and classified as
/// `parse_argv` classifies it, is opened in Studio for the default client
/// year, unless it reads as a link of one of the launcher's schemes.
pub proof fn law_studio_file_opens_studio(f: Seq<char>, studio: Seq<bool>)
    requires
        studio.len() == 1,
        studio_file_stated(f) matches Some(b) ==> studio[0] == b,
        studio_file_stated(f) == Some(true),
        arg_scheme(f) matches Some(s) ==> spec_from_scheme(s) is None,
    ensures
        spec_parse_argv(seq![f], studio) == (SpecLaunchInput {
            play_url: None,
            local_file: Some(f),
            client: DEFAULT_CLIENT@,
            kind: Kind::Studio,
            install_only: false,
            launch_when_idle: false,
        }),
{
    assert(f.contains('.'));
    lemma_dotted_is_no_option(f);
    let args = seq![f];
    assert(args[0] == f);
    assert(scan_args(args, studio, 1, scan_other(empty_scan(), f, studio[0])) == scan_other(
        empty_scan(),
        f,
        studio[0],
    ));
}

/// The client year given with `--client` wins over the one a link names.
pub proof fn law_client_flag_wins(c: Seq<char>, u: Seq<char>, studio: Seq<bool>, k: Kind)
    requires
        studio.len() == 3,
        arg_scheme(u) matches Some(s) && spec_from_scheme(s) == Some(k),
    ensures
        spec_parse_argv(seq!["--client"@, c, u], studio) == (SpecLaunchInput {
            play_url: Some(u),
            local_file: None,
            client: c,
            kind: k,
            install_only: false,
            launch_when_idle: false,
        }),
{
    lemma_link_is_no_option(u);
    let args = seq!["--client"@, c, u];
    reveal_strlit("--client");
    reveal_strlit("--play-url");
    assert("--client"@ != "--play-url"@) by {
        assert("--client"@.len() != "--play-url"@.len());
    }
    assert(args[0] == "--client"@);
    assert(args[1] == c);
    assert(args[2] == u);
    let st1 = ArgScan { client: Some(c), ..empty_scan() };
    assert(scan_args(args, studio, 0, empty_scan()) == scan_args(args, studio, 2, st1));
    assert(scan_args(args, studio, 3, scan_other(st1, u, studio[2])) == scan_other(
        st1,
        u,
        studio[2],
    ));
}

/// With `--launch` and nothing to open, the client starts anyway, logged in,
/// whichever client it is; without it nothing is launched.
pub proof fn law_launch_when_idle(kind: Kind)
    ensures
        spec_launch_args(kind, None, None, true) == Ok::<Option<Seq<Seq<char>>>, UriError>(
            Some(seq!["-a"@, negotiate_url()]),
        ),
        spec_launch_args(kind, None, None, false) == Ok::<Option<Seq<Seq<char>>>, UriError>(
            None,
        ),
{
}

/// A local file is opened as the only argument, whatever link comes with it.
pub proof fn law_local_file_wins(
    kind: Kind,
    play_url: Option<Seq<char>>,
    file: Seq<char>,
    launch_when_idle: bool,
)
    ensures
        spec_launch_args(kind, play_url, Some(file), launch_when_idle) == Ok::<
            Option<Seq<Seq<char>>>,
            UriError,
        >(Some(seq![file])),
{
}

} // verus!

verus! {

/// Lower-casing ASCII twice is lower-casing once.
proof fn lemma_ascii_lower_idempotent(s: Seq<char>)
    ensures
        ascii_lower(ascii_lower(s)) == ascii_lower(s),
{
    assert(ascii_lower(ascii_lower(s)) =~= ascii_lower(s));
}

/// Recognizing a process under the install root ignores ASCII case on both
/// sides: lower-casing the image path or the root changes nothing, a path
/// that is the root followed by anything, in any mix of ASCII case, lies
/// under the root, and a path lies under it only so.
pub proof fn law_under_root_ignores_case(image: Seq<char>, root: Seq<char>, suffix: Seq<char>)
    ensures
        spec_is_under_root(image, root) == spec_is_under_root(ascii_lower(image), ascii_lower(root)),
        spec_is_under_root(image, root) == spec_is_under_root(image, ascii_lower(root)),
        spec_is_under_root(image, root) == spec_is_under_root(ascii_lower(image), root),
        ascii_lower(image) == ascii_lower(root + suffix) ==> spec_is_under_root(image, root),
        spec_is_under_root(image, root) ==> exists|rest: Seq<char>|
            ascii_lower(image) == #[trigger] (ascii_lower(root) + rest),
{
    lemma_ascii_lower_idempotent(image);
    lemma_ascii_lower_idempotent(root);
    assert(ascii_lower(root + suffix) =~= ascii_lower(root) + ascii_lower(suffix));
    if ascii_lower(image) == ascii_lower(root + suffix) {
        assert(ascii_lower(image).subrange(0, ascii_lower(root).len() as int) =~= ascii_lower(root));
    }
    if spec_is_under_root(image, root) {
        let p = ascii_lower(image);
        let r = ascii_lower(root);
        let rest = p.skip(r.len() as int);
        assert(p =~= r + rest);
    }
}

} // verus!
