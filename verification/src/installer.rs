//! The installer's decisions: which version strings are believable, which
//! version to install, whether an install is current, when the launcher
//! updates itself and when every install is wiped.
use vstd::prelude::*;
use crate::config::{cached_version_name, LAUNCHER_VERSION, Kind};
use crate::text::{chars_of, seq_eq, starts_with, string_of, trim, trim_chars, opt_view, opt_str_view};

verus! {

/// A character that a version string may hold.
pub open spec fn is_version_char(c: char) -> bool {
    ||| 'a' <= c && c <= 'z'
    ||| 'A' <= c && c <= 'Z'
    ||| '0' <= c && c <= '9'
    ||| c == '.'
    ||| c == '-'
    ||| c == '_'
}

/// A version string as the server may send it: once trimmed, it is not
/// empty, at most 64 long and made of ASCII letters, digits, `.`, `-` and `_`.
pub open spec fn spec_is_plausible_version(s: Seq<char>) -> bool {
    let t = trim(s);
    &&& t.len() > 0
    &&& t.len() <= 64
    &&& forall|i: int| 0 <= i < t.len() ==> is_version_char(#[trigger] t[i])
}

fn is_version_char_exec(c: char) -> (r: bool)
    ensures
        r == is_version_char(c),
{
    ('a' <= c && c <= 'z') || ('A' <= c && c <= 'Z') || ('0' <= c && c <= '9') || c == '.' || c
        == '-' || c == '_'
}

fn all_version_chars(t: &[char]) -> (r: bool)
    ensures
        r == forall|i: int| 0 <= i < t@.len() ==> is_version_char(#[trigger] t@[i]),
{
    let n = t.len();
    for i in 0..n
        invariant
            n == t@.len(),
            forall|k: int| 0 <= k < i ==> is_version_char(#[trigger] t@[k]),
    {
        if !is_version_char_exec(t[i]) {
            return false;
        }
    }
    true
}

pub fn is_plausible_version(s: &str) -> (r: bool)
    ensures
        r == spec_is_plausible_version(s@),
{
    let t = trim_chars(&chars_of(s));
    t.len() > 0 && t.len() <= 64 && all_version_chars(&t)
}

/// The version that a server reply names, if it is believable: the reply,
/// trimmed.
pub open spec fn spec_checked_remote_version(body: Seq<char>) -> Option<Seq<char>> {
    if spec_is_plausible_version(trim(body)) {
        Some(trim(body))
    } else {
        None
    }
}

/// What a version endpoint's reply is taken to say.
pub fn checked_remote_version(body: &str) -> (r: Option<String>)
    ensures
        r matches Some(v) ==> spec_checked_remote_version(body@) == Some(v@),
        r is None ==> spec_checked_remote_version(body@) is None,
{
    let t = trim_chars(&chars_of(body));
    let ts = string_of(&t);
    if is_plausible_version(ts.as_str()) {
        Some(ts)
    } else {
        None
    }
}

/// The version to install: the server's, else the remembered one when it is
/// not blank once trimmed.
pub open spec fn spec_resolve_target_version(
    remote: Option<Seq<char>>,
    cached: Option<Seq<char>>,
) -> Option<Seq<char>> {
    match remote {
        Some(v) => Some(v),
        None => match cached {
            Some(c) => if trim(c).len() > 0 {
                Some(trim(c))
            } else {
                None
            },
            None => None,
        },
    }
}

pub fn resolve_target_version(remote: Option<String>, cached: Option<String>) -> (r: Option<
    String,
>)
    ensures
        r matches Some(v) ==> spec_resolve_target_version(opt_view(remote), opt_view(cached)) == Some(v@),
        r is None ==> spec_resolve_target_version(opt_view(remote), opt_view(cached)) is None,
{
    match remote {
        Some(v) => Some(v),
        None => match cached {
            Some(c) => {
                let t = trim_chars(&chars_of(c.as_str()));
                if t.len() > 0 {
                    Some(string_of(&t))
                } else {
                    None
                }
            },
            None => None,
        },
    }
}

/// A client is installed at `version` when its executable is there and the
/// remembered version, trimmed, is `version`.
pub open spec fn spec_is_installed(
    exe_is_file: bool,
    cached: Option<Seq<char>>,
    version: Seq<char>,
) -> bool {
    exe_is_file && match cached {
        Some(c) => trim(c) == version,
        None => false,
    }
}

pub fn is_installed(exe_is_file: bool, cached: Option<&str>, version: &str) -> (r: bool)
    ensures
        r == spec_is_installed(exe_is_file, opt_str_view(cached), version@),
{
    if !exe_is_file {
        return false;
    }
    match cached {
        Some(c) => {
            let t = trim_chars(&chars_of(c));
            seq_eq(&t, &chars_of(version))
        },
        None => false,
    }
}

/// The version the launcher updates itself to, given the reply of the
/// launcher version endpoint: the trimmed reply, when it is believable and
/// differs from this launcher's version.
pub open spec fn spec_launcher_update_target(body: Seq<char>) -> Option<Seq<char>> {
    let live = trim(body);
    if spec_is_plausible_version(live) && live != LAUNCHER_VERSION@ {
        Some(live)
    } else {
        None
    }
}

pub fn launcher_update_target(body: &str) -> (r: Option<String>)
    ensures
        r matches Some(v) ==> spec_launcher_update_target(body@) == Some(v@),
        r is None ==> spec_launcher_update_target(body@) is None,
{
    let live = trim_chars(&chars_of(body));
    let live_s = string_of(&live);
    if !is_plausible_version(live_s.as_str()) || seq_eq(&live, &chars_of(LAUNCHER_VERSION)) {
        None
    } else {
        Some(live_s)
    }
}

/// What to do about the server-wide version.
#[derive(Debug, PartialEq, Eq)]
pub enum GlobalVersionAction {
    /// The remembered version is the server's: nothing to do.
    UpToDate,
    /// Nothing was remembered: remember the server's version.
    Record(String),
    /// Another version was remembered: remove every install, then remember
    /// the server's version.
    WipeAndRecord(String),
}

/// Why the server-wide version was not acted on.
#[derive(Debug, PartialEq, Eq, Clone, Copy, Structural)]
pub enum VersionError {
    /// The server's reply is not a believable version string.
    Implausible,
}

pub enum SpecGlobalAction {
    UpToDate,
    Record(Seq<char>),
    WipeAndRecord(Seq<char>),
}

impl GlobalVersionAction {
    pub open spec fn spec(&self) -> SpecGlobalAction {
        match self {
            GlobalVersionAction::UpToDate => SpecGlobalAction::UpToDate,
            GlobalVersionAction::Record(v) => SpecGlobalAction::Record(v@),
            GlobalVersionAction::WipeAndRecord(v) => SpecGlobalAction::WipeAndRecord(v@),
        }
    }
}

/// The decision on the server-wide version: `live_body` is the server's
/// reply, `cached` the remembered version (`None` when it cannot be read).
pub open spec fn spec_global_version_action(
    live_body: Seq<char>,
    cached: Option<Seq<char>>,
) -> Result<SpecGlobalAction, VersionError> {
    let live = trim(live_body);
    let remembered = match cached {
        Some(c) => trim(c),
        None => Seq::empty(),
    };
    if !spec_is_plausible_version(live) {
        Err(VersionError::Implausible)
    } else if remembered == live {
        Ok(SpecGlobalAction::UpToDate)
    } else if remembered.len() > 0 {
        Ok(SpecGlobalAction::WipeAndRecord(live))
    } else {
        Ok(SpecGlobalAction::Record(live))
    }
}

pub fn global_version_action(live_body: &str, cached: Option<&str>) -> (r: Result<
    GlobalVersionAction,
    VersionError,
>)
    ensures
        match r {
            Ok(a) => spec_global_version_action(live_body@, opt_str_view(cached)) == Ok::<
                SpecGlobalAction,
                VersionError,
            >(a.spec()),
            Err(e) => spec_global_version_action(live_body@, opt_str_view(cached)) == Err::<
                SpecGlobalAction,
                VersionError,
            >(e),
        },
{
    let live = trim_chars(&chars_of(live_body));
    let live_s = string_of(&live);
    if !is_plausible_version(live_s.as_str()) {
        return Err(VersionError::Implausible);
    }
    let remembered: Vec<char> = match cached {
        Some(c) => trim_chars(&chars_of(c)),
        None => Vec::new(),
    };
    assert(remembered@ == match opt_str_view(cached) {
        Some(c) => trim(c),
        None => Seq::<char>::empty(),
    });
    if seq_eq(&remembered, &live) {
        Ok(GlobalVersionAction::UpToDate)
    } else if remembered.len() > 0 {
        Ok(GlobalVersionAction::WipeAndRecord(live_s))
    } else {
        Ok(GlobalVersionAction::Record(live_s))
    }
}

/// The files of the state directory that name an installed client's version.
pub open spec fn spec_is_cached_version_name(name: Seq<char>) -> bool {
    name.len() >= 7 && name.subrange(0, 7) == "LATEST-"@
}

pub fn is_cached_version_name(name: &str) -> (r: bool)
    ensures
        r == spec_is_cached_version_name(name@),
{
    let prefix = chars_of("LATEST-");
    proof {
        reveal_strlit("LATEST-");
    }
    starts_with(&chars_of(name), &prefix)
}

/// Whether the first bytes of a file, `head`, are `magic`.
pub fn starts_with_magic(head: &[u8], magic: &[u8]) -> (r: bool)
    ensures
        r == (magic@.len() <= head@.len() && head@.subrange(0, magic@.len() as int) == magic@),
{
    if magic.len() > head.len() {
        return false;
    }
    let m = magic.len();
    for k in 0..m
        invariant
            m == magic@.len(),
            m <= head@.len(),
            forall|t: int| 0 <= t < k ==> head@[t] == magic@[t],
    {
        if head[k] != magic[k] {
            assert(head@.subrange(0, m as int)[k as int] != magic@[k as int]);
            return false;
        }
    }
    assert(head@.subrange(0, m as int) =~= magic@);
    true
}

/// How refreshing the launcher's own copy went.
#[derive(Debug, Clone, Copy, PartialEq, Eq, Structural)]
pub enum LauncherStep {
    /// The copy is in place: copied or moved there, or it is this very
    /// executable.
    Placed,
    /// Copying this executable over the launcher's copy failed.
    CopyFailed,
    /// The launcher could not be downloaded from the server.
    DownloadFailed,
    /// The download does not begin with an executable's `MZ`.
    NotExecutable,
    /// The download could not be moved into place.
    RenameFailed,
}

/// Why there is no launcher copy to use.
#[derive(Debug, Clone, Copy, PartialEq, Eq, Structural)]
pub enum LauncherFailure {
    /// This executable could not be copied, and no copy was installed before.
    CopyFailed,
    /// The download failed, and no copy was installed before.
    NoCachedLauncher,
    /// The download is not an executable.
    NotExecutable,
    /// The download could not be moved into place, and no copy was there.
    RenameFailed,
}

/// Which launcher copy the pipeline goes on with.
#[derive(Debug, Clone, Copy, PartialEq, Eq, Structural)]
pub enum LauncherOutcome {
    /// The refreshed copy.
    Ready,
    /// The refresh failed; the copy installed before is used.
    KeepExisting,
    /// There is none.
    Fail(LauncherFailure),
}

/// A failed refresh falls back on a copy that is already installed, except
/// when the server sent something that is not an executable.
pub open spec fn spec_launcher_outcome(step: LauncherStep, existing: bool) -> LauncherOutcome {
    match step {
        LauncherStep::Placed => LauncherOutcome::Ready,
        LauncherStep::NotExecutable => LauncherOutcome::Fail(LauncherFailure::NotExecutable),
        LauncherStep::CopyFailed => if existing {
            LauncherOutcome::KeepExisting
        } else {
            LauncherOutcome::Fail(LauncherFailure::CopyFailed)
        },
        LauncherStep::DownloadFailed => if existing {
            LauncherOutcome::KeepExisting
        } else {
            LauncherOutcome::Fail(LauncherFailure::NoCachedLauncher)
        },
        LauncherStep::RenameFailed => if existing {
            LauncherOutcome::KeepExisting
        } else {
            LauncherOutcome::Fail(LauncherFailure::RenameFailed)
        },
    }
}

/// Decides which launcher copy to go on with, given how the refresh went and
/// whether a copy was installed already (`existing`).
pub fn launcher_outcome(step: LauncherStep, existing: bool) -> (r: LauncherOutcome)
    ensures
        r == spec_launcher_outcome(step, existing),
{
    match step {
        LauncherStep::Placed => LauncherOutcome::Ready,
        LauncherStep::NotExecutable => LauncherOutcome::Fail(LauncherFailure::NotExecutable),
        LauncherStep::CopyFailed => if existing {
            LauncherOutcome::KeepExisting
        } else {
            LauncherOutcome::Fail(LauncherFailure::CopyFailed)
        },
        LauncherStep::DownloadFailed => if existing {
            LauncherOutcome::KeepExisting
        } else {
            LauncherOutcome::Fail(LauncherFailure::NoCachedLauncher)
        },
        LauncherStep::RenameFailed => if existing {
            LauncherOutcome::KeepExisting
        } else {
            LauncherOutcome::Fail(LauncherFailure::RenameFailed)
        },
    }
}

} // verus!

verus! {

/// Once the server-wide version that was decided on is remembered, the same
/// reply of the server changes nothing: installs are wiped once per change
/// of the server's version, not again on the next launch.
pub proof fn law_recorded_global_version_is_current(
    live_body: Seq<char>,
    cached: Option<Seq<char>>,
)
    ensures
        match spec_global_version_action(live_body, cached) {
            Ok(SpecGlobalAction::Record(v)) => spec_global_version_action(live_body, Some(v)) == Ok::<
                SpecGlobalAction,
                VersionError,
            >(SpecGlobalAction::UpToDate),
            Ok(SpecGlobalAction::WipeAndRecord(v)) => spec_global_version_action(
                live_body,
                Some(v),
            ) == Ok::<SpecGlobalAction, VersionError>(SpecGlobalAction::UpToDate),
            _ => true,
        },
{
    crate::text::lemma_trim_idempotent(live_body);
}

/// The version that is recorded is the one the server sent: a believable,
/// trimmed version string.
pub proof fn law_recorded_global_version_is_plausible(
    live_body: Seq<char>,
    cached: Option<Seq<char>>,
)
    ensures
        match spec_global_version_action(live_body, cached) {
            Ok(SpecGlobalAction::Record(v)) => v == trim(live_body) && spec_is_plausible_version(v)
                && trim(v) == v,
            Ok(SpecGlobalAction::WipeAndRecord(v)) => v == trim(live_body)
                && spec_is_plausible_version(v) && trim(v) == v,
            _ => true,
        },
{
    crate::text::lemma_trim_idempotent(live_body);
}

/// The wipe of every install removes the remembered version of every client,
/// and keeps the remembered server-wide version.
pub proof fn law_wipe_forgets_client_versions(kind: Kind, client: Seq<char>)
    ensures
        spec_is_cached_version_name(cached_version_name(kind, client)),
        !spec_is_cached_version_name("GLOBAL-VERSION"@),
{
    reveal_strlit("LATEST-");
    reveal_strlit("LATEST");
    reveal_strlit("LATEST-studio");
    reveal_strlit("-");
    reveal_strlit("GLOBAL-VERSION");
    let n = cached_version_name(kind, client);
    assert(n.subrange(0, 7) =~= "LATEST-"@);
    assert("GLOBAL-VERSION"@.subrange(0, 7) != "LATEST-"@) by {
        assert("GLOBAL-VERSION"@.subrange(0, 7)[0] == 'G');
    }
}

/// A version that a client was installed at is what the install check looks
/// for: after the trimmed version is remembered, the client counts as
/// installed at it.
pub proof fn law_remembered_version_is_installed(version: Seq<char>)
    requires
        trim(version) == version,
    ensures
        spec_is_installed(true, Some(version), version),
{
}

} // verus!

verus! {

/// What a version endpoint is taken to say is a believable, trimmed version
/// string; the launcher updates itself only to one that is not its own.
pub proof fn law_accepted_versions_are_plausible(body: Seq<char>)
    ensures
        spec_checked_remote_version(body) matches Some(v) ==> spec_is_plausible_version(v) && trim(
            v,
        ) == v,
        spec_launcher_update_target(body) matches Some(v) ==> spec_is_plausible_version(v) && trim(
            v,
        ) == v && v != LAUNCHER_VERSION@,
{
    crate::text::lemma_trim_idempotent(body);
}

} // verus!

verus! {

/// A refresh of the launcher's copy that could not copy, download or move
/// the new one into place goes on with the copy installed before, and fails
/// only when there is none; a download that is not an executable is never
/// used and never falls back; a copy in place is used.
pub proof fn law_launcher_fallback(step: LauncherStep, existing: bool)
    ensures
        (step == LauncherStep::CopyFailed || step == LauncherStep::DownloadFailed || step
            == LauncherStep::RenameFailed) ==> (spec_launcher_outcome(step, true)
            == LauncherOutcome::KeepExisting && spec_launcher_outcome(step, false) is Fail),
        spec_launcher_outcome(LauncherStep::NotExecutable, existing) == LauncherOutcome::Fail(
            LauncherFailure::NotExecutable,
        ),
        spec_launcher_outcome(LauncherStep::Placed, existing) == LauncherOutcome::Ready,
{
}

} // verus!

verus! {

/// An ASCII letter of either case or an ASCII digit (std's
/// `char::is_ascii_alphanumeric`).
pub open spec fn is_ascii_alphanumeric(c: char) -> bool {
    ('0' <= c && c <= '9') || ('A' <= c && c <= 'Z') || ('a' <= c && c <= 'z')
}

/// The alphabet of version strings: a string of 1 to 64 ASCII letters of
/// either case, digits, `.`, `-` and `_` is a plausible version, and is its
/// own trimmed form; and the trimmed form of a plausible version is 1 to 64
/// long and made of nothing else.
pub proof fn law_version_alphabet(s: Seq<char>)
    ensures
        (1 <= s.len() <= 64 && forall|i: int|
            0 <= i < s.len() ==> (is_ascii_alphanumeric(#[trigger] s[i]) || s[i] == '.' || s[i]
                == '-' || s[i] == '_')) ==> spec_is_plausible_version(s) && trim(s) == s,
        spec_is_plausible_version(s) ==> 1 <= trim(s).len() <= 64,
        spec_is_plausible_version(s) ==> forall|i: int|
            0 <= i < trim(s).len() ==> (is_ascii_alphanumeric(#[trigger] trim(s)[i]) || trim(s)[i]
                == '.' || trim(s)[i] == '-' || trim(s)[i] == '_'),
{
    if 1 <= s.len() <= 64 && forall|i: int|
        0 <= i < s.len() ==> (is_ascii_alphanumeric(#[trigger] s[i]) || s[i] == '.' || s[i] == '-'
            || s[i] == '_') {
        assert(!crate::text::is_ws(s[0]));
        assert(crate::text::trim_start(s) == s);
        assert(!crate::text::is_ws(s.last())) by {
            assert(s.last() == s[s.len() - 1]);
        }
        assert(crate::text::trim_end(s) == s);
        assert(trim(s) == s);
    }
}

/// A client counts as installed at `version` exactly when its executable is
/// there and the remembered version, trimmed, is `version` itself: a
/// remembered version that differs from the target in any way, a prefix of
/// it too, means the client is installed anew; with nothing remembered it is
/// installed anew as well.
pub proof fn law_installed_means_same_version(exe_is_file: bool, c: Seq<char>, version: Seq<char>)
    ensures
        spec_is_installed(exe_is_file, Some(c), version) <==> (exe_is_file && trim(c) == version),
        !spec_is_installed(exe_is_file, None, version),
{
}

/// The server-wide version decides: any remembered version that is not blank
/// and is not the (plausible) live one, whatever their lengths, wipes every
/// install and records the live one; a blank or unreadable one only records
/// it; the same one changes nothing; an implausible live version is refused.
pub proof fn law_changed_global_version_wipes(live_body: Seq<char>, c: Seq<char>)
    ensures
        (spec_is_plausible_version(trim(live_body)) && trim(c) != trim(live_body) && trim(c).len()
            > 0) ==> spec_global_version_action(live_body, Some(c)) == Ok::<
            SpecGlobalAction,
            VersionError,
        >(SpecGlobalAction::WipeAndRecord(trim(live_body))),
        (spec_is_plausible_version(trim(live_body)) && trim(c).len() == 0) ==> (
        spec_global_version_action(live_body, Some(c)) == Ok::<SpecGlobalAction, VersionError>(
            SpecGlobalAction::Record(trim(live_body)),
        ) && spec_global_version_action(live_body, None) == Ok::<SpecGlobalAction, VersionError>(
            SpecGlobalAction::Record(trim(live_body)),
        )),
        (spec_is_plausible_version(trim(live_body)) && trim(c) == trim(live_body)) ==> (
        spec_global_version_action(live_body, Some(c)) == Ok::<SpecGlobalAction, VersionError>(
            SpecGlobalAction::UpToDate,
        )),
        !spec_is_plausible_version(trim(live_body)) ==> (spec_global_version_action(
            live_body,
            Some(c),
        ) == Err::<SpecGlobalAction, VersionError>(VersionError::Implausible)
            && spec_global_version_action(live_body, None) == Err::<SpecGlobalAction, VersionError>(
            VersionError::Implausible,
        )),
{
    crate::text::lemma_trim_idempotent(live_body);
}

} // verus!
