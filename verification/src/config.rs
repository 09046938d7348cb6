//! Constants, the client kinds, the install layout and the server's URLs.
use vstd::prelude::*;
use crate::text::{ascii_lower, ascii_lowercase, chars_of, seq_eq};

verus! {

pub const BASE_URL: &'static str = "https://api.memora.zip";

pub const APP_NAME: &'static str = "Memoria";

pub const LAUNCHER_EXE: &'static str = "MemoriaPlayerLauncher.exe";

pub const DEFAULT_CLIENT: &'static str = "2021";

pub const LAUNCHER_VERSION: &'static str = "3";

pub const URL_SCHEME_PLAYER: &'static str = "memoria-player";

pub const URL_SCHEME_STUDIO: &'static str = "memoria-studio";

pub const STUDIO_FILE_EXT: &'static str = "memoriarbxm";

/// The URL schemes that open the player.
pub open spec fn player_schemes() -> Seq<Seq<char>> {
    seq![URL_SCHEME_PLAYER@]
}

/// The URL schemes that open Studio.
pub open spec fn studio_schemes() -> Seq<Seq<char>> {
    seq![URL_SCHEME_STUDIO@]
}

/// The file extensions that Studio opens.
pub open spec fn studio_file_exts() -> Seq<Seq<char>> {
    seq![STUDIO_FILE_EXT@]
}

pub fn url_schemes_player() -> (r: Vec<&'static str>)
    ensures
        r@.map_values(|s: &str| s@) == player_schemes(),
{
    let r = vec![URL_SCHEME_PLAYER];
    assert(r@.map_values(|s: &str| s@) =~= player_schemes());
    r
}

pub fn url_schemes_studio() -> (r: Vec<&'static str>)
    ensures
        r@.map_values(|s: &str| s@) == studio_schemes(),
{
    let r = vec![URL_SCHEME_STUDIO];
    assert(r@.map_values(|s: &str| s@) =~= studio_schemes());
    r
}

pub fn studio_file_extensions() -> (r: Vec<&'static str>)
    ensures
        r@.map_values(|s: &str| s@) == studio_file_exts(),
{
    let r = vec![STUDIO_FILE_EXT];
    assert(r@.map_values(|s: &str| s@) =~= studio_file_exts());
    r
}

/// Which client a launch is for.
#[derive(Debug, Clone, Copy, PartialEq, Eq, Structural)]
pub enum Kind {
    Player,
    Studio,
}

/// The kind whose scheme list holds `scheme`, compared without ASCII case.
pub open spec fn spec_from_scheme(scheme: Seq<char>) -> Option<Kind> {
    if player_schemes().contains(ascii_lower(scheme)) {
        Some(Kind::Player)
    } else if studio_schemes().contains(ascii_lower(scheme)) {
        Some(Kind::Studio)
    } else {
        None
    }
}

/// Whether `list` holds `s`.
pub fn list_contains(list: &Vec<&'static str>, s: &[char]) -> (r: bool)
    ensures
        r == list@.map_values(|x: &str| x@).contains(s@),
{
    let ghost views = list@.map_values(|x: &str| x@);
    let n = list.len();
    for i in 0..n
        invariant
            n == list@.len(),
            views == list@.map_values(|x: &str| x@),
            forall|j: int| 0 <= j < i ==> views[j] != s@,
    {
        let item = chars_of(list[i]);
        if seq_eq(&item, s) {
            assert(views[i as int] == s@);
            return true;
        }
    }
    assert forall|x: Seq<char>| views.contains(x) implies x != s@ by {
        let j = choose|j: int| 0 <= j < views.len() && views[j] == x;
        assert(views[j] != s@);
    }
    false
}

impl Kind {
    pub fn from_scheme(scheme: &str) -> (r: Option<Kind>)
        ensures
            r == spec_from_scheme(scheme@),
    {
        let s = ascii_lowercase(&chars_of(scheme));
        if list_contains(&url_schemes_player(), &s) {
            Some(Kind::Player)
        } else if list_contains(&url_schemes_studio(), &s) {
            Some(Kind::Studio)
        } else {
            None
        }
    }

    pub open spec fn spec_label(self) -> Seq<char> {
        match self {
            Kind::Player => "Memoria"@,
            Kind::Studio => "Memoria Studio"@,
        }
    }

    pub fn label(self) -> (r: &'static str)
        ensures
            r@ == self.spec_label(),
    {
        match self {
            Kind::Player => "Memoria",
            Kind::Studio => "Memoria Studio",
        }
    }

    pub open spec fn spec_exe_name(self) -> Seq<char> {
        match self {
            Kind::Player => "RobloxPlayerBeta.exe"@,
            Kind::Studio => "RobloxStudioBeta.exe"@,
        }
    }

    pub fn exe_name(self) -> (r: &'static str)
        ensures
            r@ == self.spec_exe_name(),
    {
        match self {
            Kind::Player => "RobloxPlayerBeta.exe",
            Kind::Studio => "RobloxStudioBeta.exe",
        }
    }
}

} // verus!

verus! {

/// A filesystem path as its components, outermost first.
pub struct FsPath {
    pub parts: Vec<String>,
}

impl View for FsPath {
    type V = Seq<Seq<char>>;

    open spec fn view(&self) -> Seq<Seq<char>> {
        self.parts@.map_values(|p: String| p@)
    }
}

impl FsPath {
    pub fn from_parts(parts: Vec<String>) -> (r: FsPath)
        ensures
            r.parts == parts,
    {
        FsPath { parts }
    }

    /// A copy of this path.
    pub fn duplicate(&self) -> (r: FsPath)
        ensures
            r@ == self@,
    {
        let mut parts: Vec<String> = Vec::new();
        let n = self.parts.len();
        for i in 0..n
            invariant
                n == self.parts@.len(),
                parts@.len() == i,
                forall|k: int| 0 <= k < i ==> #[trigger] parts@[k]@ == self.parts@[k]@,
        {
            let item = self.parts[i].clone();
            parts.push(item);
        }
        let r = FsPath { parts };
        assert(r@ =~= self@);
        r
    }

    /// This path with one more component, `part`, at its end.
    pub fn join(&self, part: &str) -> (r: FsPath)
        ensures
            r@ == self@.push(part@),
    {
        let mut r = self.duplicate();
        let ghost before = r@;
        r.parts.push(String::from_str(part));
        assert(r@ =~= before.push(part@));
        r
    }
}

/// The install root: `APP_NAME` under the user's local data directory.
pub fn install_root(local_data_dir: &FsPath) -> (r: FsPath)
    ensures
        r@ == local_data_dir@.push(APP_NAME@),
{
    local_data_dir.join(APP_NAME)
}

/// Where the launcher keeps its own copy.
pub fn launcher_exe_path(root: &FsPath) -> (r: FsPath)
    ensures
        r@ == root@.push(LAUNCHER_EXE@),
{
    root.join(LAUNCHER_EXE)
}

pub open spec fn kind_dir_name(kind: Kind) -> Seq<char> {
    match kind {
        Kind::Player => "clients"@,
        Kind::Studio => "Studio"@,
    }
}

/// The directory that holds every install of one kind.
pub fn kind_root(root: &FsPath, kind: Kind) -> (r: FsPath)
    ensures
        r@ == root@.push(kind_dir_name(kind)),
{
    let sub = match kind {
        Kind::Player => "clients",
        Kind::Studio => "Studio",
    };
    root.join(sub)
}

/// The directory of one client year of one kind.
pub fn install_dir(root: &FsPath, kind: Kind, client: &str) -> (r: FsPath)
    ensures
        r@ == root@.push(kind_dir_name(kind)).push(client@),
{
    kind_root(root, kind).join(client)
}

/// The executable of one installed client.
pub fn target_exe(root: &FsPath, kind: Kind, client: &str) -> (r: FsPath)
    ensures
        r@ == root@.push(kind_dir_name(kind)).push(client@).push(kind.spec_exe_name()),
{
    install_dir(root, kind, client).join(kind.exe_name())
}

/// The directory of the launcher's remembered versions.
pub fn state_dir(root: &FsPath) -> (r: FsPath)
    ensures
        r@ == root@.push("state"@),
{
    root.join("state")
}

pub open spec fn cached_version_prefix(kind: Kind) -> Seq<char> {
    match kind {
        Kind::Player => "LATEST"@,
        Kind::Studio => "LATEST-studio"@,
    }
}

/// The name of the file that remembers which version of a client is installed.
pub open spec fn cached_version_name(kind: Kind, client: Seq<char>) -> Seq<char> {
    cached_version_prefix(kind) + "-"@ + client
}

/// The file that remembers which version of a client is installed.
pub fn cached_version_file(root: &FsPath, kind: Kind, client: &str) -> (r: FsPath)
    ensures
        r@ == root@.push("state"@).push(cached_version_name(kind, client@)),
{
    let prefix = match kind {
        Kind::Player => "LATEST",
        Kind::Studio => "LATEST-studio",
    };
    let mut name = String::from_str(prefix);
    name.append("-");
    name.append(client);
    state_dir(root).join(name.as_str())
}

/// The file that remembers the server-wide version.
pub fn global_version_file(root: &FsPath) -> (r: FsPath)
    ensures
        r@ == root@.push("state"@).push("GLOBAL-VERSION"@),
{
    state_dir(root).join("GLOBAL-VERSION")
}

pub open spec fn setup_dir(kind: Kind, client: Seq<char>) -> Seq<char> {
    match kind {
        Kind::Player => BASE_URL@ + "/setup/"@ + client,
        Kind::Studio => BASE_URL@ + "/setup/studio/"@ + client,
    }
}

pub open spec fn spec_version_url(kind: Kind, client: Seq<char>) -> Seq<char> {
    setup_dir(kind, client) + "/version.txt"@
}

pub open spec fn bundle_suffix(kind: Kind) -> Seq<char> {
    match kind {
        Kind::Player => "-client.zip"@,
        Kind::Studio => "-studio.zip"@,
    }
}

pub open spec fn spec_bundle_url(kind: Kind, client: Seq<char>, version: Seq<char>) -> Seq<char> {
    setup_dir(kind, client) + "/"@ + version + bundle_suffix(kind)
}

fn setup_dir_string(kind: Kind, client: &str) -> (r: String)
    ensures
        r@ == setup_dir(kind, client@),
{
    let mut s = String::from_str(BASE_URL);
    match kind {
        Kind::Player => s.append("/setup/"),
        Kind::Studio => s.append("/setup/studio/"),
    }
    s.append(client);
    s
}

/// Where the server says which version of a client is current.
pub fn version_url(kind: Kind, client: &str) -> (r: String)
    ensures
        r@ == spec_version_url(kind, client@),
{
    let mut s = setup_dir_string(kind, client);
    s.append("/version.txt");
    s
}

/// Where a client's bundle of one version is downloaded from.
pub fn bundle_url(kind: Kind, client: &str, version: &str) -> (r: String)
    ensures
        r@ == spec_bundle_url(kind, client@, version@),
{
    let mut s = setup_dir_string(kind, client);
    s.append("/");
    s.append(version);
    match kind {
        Kind::Player => s.append("-client.zip"),
        Kind::Studio => s.append("-studio.zip"),
    }
    s
}

pub fn launcher_url() -> (r: String)
    ensures
        r@ == BASE_URL@ + "/setup/launcher.exe"@,
{
    let mut s = String::from_str(BASE_URL);
    s.append("/setup/launcher.exe");
    s
}

pub fn launcher_version_url() -> (r: String)
    ensures
        r@ == BASE_URL@ + "/setup/launcher/version.txt"@,
{
    let mut s = String::from_str(BASE_URL);
    s.append("/setup/launcher/version.txt");
    s
}

pub fn global_version_url() -> (r: String)
    ensures
        r@ == BASE_URL@ + "/version"@,
{
    let mut s = String::from_str(BASE_URL);
    s.append("/version");
    s
}

} // verus!

verus! {

/// Each kind and client year has an install directory of its own under the
/// install root, inside the directory of its kind.
pub proof fn law_install_dirs_distinct(
    root: Seq<Seq<char>>,
    k1: Kind,
    c1: Seq<char>,
    k2: Kind,
    c2: Seq<char>,
)
    ensures
        root.push(kind_dir_name(k1)).push(c1) == root.push(kind_dir_name(k2)).push(c2) <==> (k1
            == k2 && c1 == c2),
        kind_dir_name(Kind::Player) != kind_dir_name(Kind::Studio),
{
    reveal_strlit("clients");
    reveal_strlit("Studio");
    assert(kind_dir_name(Kind::Player)[0] != kind_dir_name(Kind::Studio)[0]);
    if root.push(kind_dir_name(k1)).push(c1) == root.push(kind_dir_name(k2)).push(c2) {
        let a = root.push(kind_dir_name(k1)).push(c1);
        let b = root.push(kind_dir_name(k2)).push(c2);
        assert(a.last() == c1 && b.last() == c2);
        assert(a.drop_last() =~= root.push(kind_dir_name(k1)));
        assert(b.drop_last() =~= root.push(kind_dir_name(k2)));
        assert(a.drop_last().last() == kind_dir_name(k1));
        assert(b.drop_last().last() == kind_dir_name(k2));
    }
}

/// Two clients share a remembered-version file only when a player client's
/// year is `studio-` followed by a Studio client's year.
pub proof fn law_cached_version_names_distinct(k1: Kind, c1: Seq<char>, k2: Kind, c2: Seq<char>)
    ensures
        cached_version_name(k1, c1) == cached_version_name(k2, c2) <==> {
            ||| k1 == k2 && c1 == c2
            ||| k1 == Kind::Player && k2 == Kind::Studio && c1 == "studio-"@ + c2
            ||| k1 == Kind::Studio && k2 == Kind::Player && c2 == "studio-"@ + c1
        },
{
    reveal_strlit("LATEST");
    reveal_strlit("LATEST-studio");
    reveal_strlit("-");
    reveal_strlit("studio-");
    reveal_strlit("LATEST-");
    reveal_strlit("LATEST-studio-");
    let n1 = cached_version_name(k1, c1);
    let n2 = cached_version_name(k2, c2);
    let p1 = cached_version_prefix(k1) + "-"@;
    let p2 = cached_version_prefix(k2) + "-"@;
    assert(n1 =~= p1 + c1);
    assert(n2 =~= p2 + c2);
    if n1 == n2 {
        if k1 == k2 {
            assert(c1 =~= n1.subrange(p1.len() as int, n1.len() as int));
            assert(c2 =~= n2.subrange(p2.len() as int, n2.len() as int));
        } else if k1 == Kind::Player {
            assert(p1 =~= "LATEST-"@);
            assert(p2 =~= "LATEST-studio-"@);
            assert(c1 =~= n1.subrange(7, n1.len() as int));
            assert(c2 =~= n2.subrange(14, n2.len() as int));
            assert(n1.subrange(7, n1.len() as int) =~= "studio-"@ + n2.subrange(
                14,
                n2.len() as int,
            ));
        } else {
            assert(p2 =~= "LATEST-"@);
            assert(p1 =~= "LATEST-studio-"@);
            assert(c2 =~= n2.subrange(7, n2.len() as int));
            assert(c1 =~= n1.subrange(14, n1.len() as int));
            assert(n2.subrange(7, n2.len() as int) =~= "studio-"@ + n1.subrange(
                14,
                n1.len() as int,
            ));
        }
    } else {
        if k1 == Kind::Player && k2 == Kind::Studio && c1 == "studio-"@ + c2 {
            assert(n1 =~= n2);
        }
        if k1 == Kind::Studio && k2 == Kind::Player && c2 == "studio-"@ + c1 {
            assert(n1 =~= n2);
        }
    }
}

/// Links of the schemes that the launcher registers open it with the kind
/// they belong to.
pub proof fn law_registered_schemes_recognized()
    ensures
        spec_from_scheme(player_schemes()[0]) == Some(Kind::Player),
        spec_from_scheme(studio_schemes()[0]) == Some(Kind::Studio),
{
    reveal_strlit("memoria-player");
    reveal_strlit("memoria-studio");
    assert(ascii_lower(URL_SCHEME_PLAYER@) =~= URL_SCHEME_PLAYER@);
    assert(ascii_lower(URL_SCHEME_STUDIO@) =~= URL_SCHEME_STUDIO@);
    assert(player_schemes().contains(URL_SCHEME_PLAYER@)) by {
        assert(player_schemes()[0] == URL_SCHEME_PLAYER@);
    }
    assert(studio_schemes().contains(URL_SCHEME_STUDIO@)) by {
        assert(studio_schemes()[0] == URL_SCHEME_STUDIO@);
    }
    assert(!player_schemes().contains(URL_SCHEME_STUDIO@)) by {
        assert(URL_SCHEME_STUDIO@[8] != URL_SCHEME_PLAYER@[8]);
    }
}

} // verus!

verus! {

/// A path component that names one entry of its directory on every
/// platform: not empty, no separator (`/`, `\`), no `:` (which can make a
/// Windows drive prefix), and neither `.` nor `..`.
pub open spec fn is_normal_component(c: Seq<char>) -> bool {
    &&& c.len() > 0
    &&& !c.contains('/')
    &&& !c.contains('\\')
    &&& !c.contains(':')
    &&& c != "."@
    &&& c != ".."@
}

/// Every client's directory, and its executable, lie inside the directory of
/// its kind, which is what removing a kind's directory relies on. This holds
/// for a client year that is one normal path component: a value holding a
/// separator, a drive or `..` would lead elsewhere once joined to a real path.
pub proof fn law_installs_under_kind_root(root: Seq<Seq<char>>, kind: Kind, client: Seq<char>)
    requires
        is_normal_component(client),
    ensures
        ({
            let kr = root.push(kind_dir_name(kind));
            let dir = kr.push(client);
            let exe = dir.push(kind.spec_exe_name());
            &&& dir.subrange(0, kr.len() as int) == kr
            &&& exe.subrange(0, kr.len() as int) == kr
            &&& exe.subrange(0, dir.len() as int) == dir
        }),
{
    let kr = root.push(kind_dir_name(kind));
    let dir = kr.push(client);
    let exe = dir.push(kind.spec_exe_name());
    assert(dir.subrange(0, kr.len() as int) =~= kr);
    assert(exe.subrange(0, kr.len() as int) =~= kr);
    assert(exe.subrange(0, dir.len() as int) =~= dir);
}

} // verus!
