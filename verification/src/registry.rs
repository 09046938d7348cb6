//! What the launcher writes to the user's registry: its URL schemes and the
//! file type that Studio opens, as a list of operations that app/ applies.
use vstd::prelude::*;
use crate::config::{
    APP_NAME, STUDIO_FILE_EXT, URL_SCHEME_PLAYER, URL_SCHEME_STUDIO, player_schemes,
    studio_schemes, studio_file_exts,
};

verus! {

/// One registry write under the current user's hive.
#[derive(Debug)]
pub enum RegistryOp {
    /// Creates `key` when it is missing and sets its value `name` (`""` for
    /// the default value) to the string `data`.
    SetValue { key: String, name: String, data: String },
    /// Removes `key` and everything under it.
    DeleteTree { key: String },
}

pub enum SpecRegistryOp {
    SetValue { key: Seq<char>, name: Seq<char>, data: Seq<char> },
    DeleteTree { key: Seq<char> },
}

impl View for RegistryOp {
    type V = SpecRegistryOp;

    open spec fn view(&self) -> SpecRegistryOp {
        match self {
            RegistryOp::SetValue { key, name, data } => SpecRegistryOp::SetValue {
                key: key@,
                name: name@,
                data: data@,
            },
            RegistryOp::DeleteTree { key } => SpecRegistryOp::DeleteTree { key: key@ },
        }
    }
}

pub open spec fn ops_view(ops: Seq<RegistryOp>) -> Seq<SpecRegistryOp> {
    ops.map_values(|o: RegistryOp| o@)
}

pub open spec fn classes_key(name: Seq<char>) -> Seq<char> {
    "Software\\Classes\\"@ + name
}

/// How the shell shows the launcher's icon.
pub open spec fn icon_value(launcher: Seq<char>) -> Seq<char> {
    seq!['"'] + launcher + "\",0"@
}

/// How the shell runs the launcher on a link or a file.
pub open spec fn open_command(launcher: Seq<char>) -> Seq<char> {
    seq!['"'] + launcher + "\" \"%1\""@
}

pub open spec fn set(key: Seq<char>, name: Seq<char>, data: Seq<char>) -> SpecRegistryOp {
    SpecRegistryOp::SetValue { key, name, data }
}

/// The writes that make `scheme` open the launcher.
pub open spec fn scheme_ops(scheme: Seq<char>, launcher: Seq<char>) -> Seq<SpecRegistryOp> {
    let base = classes_key(scheme);
    seq![
        set(base, ""@, "URL:"@ + APP_NAME@ + " Protocol"@),
        set(base, "URL Protocol"@, ""@),
        set(base + "\\DefaultIcon"@, ""@, icon_value(launcher)),
        set(base + "\\shell\\open\\command"@, ""@, open_command(launcher)),
    ]
}

/// The removals of the schemes of `list` other than `keep0` and `keep1`.
pub open spec fn stale_scheme_ops(
    list: Seq<Seq<char>>,
    keep0: Seq<char>,
    keep1: Seq<char>,
) -> Seq<SpecRegistryOp>
    decreases list.len(),
{
    if list.len() == 0 {
        Seq::empty()
    } else {
        let rest = stale_scheme_ops(list.drop_last(), keep0, keep1);
        let s = list.last();
        if s == keep0 || s == keep1 {
            rest
        } else {
            rest.push(SpecRegistryOp::DeleteTree { key: classes_key(s) })
        }
    }
}

/// The launcher's URL scheme registration: the first player scheme and the
/// first Studio scheme open it; every other scheme of the two lists is
/// removed.
pub open spec fn spec_url_scheme_registrations(launcher: Seq<char>) -> Seq<SpecRegistryOp> {
    let p = player_schemes()[0];
    let s = studio_schemes()[0];
    scheme_ops(p, launcher) + scheme_ops(s, launcher) + stale_scheme_ops(
        player_schemes() + studio_schemes(),
        p,
        s,
    )
}

fn concat(a: &str, b: &str) -> (r: String)
    ensures
        r@ == a@ + b@,
{
    let mut s = String::from_str(a);
    s.append(b);
    s
}

fn push_set(ops: &mut Vec<RegistryOp>, key: String, name: &str, data: String)
    ensures
        ops_view(final(ops)@) == ops_view(old(ops)@).push(set(key@, name@, data@)),
{
    let ghost before = ops@;
    ops.push(RegistryOp::SetValue { key, name: String::from_str(name), data });
    assert(ops_view(ops@) =~= ops_view(before).push(set(key@, name@, data@)));
}

fn push_scheme_ops(ops: &mut Vec<RegistryOp>, scheme: &str, launcher: &str)
    ensures
        ops_view(final(ops)@) == ops_view(old(ops)@) + scheme_ops(scheme@, launcher@),
{
    let ghost before = ops_view(ops@);
    let base = concat("Software\\Classes\\", scheme);
    assert(base@ == classes_key(scheme@));
    let mut protocol = concat("URL:", APP_NAME);
    protocol.append(" Protocol");
    let mut icon = concat("\"", launcher);
    icon.append("\",0");
    let mut cmd = concat("\"", launcher);
    cmd.append("\" \"%1\"");
    let empty = String::new();
    proof {
        reveal_strlit("\"");
        reveal_strlit("");
    }
    assert(empty@ == ""@);
    assert(icon@ =~= icon_value(launcher@));
    assert(cmd@ =~= open_command(launcher@));
    let k1 = base.clone();
    let k2 = base.clone();
    let k3 = concat(base.as_str(), "\\DefaultIcon");
    let k4 = concat(base.as_str(), "\\shell\\open\\command");
    let ghost expected = scheme_ops(scheme@, launcher@);
    assert(expected[0] == set(k1@, ""@, protocol@));
    assert(expected[1] == set(k2@, "URL Protocol"@, empty@));
    assert(expected[2] == set(k3@, ""@, icon@));
    assert(expected[3] == set(k4@, ""@, cmd@));
    push_set(ops, k1, "", protocol);
    push_set(ops, k2, "URL Protocol", empty);
    push_set(ops, k3, "", icon);
    push_set(ops, k4, "", cmd);
    assert(ops_view(ops@) =~= before + expected);
}

pub fn url_scheme_registrations(launcher: &str) -> (r: Vec<RegistryOp>)
    ensures
        ops_view(r@) == spec_url_scheme_registrations(launcher@),
{
    let mut ops: Vec<RegistryOp> = Vec::new();
    push_scheme_ops(&mut ops, URL_SCHEME_PLAYER, launcher);
    push_scheme_ops(&mut ops, URL_SCHEME_STUDIO, launcher);
    proof {
        reveal_with_fuel(stale_scheme_ops, 3);
        let list = player_schemes() + studio_schemes();
        let p = URL_SCHEME_PLAYER@;
        let st = URL_SCHEME_STUDIO@;
        assert(list =~= seq![p, st]);
        assert(list.drop_last() =~= seq![p]);
        assert(seq![p].drop_last() =~= Seq::<Seq<char>>::empty());
        assert(stale_scheme_ops(seq![p], p, st) =~= Seq::<SpecRegistryOp>::empty());
        assert(stale_scheme_ops(list, p, st) =~= Seq::<SpecRegistryOp>::empty());
    }
    assert(ops_view(ops@) =~= spec_url_scheme_registrations(launcher@));
    ops
}

pub open spec fn prog_id() -> Seq<char> {
    "Memoria.StudioFile"@
}

/// The writes that make one extension a Studio file.
pub open spec fn ext_ops(ext: Seq<char>) -> Seq<SpecRegistryOp> {
    let key = classes_key(seq!['.'] + ext);
    seq![set(key, ""@, prog_id()), set(key + "\\OpenWithProgids"@, prog_id(), ""@)]
}

pub open spec fn ext_list_ops(exts: Seq<Seq<char>>) -> Seq<SpecRegistryOp>
    decreases exts.len(),
{
    if exts.len() == 0 {
        Seq::empty()
    } else {
        ext_list_ops(exts.drop_last()) + ext_ops(exts.last())
    }
}

/// The Studio file type: its name, icon and open command, then each Studio
/// extension pointed at it.
pub open spec fn spec_file_association_registrations(launcher: Seq<char>) -> Seq<SpecRegistryOp> {
    let base = classes_key(prog_id());
    seq![
        set(base, ""@, "Memoria Studio File"@),
        set(base, "FriendlyTypeName"@, "Memoria Studio File"@),
        set(base + "\\DefaultIcon"@, ""@, icon_value(launcher)),
        set(base + "\\shell\\open\\command"@, ""@, open_command(launcher)),
    ] + ext_list_ops(studio_file_exts())
}

pub fn file_association_registrations(launcher: &str) -> (r: Vec<RegistryOp>)
    ensures
        ops_view(r@) == spec_file_association_registrations(launcher@),
{
    let base = concat("Software\\Classes\\", "Memoria.StudioFile");
    let mut icon = concat("\"", launcher);
    icon.append("\",0");
    let mut cmd = concat("\"", launcher);
    cmd.append("\" \"%1\"");
    let mut ext_key = String::from_str("Software\\Classes\\.");
    ext_key.append(STUDIO_FILE_EXT);
    proof {
        reveal_strlit("\"");
        reveal_strlit("");
        reveal_strlit("Software\\Classes\\.");
        reveal_strlit("Software\\Classes\\");
        reveal_with_fuel(ext_list_ops, 2);
        assert(studio_file_exts().drop_last() =~= Seq::<Seq<char>>::empty());
    }
    assert(base@ == classes_key(prog_id()));
    assert(icon@ =~= icon_value(launcher@));
    assert(cmd@ =~= open_command(launcher@));
    assert(ext_key@ =~= classes_key(seq!['.'] + STUDIO_FILE_EXT@));
    let empty = String::new();
    assert(empty@ == ""@);
    let k1 = base.clone();
    let k2 = base.clone();
    let k3 = concat(base.as_str(), "\\DefaultIcon");
    let k4 = concat(base.as_str(), "\\shell\\open\\command");
    let k5 = ext_key.clone();
    let k6 = concat(ext_key.as_str(), "\\OpenWithProgids");
    let d1 = String::from_str("Memoria Studio File");
    let d2 = String::from_str("Memoria Studio File");
    let d5 = String::from_str("Memoria.StudioFile");
    let ghost expected = spec_file_association_registrations(launcher@);
    assert(ext_list_ops(studio_file_exts()) =~= ext_ops(STUDIO_FILE_EXT@));
    assert(expected.len() == 6);
    assert(expected[0] == set(k1@, ""@, d1@));
    assert(expected[1] == set(k2@, "FriendlyTypeName"@, d2@));
    assert(expected[2] == set(k3@, ""@, icon@));
    assert(expected[3] == set(k4@, ""@, cmd@));
    assert(expected[4] == set(k5@, ""@, d5@));
    assert(expected[5] == set(k6@, "Memoria.StudioFile"@, empty@));
    let mut ops: Vec<RegistryOp> = Vec::new();
    push_set(&mut ops, k1, "", d1);
    push_set(&mut ops, k2, "FriendlyTypeName", d2);
    push_set(&mut ops, k3, "", icon);
    push_set(&mut ops, k4, "", cmd);
    push_set(&mut ops, k5, "", d5);
    push_set(&mut ops, k6, "Memoria.StudioFile", empty);
    assert(ops_view(ops@) =~= expected);
    ops
}

} // verus!
