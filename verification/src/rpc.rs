//! Rich presence: the watcher's flags, the place a client was launched into,
//! the place's name in a server reply, and the text shown for a session.
use vstd::prelude::*;
use vstd::utf8::encode_utf8;
use crate::config::Kind;
use crate::text::{
    ascii_lower, ascii_lowercase, chars_of, find, find_chars, occurs_at, opt_view, seq_eq, slice_chars,
    string_of, strings_view, trim, trim_chars,
};

verus! {

pub open spec fn spec_watcher_flag(kind: Kind) -> Seq<char> {
    match kind {
        Kind::Player => "--rpc-play"@,
        Kind::Studio => "--rpc-studio"@,
    }
}

/// The flag that starts the launcher as the watcher of a client of `kind`.
pub fn watcher_flag(kind: Kind) -> (r: &'static str)
    ensures
        r@ == spec_watcher_flag(kind),
{
    match kind {
        Kind::Player => "--rpc-play",
        Kind::Studio => "--rpc-studio",
    }
}

/// The kind of client that a first argument asks the launcher to watch.
pub open spec fn spec_watcher_kind(first: Seq<char>) -> Option<Kind> {
    if first == "--rpc-play"@ {
        Some(Kind::Player)
    } else if first == "--rpc-studio"@ {
        Some(Kind::Studio)
    } else {
        None
    }
}

pub fn watcher_kind(first: &str) -> (r: Option<Kind>)
    ensures
        r == spec_watcher_kind(first@),
{
    let f = chars_of(first);
    if seq_eq(&f, &chars_of("--rpc-play")) {
        Some(Kind::Player)
    } else if seq_eq(&f, &chars_of("--rpc-studio")) {
        Some(Kind::Studio)
    } else {
        None
    }
}

/// The two lines of rich presence for a session.
pub open spec fn spec_describe(kind: Kind, place_name: Option<Seq<char>>) -> (Seq<char>, Seq<char>) {
    match kind {
        Kind::Player => (
            match place_name {
                Some(n) => n,
                None => "Playing Memoria"@,
            },
            "Playing on Memoria"@,
        ),
        Kind::Studio => (
            "Memoria Studio"@,
            match place_name {
                Some(n) => "Editing "@ + n,
                None => "In the editor"@,
            },
        ),
    }
}

pub fn describe(kind: Kind, place_name: Option<String>) -> (r: (String, String))
    ensures
        (r.0@, r.1@) == spec_describe(kind, opt_view(place_name)),
{
    match kind {
        Kind::Player => (
            match place_name {
                Some(n) => n,
                None => String::from_str("Playing Memoria"),
            },
            String::from_str("Playing on Memoria"),
        ),
        Kind::Studio => (
            String::from_str("Memoria Studio"),
            match place_name {
                Some(n) => {
                    let mut s = String::from_str("Editing ");
                    s.append(n.as_str());
                    s
                },
                None => String::from_str("In the editor"),
            },
        ),
    }
}

pub open spec fn is_digit(c: char) -> bool {
    '0' <= c && c <= '9'
}

/// The longest prefix of `s` made of ASCII digits.
pub open spec fn digit_prefix(s: Seq<char>) -> Seq<char>
    decreases s.len(),
{
    if s.len() > 0 && is_digit(s[0]) {
        seq![s[0]] + digit_prefix(s.drop_first())
    } else {
        Seq::empty()
    }
}

/// The place id that the argument at `i` gives: the next argument after
/// `-placeid` (any ASCII case) when it is all digits, else the digits right
/// after a `placeid=` (any ASCII case) in it.
pub open spec fn place_id_at(args: Seq<Seq<char>>, i: int) -> Option<Seq<char>> {
    let lower = ascii_lower(args[i]);
    if lower == "-placeid"@ && i + 1 < args.len() && args[i + 1].len() > 0 && (forall|k: int|
        0 <= k < args[i + 1].len() ==> is_digit(#[trigger] args[i + 1][k])) {
        Some(args[i + 1])
    } else {
        match find(lower, "placeid="@) {
            Some(pos) => {
                let d = digit_prefix(args[i].skip(pos + 8));
                if d.len() > 0 {
                    Some(d)
                } else {
                    None
                }
            },
            None => None,
        }
    }
}

/// The first place id that the arguments from `i` on give.
pub open spec fn place_id_from(args: Seq<Seq<char>>, i: int) -> Option<Seq<char>>
    decreases args.len() - i,
{
    if i < 0 || i >= args.len() {
        None
    } else {
        match place_id_at(args, i) {
            Some(id) => Some(id),
            None => place_id_from(args, i + 1),
        }
    }
}

fn all_digits(s: &[char]) -> (r: bool)
    ensures
        r == forall|k: int| 0 <= k < s@.len() ==> is_digit(#[trigger] s@[k]),
{
    let n = s.len();
    for i in 0..n
        invariant
            n == s@.len(),
            forall|k: int| 0 <= k < i ==> is_digit(#[trigger] s@[k]),
    {
        if !('0' <= s[i] && s[i] <= '9') {
            return false;
        }
    }
    true
}

/// The digits at the start of `s[from..]`.
fn digit_prefix_from(s: &[char], from: usize) -> (r: Vec<char>)
    requires
        from <= s@.len(),
    ensures
        r@ == digit_prefix(s@.skip(from as int)),
{
    let n = s.len();
    let mut k = from;
    assert(s@.subrange(from as int, from as int) =~= Seq::<char>::empty());
    assert(s@.skip(from as int) =~= s@.subrange(from as int, n as int));
    while k < n && '0' <= s[k] && s[k] <= '9'
        invariant
            from <= k <= n,
            n == s@.len(),
            digit_prefix(s@.skip(from as int)) == s@.subrange(from as int, k as int) + digit_prefix(
                s@.subrange(k as int, n as int),
            ),
        decreases n - k,
    {
        assert(s@.subrange(k as int, n as int).drop_first() =~= s@.subrange(k + 1, n as int));
        assert(s@.subrange(from as int, k + 1) =~= s@.subrange(from as int, k as int) + seq![s@[k as int]]);
        k = k + 1;
    }
    assert(digit_prefix(s@.subrange(k as int, n as int)) =~= Seq::<char>::empty());
    assert(s@.subrange(from as int, k as int) + Seq::<char>::empty() =~= s@.subrange(from as int, k as int));
    slice_chars(s, from, k)
}

/// The place id that a client's command line names, if any.
pub fn find_place_id(args: &[String]) -> (r: Option<String>)
    ensures
        opt_view(r) == place_id_from(strings_view(args@), 0),
{
    let ghost av = strings_view(args@);
    let n = args.len();
    let placeid_eq = chars_of("placeid=");
    proof {
        reveal_strlit("placeid=");
    }
    assert(placeid_eq@.len() == 8);
    let mut i: usize = 0;
    while i < n
        invariant
            i <= n,
            n == args@.len(),
            av == strings_view(args@),
            placeid_eq@ == "placeid="@,
            placeid_eq@.len() == 8,
            place_id_from(av, 0) == place_id_from(av, i as int),
        decreases n - i,
    {
        let arg = chars_of(args[i].as_str());
        assert(arg@ == av[i as int]);
        let lower = ascii_lowercase(&arg);
        if seq_eq(&lower, &chars_of("-placeid")) && i + 1 < n {
            let next = chars_of(args[i + 1].as_str());
            assert(next@ == av[i + 1]);
            if next.len() > 0 && all_digits(&next) {
                return Some(args[i + 1].clone());
            }
        }
        match find_chars(&lower, &placeid_eq) {
            Some(pos) => {
                proof {
                    crate::text::lemma_find_from_least(lower@, placeid_eq@, 0);
                }
                assert(lower@.len() == arg@.len());
                assert(arg@.len() == arg.len());
                let digits = digit_prefix_from(&arg, pos + 8);
                if digits.len() > 0 {
                    return Some(string_of(&digits));
                }
            },
            None => {},
        }
        i = i + 1;
    }
    None
}

} // verus!

verus! {

/// The value of a hexadecimal digit, as `char::to_digit(16)` reads it.
pub open spec fn hex_digit(c: char) -> Option<int> {
    if '0' <= c && c <= '9' {
        Some(c as int - 48)
    } else if 'a' <= c && c <= 'f' {
        Some(c as int - 87)
    } else if 'A' <= c && c <= 'F' {
        Some(c as int - 55)
    } else {
        None
    }
}

/// The number that hexadecimal digits spell; `None` when one is no digit.
pub open spec fn hex_digits_value(d: Seq<char>) -> Option<int>
    decreases d.len(),
{
    if d.len() == 0 {
        Some(0)
    } else {
        match (hex_digits_value(d.drop_last()), hex_digit(d.last())) {
            (Some(v), Some(x)) => Some(v * 16 + x),
            _ => None,
        }
    }
}

/// What `u32::from_str_radix(s, 16)` gives: an optional `+`, then at least
/// one hexadecimal digit, with a value that fits in `u32`.
pub open spec fn parse_hex_u32(s: Seq<char>) -> Option<int> {
    let digits = if s.len() > 0 && s[0] == '+' {
        s.drop_first()
    } else {
        s
    };
    if s.len() == 0 || (s.len() == 1 && (s[0] == '+' || s[0] == '-')) {
        None
    } else {
        match hex_digits_value(digits) {
            Some(v) => if v <= u32::MAX {
                Some(v)
            } else {
                None
            },
            None => None,
        }
    }
}

/// A Unicode scalar value: what `char::from_u32` accepts.
pub open spec fn is_scalar_value(v: int) -> bool {
    (0 <= v < 0xD800) || (0xE000 <= v <= 0x10FFFF)
}

/// The character that a `\u` escape's (up to four) hexadecimal characters give.
pub open spec fn unicode_escape(hex: Seq<char>) -> Option<char> {
    match parse_hex_u32(hex) {
        Some(v) => if is_scalar_value(v) {
            Some(v as char)
        } else {
            None
        },
        None => None,
    }
}

/// `char::from_u32`: a character exactly for the Unicode scalar values.
#[verifier::external_body]
fn char_from_u32(v: u32) -> (r: Option<char>)
    ensures
        r == (if is_scalar_value(v as int) {
            Some(v as char)
        } else {
            None
        }),
{
    char::from_u32(v)
}

pub open spec fn pow16(n: nat) -> nat
    decreases n,
{
    if n == 0 {
        1
    } else {
        16 * pow16((n - 1) as nat)
    }
}

proof fn lemma_hex_digits_bound(d: Seq<char>)
    ensures
        hex_digits_value(d) matches Some(v) ==> 0 <= v < pow16(d.len()),
    decreases d.len(),
{
    if d.len() > 0 {
        lemma_hex_digits_bound(d.drop_last());
    }
}

fn hex_digit_exec(c: char) -> (r: Option<u32>)
    ensures
        match hex_digit(c) {
            Some(x) => r == Some(x as u32),
            None => r is None,
        },
{
    if '0' <= c && c <= '9' {
        Some((c as u32) - 48)
    } else if 'a' <= c && c <= 'f' {
        Some((c as u32) - 87)
    } else if 'A' <= c && c <= 'F' {
        Some((c as u32) - 55)
    } else {
        None
    }
}

/// `u32::from_str_radix(s, 16)` for at most four characters.
fn parse_hex_short(s: &[char]) -> (r: Option<u32>)
    requires
        s@.len() <= 4,
    ensures
        match parse_hex_u32(s@) {
            Some(v) => r matches Some(x) && x as int == v,
            None => r is None,
        },
{
    let n = s.len();
    if n == 0 || (n == 1 && (s[0] == '+' || s[0] == '-')) {
        return None;
    }
    let start: usize = if s[0] == '+' {
        1
    } else {
        0
    };
    let ghost digits = s@.subrange(start as int, n as int);
    assert(digits =~= (if s@.len() > 0 && s@[0] == '+' {
        s@.drop_first()
    } else {
        s@
    }));
    let mut v: u32 = 0;
    let mut k = start;
    while k < n
        invariant
            start <= k <= n,
            n == s@.len(),
            n <= 4,
            digits == s@.subrange(start as int, n as int),
            digits == (if s@.len() > 0 && s@[0] == '+' {
                s@.drop_first()
            } else {
                s@
            }),
            !(s@.len() == 0 || (s@.len() == 1 && (s@[0] == '+' || s@[0] == '-'))),
            hex_digits_value(s@.subrange(start as int, k as int)) == Some(v as int),
            v < pow16((k - start) as nat),
        decreases n - k,
    {
        let ghost prev = s@.subrange(start as int, k as int);
        assert(s@.subrange(start as int, k + 1).drop_last() =~= prev);
        match hex_digit_exec(s[k]) {
            Some(x) => {
                proof {
                    reveal_with_fuel(pow16, 4);
                    assert(pow16((k + 1 - start) as nat) == 16 * pow16((k - start) as nat));
                    assert(k - start <= 3);
                    assert(pow16((k - start) as nat) <= 4096);
                }
                assert(v < 4096);
                v = v * 16 + x;
            },
            None => {
                proof {
                    assert(s@.subrange(start as int, n as int).subrange(0, k - start + 1)
                        =~= s@.subrange(start as int, k + 1));
                    assert(s@.subrange(start as int, k + 1).last() == s@[k as int]);
                    assert(hex_digits_value(s@.subrange(start as int, k + 1)) is None);
                    lemma_hex_prefix_none(s@.subrange(start as int, n as int), (k - start) as int);
                }
                return None;
            },
        }
        k = k + 1;
    }
    assert(s@.subrange(start as int, n as int) == digits);
    proof {
        lemma_hex_digits_bound(digits);
    }
    Some(v)
}

/// A non-digit makes every longer prefix fail too.
proof fn lemma_hex_prefix_none(d: Seq<char>, i: int)
    requires
        0 <= i < d.len(),
        hex_digits_value(d.subrange(0, i + 1)) is None,
    ensures
        hex_digits_value(d) is None,
    decreases d.len() - i,
{
    if i + 1 < d.len() {
        assert(d.subrange(0, i + 2).drop_last() =~= d.subrange(0, i + 1));
        lemma_hex_prefix_none(d, i + 1);
    } else {
        assert(d.subrange(0, i + 1) =~= d);
    }
}

} // verus!

verus! {

/// A JSON string's characters up to its closing quote, appended to `out`:
/// `\uXXXX` gives its character (nothing when the up to four characters
/// after `\u` spell none), `\n`, `\t` and `\r` give a space, and any other
/// escaped character stands for itself. `None` when the text ends first.
pub open spec fn json_unescape(s: Seq<char>, out: Seq<char>) -> Option<Seq<char>>
    decreases s.len(),
{
    if s.len() == 0 {
        None
    } else if s[0] == '"' {
        Some(out)
    } else if s[0] == '\\' {
        if s.len() < 2 {
            None
        } else {
            let e = s[1];
            if e == 'u' {
                let k = if s.len() - 2 < 4 {
                    s.len() - 2
                } else {
                    4
                };
                let rest = s.subrange(2 + k, s.len() as int);
                match unicode_escape(s.subrange(2, 2 + k)) {
                    Some(c) => json_unescape(rest, out.push(c)),
                    None => json_unescape(rest, out),
                }
            } else if e == 'n' || e == 't' || e == 'r' {
                json_unescape(s.subrange(2, s.len() as int), out.push(' '))
            } else {
                json_unescape(s.subrange(2, s.len() as int), out.push(e))
            }
        }
    } else {
        json_unescape(s.subrange(1, s.len() as int), out.push(s[0]))
    }
}

/// What `"key":"` opens.
pub open spec fn json_key_needle(key: Seq<char>) -> Seq<char> {
    seq!['"'] + key + seq!['"', ':', '"']
}

/// The string value that first follows `"key":"` in `body`, unescaped.
pub open spec fn spec_extract_json_string(body: Seq<char>, key: Seq<char>) -> Option<Seq<char>> {
    let needle = json_key_needle(key);
    match find(body, needle) {
        Some(p) => json_unescape(body.skip(p + needle.len()), Seq::empty()),
        None => None,
    }
}

pub fn extract_json_string(body: &str, key: &str) -> (r: Option<String>)
    ensures
        opt_view(r) == spec_extract_json_string(body@, key@),
{
    let s = chars_of(body);
    let mut needle: Vec<char> = Vec::new();
    needle.push('"');
    let k = chars_of(key);
    let kn = k.len();
    for i in 0..kn
        invariant
            kn == k@.len(),
            needle@ == seq!['"'] + k@.subrange(0, i as int),
    {
        needle.push(k[i]);
        assert(needle@ =~= seq!['"'] + k@.subrange(0, i + 1));
    }
    needle.push('"');
    needle.push(':');
    needle.push('"');
    assert(k@.subrange(0, kn as int) =~= k@);
    assert(needle@ =~= json_key_needle(key@));
    let start = match find_chars(&s, &needle) {
        Some(p) => {
            proof {
                crate::text::lemma_find_from_least(s@, needle@, 0);
            }
            assert(s@.len() == s.len());
            p + needle.len()
        },
        None => {
            return None;
        },
    };
    let n = s.len();
    let mut out: Vec<char> = Vec::new();
    let mut pos = start;
    assert(s@.skip(start as int) =~= s@.subrange(start as int, n as int));
    loop
        invariant
            pos <= n,
            n == s@.len(),
            spec_extract_json_string(body@, key@) == json_unescape(
                s@.subrange(pos as int, n as int),
                out@,
            ),
        decreases n - pos,
    {
        let ghost rest = s@.subrange(pos as int, n as int);
        if pos == n {
            return None;
        }
        let c = s[pos];
        if c == '"' {
            return Some(string_of(&out));
        } else if c == '\\' {
            if pos + 1 >= n {
                return None;
            }
            let e = s[pos + 1];
            if e == 'u' {
                let k: usize = if n - pos - 2 < 4 {
                    n - pos - 2
                } else {
                    4
                };
                let hex = slice_chars(&s, pos + 2, pos + 2 + k);
                assert(rest.subrange(2, 2 + k) =~= hex@);
                assert(rest.subrange(2 + k, rest.len() as int) =~= s@.subrange(
                    pos + 2 + k,
                    n as int,
                ));
                match parse_hex_short(&hex) {
                    Some(v) => {
                        assert(parse_hex_u32(hex@) == Some(v as int));
                        match char_from_u32(v) {
                            Some(ch) => {
                                assert(unicode_escape(hex@) == Some(ch));
                                out.push(ch);
                            },
                            None => {
                                assert(unicode_escape(hex@) is None);
                            },
                        }
                    },
                    None => {
                        assert(unicode_escape(hex@) is None);
                    },
                }
                pos = pos + 2 + k;
            } else if e == 'n' || e == 't' || e == 'r' {
                assert(rest.subrange(2, rest.len() as int) =~= s@.subrange(pos + 2, n as int));
                out.push(' ');
                pos = pos + 2;
            } else {
                assert(rest.subrange(2, rest.len() as int) =~= s@.subrange(pos + 2, n as int));
                out.push(e);
                pos = pos + 2;
            }
        } else {
            assert(rest.subrange(1, rest.len() as int) =~= s@.subrange(pos + 1, n as int));
            out.push(c);
            pos = pos + 1;
        }
    }
}

/// The place name that a reply of the place-name endpoint gives: its `name`,
/// trimmed, cut to 100 characters, when it is at least two bytes long.
pub open spec fn spec_place_name_from_body(body: Seq<char>) -> Option<Seq<char>> {
    match spec_extract_json_string(body, "name"@) {
        Some(name) => {
            let t = trim(name);
            if encode_utf8(t).len() < 2 {
                None
            } else {
                Some(
                    t.take(
                        if t.len() < 100 {
                            t.len() as int
                        } else {
                            100
                        },
                    ),
                )
            }
        },
        None => None,
    }
}

/// Every character takes at least one byte; a single character takes one
/// byte exactly when it is ASCII.
proof fn lemma_encoded_len(t: Seq<char>)
    ensures
        encode_utf8(t).len() >= t.len(),
        t.len() == 1 ==> (encode_utf8(t).len() == 1 <==> (t[0] as u32) < 0x80),
    decreases t.len(),
{
    if t.len() > 0 {
        lemma_encoded_len(t.drop_first());
        if t.len() == 1 {
            assert(t.drop_first().len() == 0);
            assert(encode_utf8(t.drop_first()) =~= Seq::<u8>::empty());
        }
    }
}

pub fn place_name_from_body(body: &str) -> (r: Option<String>)
    ensures
        opt_view(r) == spec_place_name_from_body(body@),
{
    let name = match extract_json_string(body, "name") {
        Some(n) => n,
        None => {
            return None;
        },
    };
    let t = trim_chars(&chars_of(name.as_str()));
    proof {
        lemma_encoded_len(t@);
    }
    if t.len() == 0 || (t.len() == 1 && (t[0] as u32) < 0x80) {
        return None;
    }
    let cut: usize = if t.len() < 100 {
        t.len()
    } else {
        100
    };
    let kept = slice_chars(&t, 0, cut);
    assert(kept@ =~= t@.take(cut as int));
    Some(string_of(&kept))
}

} // verus!

verus! {

/// The watcher started with `watcher_flag(kind)` watches a client of `kind`.
pub proof fn law_watcher_flag_round_trip(kind: Kind)
    ensures
        spec_watcher_kind(spec_watcher_flag(kind)) == Some(kind),
{
    reveal_strlit("--rpc-play");
    reveal_strlit("--rpc-studio");
    assert("--rpc-play"@.len() != "--rpc-studio"@.len());
}

/// Text without `=` holds no `placeid=`.
proof fn lemma_no_eq_no_placeid(hay: Seq<char>)
    requires
        !hay.contains('='),
    ensures
        find(hay, "placeid="@) is None,
{
    reveal_strlit("placeid=");
    crate::text::lemma_find_from_least(hay, "placeid="@, 0);
    if let Some(p) = find(hay, "placeid="@) {
        assert(hay.subrange(p, p + 8)[7] == '=');
        assert(hay[p + 7] == '=');
    }
}

/// ASCII lower-casing makes no `=`.
proof fn lemma_lower_no_eq(s: Seq<char>)
    requires
        !s.contains('='),
    ensures
        !ascii_lower(s).contains('='),
{
    if ascii_lower(s).contains('=') {
        let k = choose|k: int| 0 <= k < ascii_lower(s).len() && ascii_lower(s)[k] == '=';
        assert(s[k] != '=');
    }
}

/// An argument without `=` and of another length than `-placeid` names no
/// place.
proof fn lemma_plain_arg_no_place(args: Seq<Seq<char>>, i: int)
    requires
        0 <= i < args.len(),
        !args[i].contains('='),
        args[i].len() != 8,
    ensures
        place_id_at(args, i) is None,
{
    reveal_strlit("-placeid");
    lemma_lower_no_eq(args[i]);
    lemma_no_eq_no_placeid(ascii_lower(args[i]));
}

/// The place that Studio is launched into is the place that the watcher
/// shows: the place id that the launch link gives is found again in the
/// command line built for Studio, unless the task itself names a place.
pub proof fn law_studio_args_carry_place_id(p: crate::uri::SpecPlayParams, id: Seq<char>)
    requires
        p.place_id == Some(id),
        id.len() > 0,
        forall|k: int| 0 <= k < id.len() ==> is_digit(#[trigger] id[k]),
        find(ascii_lower(crate::launcher::studio_task(p)), "placeid="@) is None,
        ascii_lower(crate::launcher::studio_task(p)) != "-placeid"@,
    ensures
        place_id_from(crate::launcher::spec_studio_args(p), 0) == Some(id),
{
    let args = crate::launcher::spec_studio_args(p);
    let task = crate::launcher::studio_task(p);
    reveal_strlit("-a");
    reveal_strlit("-task");
    reveal_strlit("-placeId");
    reveal_strlit("-placeid");
    reveal_strlit("https://api.memora.zip");
    reveal_strlit("/Login/Negotiate.ashx");
    let url = crate::launcher::negotiate_url();
    assert(args[0] == "-a"@);
    assert(args[1] == url);
    assert(args[2] == "-task"@);
    assert(args[3] == task);
    assert(args[4] == "-placeId"@);
    assert(args[5] == id);
    assert(!"-a"@.contains('=')) by {
        assert(forall|k: int| 0 <= k < "-a"@.len() ==> "-a"@[k] != '=');
    }
    assert(!"-task"@.contains('=')) by {
        assert(forall|k: int| 0 <= k < "-task"@.len() ==> "-task"@[k] != '=');
    }
    assert(!url.contains('=')) by {
        assert(forall|k: int| 0 <= k < url.len() ==> url[k] != '=');
    }
    lemma_plain_arg_no_place(args, 0);
    lemma_plain_arg_no_place(args, 1);
    lemma_plain_arg_no_place(args, 2);
    assert(place_id_at(args, 3) is None);
    assert(ascii_lower("-placeId"@) =~= "-placeid"@);
    assert(place_id_at(args, 4) == Some(id));
    reveal_with_fuel(place_id_from, 6);
}

/// A reply that holds `"key":"value"`, with a value free of quotes and
/// backslashes and no earlier `"key":"`, gives back that value.
pub proof fn law_extract_json_string_round_trip(
    pre: Seq<char>,
    key: Seq<char>,
    value: Seq<char>,
    rest: Seq<char>,
)
    requires
        forall|q: int| 0 <= q < pre.len() ==> !occurs_at(pre + json_key_needle(key), json_key_needle(key), q),
        !value.contains('"'),
        !value.contains('\\'),
    ensures
        spec_extract_json_string(pre + json_key_needle(key) + value + seq!['"'] + rest, key) == Some(
            value,
        ),
{
    let needle = json_key_needle(key);
    let body = pre + needle + value + seq!['"'] + rest;
    let p = pre.len() as int;
    assert(body.subrange(p, p + needle.len()) =~= needle);
    assert forall|q: int| 0 <= q < p implies !occurs_at(body, needle, q) by {
        if occurs_at(body, needle, q) {
            assert((pre + needle).subrange(q, q + needle.len()) =~= body.subrange(q, q + needle.len()));
            assert(occurs_at(pre + needle, needle, q));
        }
    }
    crate::text::lemma_find_from_least(body, needle, 0);
    assert(occurs_at(body, needle, p));
    match find(body, needle) {
        Some(q) => {
            if q < p {
                assert(!occurs_at(body, needle, q));
            }
            if q > p {
                assert(!occurs_at(body, needle, p));
            }
        },
        None => {
            assert(!occurs_at(body, needle, p));
        },
    }
    assert(find(body, needle) == Some(p));
    assert(body.skip(p + needle.len()) =~= value + (seq!['"'] + rest));
    lemma_unescape_plain(value, seq!['"'] + rest, Seq::empty());
    assert(Seq::<char>::empty() + value =~= value);
}

/// Plain characters are copied until the closing quote.
proof fn lemma_unescape_plain(value: Seq<char>, tail: Seq<char>, out: Seq<char>)
    requires
        !value.contains('"'),
        !value.contains('\\'),
        tail.len() > 0,
        tail[0] == '"',
    ensures
        json_unescape(value + tail, out) == Some(out + value),
    decreases value.len(),
{
    if value.len() == 0 {
        assert(value + tail =~= tail);
        assert(out + value =~= out);
    } else {
        let s = value + tail;
        assert(s[0] == value[0]);
        assert(value[0] != '"' && value[0] != '\\') by {
            assert(value.contains(value[0]));
        }
        assert(s.subrange(1, s.len() as int) =~= value.drop_first() + tail);
        assert(!value.drop_first().contains('"')) by {
            if value.drop_first().contains('"') {
                let k = choose|k: int|
                    0 <= k < value.drop_first().len() && value.drop_first()[k] == '"';
                assert(value[k + 1] == '"');
            }
        }
        assert(!value.drop_first().contains('\\')) by {
            if value.drop_first().contains('\\') {
                let k = choose|k: int|
                    0 <= k < value.drop_first().len() && value.drop_first()[k] == '\\';
                assert(value[k + 1] == '\\');
            }
        }
        lemma_unescape_plain(value.drop_first(), tail, out.push(value[0]));
        assert(out.push(value[0]) + value.drop_first() =~= out + value);
    }
}

} // verus!
