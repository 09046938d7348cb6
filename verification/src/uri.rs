//! Launch URIs: `scheme:key:value+key:value+...`, with percent-encoded values.
use vstd::prelude::*;
use vstd::utf8::{decode_utf8, encode_utf8, valid_utf8};
use crate::text::{opt_view, chars_of, index_of, index_of_from, lemma_index_of, seq_eq, slice_chars, string_of};

verus! {

/// The value of a hexadecimal digit byte, as `char::to_digit(16)` reads it.
pub open spec fn hex_value(b: u8) -> Option<u8> {
    if 48 <= b && b <= 57 {
        Some((b - 48) as u8)
    } else if 97 <= b && b <= 102 {
        Some((b - 87) as u8)
    } else if 65 <= b && b <= 70 {
        Some((b - 55) as u8)
    } else {
        None
    }
}

/// Percent-decoding of bytes: each `%` followed by two hexadecimal digits
/// becomes the byte they spell; every other byte is kept.
pub open spec fn percent_decode(b: Seq<u8>) -> Seq<u8>
    decreases b.len(),
{
    if b.len() == 0 {
        Seq::empty()
    } else if b[0] == 37 && b.len() >= 3 && hex_value(b[1]) is Some && hex_value(b[2]) is Some {
        seq![(hex_value(b[1]).unwrap() * 16 + hex_value(b[2]).unwrap()) as u8] + percent_decode(
            b.subrange(3, b.len() as int),
        )
    } else {
        seq![b[0]] + percent_decode(b.subrange(1, b.len() as int))
    }
}

/// The characters that `String::from_utf8_lossy` reads from `b`.
pub uninterp spec fn utf8_lossy(b: Seq<u8>) -> Seq<char>;

/// The bytes of `s`, percent-decoded (`percent_encoding::percent_decode_str`,
/// collected). The contract states the crate's decoding rule: `%` and two
/// hexadecimal digits give one byte, any other byte stands for itself.
#[verifier::external_body]
fn percent_decode_bytes(s: &str) -> (r: Vec<u8>)
    ensures
        r@ == percent_decode(encode_utf8(s@)),
{
    percent_encoding::percent_decode_str(s).collect()
}

/// `String::from_utf8_lossy`: the contract names the result, and states that
/// well-formed UTF-8 is decoded as such. How ill-formed sequences are replaced
/// by U+FFFD is not stated.
#[verifier::external_body]
fn utf8_lossy_string(b: &[u8]) -> (r: String)
    ensures
        r@ == utf8_lossy(b@),
        valid_utf8(b@) ==> r@ == decode_utf8(b@),
{
    String::from_utf8_lossy(b).into_owned()
}

/// A launch URI value, percent-decoded and read as UTF-8 lossily.
pub open spec fn decoded_value(v: Seq<char>) -> Seq<char> {
    utf8_lossy(percent_decode(encode_utf8(v)))
}

/// Bytes without `%` are left as they are.
proof fn lemma_percent_decode_plain(b: Seq<u8>)
    requires
        !b.contains(37u8),
    ensures
        percent_decode(b) == b,
    decreases b.len(),
{
    if b.len() > 0 {
        assert(b[0] != 37u8) by {
            assert(b.contains(b[0]));
        }
        let t = b.subrange(1, b.len() as int);
        assert(!t.contains(37u8)) by {
            if t.contains(37u8) {
                let k = choose|k: int| 0 <= k < t.len() && t[k] == 37u8;
                assert(b[k + 1] == 37u8);
            }
        }
        lemma_percent_decode_plain(t);
        assert(seq![b[0]] + t =~= b);
    }
}

/// No byte of a character's UTF-8 encoding is `%` unless the character is.
proof fn lemma_encode_scalar_no_percent(c: char)
    requires
        c != '%',
    ensures
        !vstd::utf8::encode_scalar(c as u32).contains(37u8),
{
    let v = c as u32;
    let e = vstd::utf8::encode_scalar(v);
    if e.contains(37u8) {
        let k = choose|k: int| 0 <= k < e.len() && e[k] == 37u8;
        if vstd::utf8::has_width_1_encoding(v) {
            assert(v <= 0x7F ==> (v & 0x7F) as u8 == v) by (bit_vector);
            assert(v != 37);
        } else {
            assert(0xC0 | ((v >> 6) & 0x1F) as u8 != 37u8) by (bit_vector);
            assert(0xE0 | ((v >> 12) & 0x0F) as u8 != 37u8) by (bit_vector);
            assert(0xF0 | ((v >> 18) & 0x7) as u8 != 37u8) by (bit_vector);
            assert(0x80 | (v & 0x3F) as u8 != 37u8) by (bit_vector);
            assert(0x80 | ((v >> 6) & 0x3F) as u8 != 37u8) by (bit_vector);
            assert(0x80 | ((v >> 12) & 0x3F) as u8 != 37u8) by (bit_vector);
        }
    }
}

/// Text without `%` encodes to bytes without `%`.
proof fn lemma_encode_no_percent(s: Seq<char>)
    requires
        !s.contains('%'),
    ensures
        !encode_utf8(s).contains(37u8),
    decreases s.len(),
{
    if s.len() > 0 {
        assert(s[0] != '%') by {
            assert(s.contains(s[0]));
        }
        assert(!s.drop_first().contains('%')) by {
            if s.drop_first().contains('%') {
                let k = choose|k: int| 0 <= k < s.drop_first().len() && s.drop_first()[k] == '%';
                assert(s[k + 1] == '%');
            }
        }
        lemma_encode_no_percent(s.drop_first());
        lemma_encode_scalar_no_percent(s[0]);
        let a = vstd::utf8::encode_scalar(s[0] as u32);
        let b = encode_utf8(s.drop_first());
        assert(encode_utf8(s) == a + b);
        if (a + b).contains(37u8) {
            let k = choose|k: int| 0 <= k < (a + b).len() && (a + b)[k] == 37u8;
            if k < a.len() {
                assert(a[k] == 37u8);
            } else {
                assert(b[k - a.len()] == 37u8);
            }
        }
    }
}

/// Decodes a launch URI value. A value without `%` is taken as it is, and
/// one whose decoded bytes are well-formed UTF-8 gives the text they encode.
pub fn decode_value(v: &str) -> (r: String)
    ensures
        r@ == decoded_value(v@),
        valid_utf8(percent_decode(encode_utf8(v@))) ==> r@ == decode_utf8(
            percent_decode(encode_utf8(v@)),
        ),
        !v@.contains('%') ==> r@ == v@,
{
    let bytes = percent_decode_bytes(v);
    proof {
        if !v@.contains('%') {
            lemma_encode_no_percent(v@);
            lemma_percent_decode_plain(encode_utf8(v@));
            vstd::utf8::encode_utf8_valid_utf8(v@);
            vstd::utf8::encode_utf8_decode_utf8(v@);
        }
    }
    utf8_lossy_string(bytes.as_slice())
}

/// The parameters that a launch URI carries.
#[derive(Debug)]
pub struct PlayParams {
    pub launchmode: String,
    pub gameinfo: Option<String>,
    pub placelauncherurl: Option<String>,
    pub launchtime: Option<String>,
    pub clientversion: Option<String>,
    pub clientyear: Option<String>,
    pub launchexp: Option<String>,
    pub browsertrackerid: Option<String>,
    pub task: Option<String>,
    pub place_id: Option<String>,
    pub universe_id: Option<String>,
    pub user_id: Option<String>,
    pub script: Option<String>,
}

/// The model of `PlayParams`.
pub struct SpecPlayParams {
    pub launchmode: Seq<char>,
    pub gameinfo: Option<Seq<char>>,
    pub placelauncherurl: Option<Seq<char>>,
    pub launchtime: Option<Seq<char>>,
    pub clientversion: Option<Seq<char>>,
    pub clientyear: Option<Seq<char>>,
    pub launchexp: Option<Seq<char>>,
    pub browsertrackerid: Option<Seq<char>>,
    pub task: Option<Seq<char>>,
    pub place_id: Option<Seq<char>>,
    pub universe_id: Option<Seq<char>>,
    pub user_id: Option<Seq<char>>,
    pub script: Option<Seq<char>>,
}

impl View for PlayParams {
    type V = SpecPlayParams;

    open spec fn view(&self) -> SpecPlayParams {
        SpecPlayParams {
            launchmode: self.launchmode@,
            gameinfo: opt_view(self.gameinfo),
            placelauncherurl: opt_view(self.placelauncherurl),
            launchtime: opt_view(self.launchtime),
            clientversion: opt_view(self.clientversion),
            clientyear: opt_view(self.clientyear),
            launchexp: opt_view(self.launchexp),
            browsertrackerid: opt_view(self.browsertrackerid),
            task: opt_view(self.task),
            place_id: opt_view(self.place_id),
            universe_id: opt_view(self.universe_id),
            user_id: opt_view(self.user_id),
            script: opt_view(self.script),
        }
    }
}

/// No parameter set.
pub open spec fn empty_params() -> SpecPlayParams {
    SpecPlayParams {
        launchmode: Seq::empty(),
        gameinfo: None,
        placelauncherurl: None,
        launchtime: None,
        clientversion: None,
        clientyear: None,
        launchexp: None,
        browsertrackerid: None,
        task: None,
        place_id: None,
        universe_id: None,
        user_id: None,
        script: None,
    }
}

/// `p` with the parameter `key` set to `value`; unknown keys change nothing.
pub open spec fn apply_param(p: SpecPlayParams, key: Seq<char>, value: Seq<char>) -> SpecPlayParams {
    if key == "1"@ || key == "launchmode"@ {
        SpecPlayParams { launchmode: value, ..p }
    } else if key == "gameinfo"@ {
        SpecPlayParams { gameinfo: Some(value), ..p }
    } else if key == "placelauncherurl"@ {
        SpecPlayParams { placelauncherurl: Some(value), ..p }
    } else if key == "launchtime"@ {
        SpecPlayParams { launchtime: Some(value), ..p }
    } else if key == "clientversion"@ {
        SpecPlayParams { clientversion: Some(value), ..p }
    } else if key == "clientyear"@ {
        SpecPlayParams { clientyear: Some(value), ..p }
    } else if key == "launchexp"@ {
        SpecPlayParams { launchexp: Some(value), ..p }
    } else if key == "browsertrackerid"@ {
        SpecPlayParams { browsertrackerid: Some(value), ..p }
    } else if key == "task"@ {
        SpecPlayParams { task: Some(value), ..p }
    } else if key == "placeId"@ || key == "placeid"@ {
        SpecPlayParams { place_id: Some(value), ..p }
    } else if key == "universeId"@ || key == "universeid"@ {
        SpecPlayParams { universe_id: Some(value), ..p }
    } else if key == "userId"@ || key == "userid"@ {
        SpecPlayParams { user_id: Some(value), ..p }
    } else if key == "script"@ {
        SpecPlayParams { script: Some(value), ..p }
    } else {
        p
    }
}

/// One `key:value` token: empty tokens and tokens without `:` are skipped.
pub open spec fn apply_token(p: SpecPlayParams, tok: Seq<char>) -> SpecPlayParams {
    if tok.len() == 0 {
        p
    } else {
        match index_of(tok, ':') {
            Some(j) => apply_param(p, tok.take(j), decoded_value(tok.skip(j + 1))),
            None => p,
        }
    }
}

/// The `+`-separated tokens of `s`, applied in order.
pub open spec fn apply_tokens(p: SpecPlayParams, s: Seq<char>) -> SpecPlayParams
    decreases s.len(),
{
    match index_of(s, '+') {
        Some(i) => {
            proof {
                lemma_index_of(s, '+');
            }
            apply_tokens(apply_token(p, s.take(i)), s.skip(i + 1))
        },
        None => apply_token(p, s),
    }
}

/// What a launch URI says: `None` when it has no `:` after its scheme.
pub open spec fn spec_parse_play_uri(uri: Seq<char>) -> Option<SpecPlayParams> {
    match index_of(uri, ':') {
        Some(i) => Some(apply_tokens(empty_params(), uri.skip(i + 1))),
        None => None,
    }
}

/// Why a launch URI was refused.
#[derive(Debug, PartialEq, Eq, Clone, Copy, Structural)]
pub enum UriError {
    /// The URI has no `:` after its scheme.
    MissingSchemeSeparator,
}

fn key_is(key: &[char], lit: &str) -> (r: bool)
    ensures
        r == (key@ == lit@),
{
    seq_eq(key, &chars_of(lit))
}

impl PlayParams {
    pub fn new() -> (r: PlayParams)
        ensures
            r@ == empty_params(),
    {
        PlayParams {
            launchmode: String::new(),
            gameinfo: None,
            placelauncherurl: None,
            launchtime: None,
            clientversion: None,
            clientyear: None,
            launchexp: None,
            browsertrackerid: None,
            task: None,
            place_id: None,
            universe_id: None,
            user_id: None,
            script: None,
        }
    }

    /// Sets the parameter `key` to the decoded `value`.
    pub fn apply(&mut self, key: &str, value: String)
        ensures
            final(self)@ == apply_param(old(self)@, key@, value@),
    {
        let k = chars_of(key);
        if key_is(&k, "1") || key_is(&k, "launchmode") {
            self.launchmode = value;
        } else if key_is(&k, "gameinfo") {
            self.gameinfo = Some(value);
        } else if key_is(&k, "placelauncherurl") {
            self.placelauncherurl = Some(value);
        } else if key_is(&k, "launchtime") {
            self.launchtime = Some(value);
        } else if key_is(&k, "clientversion") {
            self.clientversion = Some(value);
        } else if key_is(&k, "clientyear") {
            self.clientyear = Some(value);
        } else if key_is(&k, "launchexp") {
            self.launchexp = Some(value);
        } else if key_is(&k, "browsertrackerid") {
            self.browsertrackerid = Some(value);
        } else if key_is(&k, "task") {
            self.task = Some(value);
        } else if key_is(&k, "placeId") || key_is(&k, "placeid") {
            self.place_id = Some(value);
        } else if key_is(&k, "universeId") || key_is(&k, "universeid") {
            self.universe_id = Some(value);
        } else if key_is(&k, "userId") || key_is(&k, "userid") {
            self.user_id = Some(value);
        } else if key_is(&k, "script") {
            self.script = Some(value);
        }
    }
}

impl Default for PlayParams {
    fn default() -> (r: PlayParams)
        ensures
            r@ == empty_params(),
    {
        PlayParams::new()
    }
}

/// Applies the token `s[from..to]`.
fn apply_token_exec(p: &mut PlayParams, s: &[char], from: usize, to: usize)
    requires
        from <= to <= s@.len(),
    ensures
        final(p)@ == apply_token(old(p)@, s@.subrange(from as int, to as int)),
{
    let tok = slice_chars(s, from, to);
    if tok.len() == 0 {
        return;
    }
    assert(tok@.subrange(0, tok@.len() as int) =~= tok@);
    proof {
        lemma_index_of(tok@, ':');
    }
    match index_of_from(&tok, ':', 0) {
        Some(j) => {
            let key = string_of(&slice_chars(&tok, 0, j));
            let raw = string_of(&slice_chars(&tok, j + 1, tok.len()));
            let value = decode_value(raw.as_str());
            assert(tok@.subrange(0, j as int) =~= tok@.take(j as int));
            assert(tok@.subrange(j + 1, tok@.len() as int) =~= tok@.skip(j + 1));
            p.apply(key.as_str(), value);
        },
        None => {},
    }
}

/// Reads a launch URI.
pub fn parse_play_uri(uri: &str) -> (r: Result<PlayParams, UriError>)
    ensures
        match spec_parse_play_uri(uri@) {
            Some(sp) => r matches Ok(p) && p@ == sp,
            None => r == Err::<PlayParams, UriError>(UriError::MissingSchemeSeparator),
        },
{
    let s = chars_of(uri);
    let n = s.len();
    assert(s@.subrange(0, n as int) =~= s@);
    let colon = match index_of_from(&s, ':', 0) {
        Some(i) => i,
        None => {
            return Err(UriError::MissingSchemeSeparator);
        },
    };
    proof {
        lemma_index_of(s@, ':');
    }
    let mut p = PlayParams::new();
    let mut pos = colon + 1;
    assert(s@.subrange(pos as int, n as int) =~= s@.skip(colon + 1));
    loop
        invariant
            pos <= n,
            n == s@.len(),
            spec_parse_play_uri(uri@) == Some(apply_tokens(p@, s@.subrange(pos as int, n as int))),
        decreases n - pos,
    {
        let ghost rest = s@.subrange(pos as int, n as int);
        proof {
            lemma_index_of(rest, '+');
        }
        match index_of_from(&s, '+', pos) {
            Some(plus) => {
                let ghost i = plus - pos;
                assert(rest.take(i) =~= s@.subrange(pos as int, plus as int));
                assert(rest.skip(i + 1) =~= s@.subrange(plus + 1, n as int));
                apply_token_exec(&mut p, &s, pos, plus);
                pos = plus + 1;
            },
            None => {
                apply_token_exec(&mut p, &s, pos, n);
                return Ok(p);
            },
        }
    }
}

} // verus!

verus! {

/// Each key of a launch link sets its own parameter, under every name it
/// goes by (`1` and `launchmode`; `placeId` and `placeid`; `universeId` and
/// `universeid`; `userId` and `userid`), to the value given, and leaves the
/// others as they were.
pub proof fn law_each_key_sets_its_field(p: SpecPlayParams, v: Seq<char>)
    ensures
        apply_param(p, "1"@, v) == (SpecPlayParams { launchmode: v, ..p }),
        apply_param(p, "launchmode"@, v) == (SpecPlayParams { launchmode: v, ..p }),
        apply_param(p, "gameinfo"@, v) == (SpecPlayParams { gameinfo: Some(v), ..p }),
        apply_param(p, "placelauncherurl"@, v) == (SpecPlayParams { placelauncherurl: Some(v), ..p }),
        apply_param(p, "launchtime"@, v) == (SpecPlayParams { launchtime: Some(v), ..p }),
        apply_param(p, "clientversion"@, v) == (SpecPlayParams { clientversion: Some(v), ..p }),
        apply_param(p, "clientyear"@, v) == (SpecPlayParams { clientyear: Some(v), ..p }),
        apply_param(p, "launchexp"@, v) == (SpecPlayParams { launchexp: Some(v), ..p }),
        apply_param(p, "browsertrackerid"@, v) == (SpecPlayParams { browsertrackerid: Some(v), ..p }),
        apply_param(p, "task"@, v) == (SpecPlayParams { task: Some(v), ..p }),
        apply_param(p, "placeId"@, v) == (SpecPlayParams { place_id: Some(v), ..p }),
        apply_param(p, "placeid"@, v) == (SpecPlayParams { place_id: Some(v), ..p }),
        apply_param(p, "universeId"@, v) == (SpecPlayParams { universe_id: Some(v), ..p }),
        apply_param(p, "universeid"@, v) == (SpecPlayParams { universe_id: Some(v), ..p }),
        apply_param(p, "userId"@, v) == (SpecPlayParams { user_id: Some(v), ..p }),
        apply_param(p, "userid"@, v) == (SpecPlayParams { user_id: Some(v), ..p }),
        apply_param(p, "script"@, v) == (SpecPlayParams { script: Some(v), ..p }),
{
    reveal_strlit("1");
    reveal_strlit("launchmode");
    reveal_strlit("gameinfo");
    reveal_strlit("placelauncherurl");
    reveal_strlit("launchtime");
    reveal_strlit("clientversion");
    reveal_strlit("clientyear");
    reveal_strlit("launchexp");
    reveal_strlit("browsertrackerid");
    reveal_strlit("task");
    reveal_strlit("placeId");
    reveal_strlit("placeid");
    reveal_strlit("universeId");
    reveal_strlit("universeid");
    reveal_strlit("userId");
    reveal_strlit("userid");
    reveal_strlit("script");
    // The keys differ pairwise: by length, else at some character.
    assert("launchmode"@.len() != "1"@.len());
    assert("gameinfo"@.len() != "1"@.len());
    assert("gameinfo"@.len() != "launchmode"@.len());
    assert("placelauncherurl"@.len() != "1"@.len());
    assert("placelauncherurl"@.len() != "launchmode"@.len());
    assert("placelauncherurl"@.len() != "gameinfo"@.len());
    assert("launchtime"@.len() != "1"@.len());
    assert("launchtime"@[6] != "launchmode"@[6]);
    assert("launchtime"@.len() != "gameinfo"@.len());
    assert("launchtime"@.len() != "placelauncherurl"@.len());
    assert("clientversion"@.len() != "1"@.len());
    assert("clientversion"@.len() != "launchmode"@.len());
    assert("clientversion"@.len() != "gameinfo"@.len());
    assert("clientversion"@.len() != "placelauncherurl"@.len());
    assert("clientversion"@.len() != "launchtime"@.len());
    assert("clientyear"@.len() != "1"@.len());
    assert("clientyear"@[0] != "launchmode"@[0]);
    assert("clientyear"@.len() != "gameinfo"@.len());
    assert("clientyear"@.len() != "placelauncherurl"@.len());
    assert("clientyear"@[0] != "launchtime"@[0]);
    assert("clientyear"@.len() != "clientversion"@.len());
    assert("launchexp"@.len() != "1"@.len());
    assert("launchexp"@.len() != "launchmode"@.len());
    assert("launchexp"@.len() != "gameinfo"@.len());
    assert("launchexp"@.len() != "placelauncherurl"@.len());
    assert("launchexp"@.len() != "launchtime"@.len());
    assert("launchexp"@.len() != "clientversion"@.len());
    assert("launchexp"@.len() != "clientyear"@.len());
    assert("browsertrackerid"@.len() != "1"@.len());
    assert("browsertrackerid"@.len() != "launchmode"@.len());
    assert("browsertrackerid"@.len() != "gameinfo"@.len());
    assert("browsertrackerid"@[0] != "placelauncherurl"@[0]);
    assert("browsertrackerid"@.len() != "launchtime"@.len());
    assert("browsertrackerid"@.len() != "clientversion"@.len());
    assert("browsertrackerid"@.len() != "clientyear"@.len());
    assert("browsertrackerid"@.len() != "launchexp"@.len());
    assert("task"@.len() != "1"@.len());
    assert("task"@.len() != "launchmode"@.len());
    assert("task"@.len() != "gameinfo"@.len());
    assert("task"@.len() != "placelauncherurl"@.len());
    assert("task"@.len() != "launchtime"@.len());
    assert("task"@.len() != "clientversion"@.len());
    assert("task"@.len() != "clientyear"@.len());
    assert("task"@.len() != "launchexp"@.len());
    assert("task"@.len() != "browsertrackerid"@.len());
    assert("placeId"@.len() != "1"@.len());
    assert("placeId"@.len() != "launchmode"@.len());
    assert("placeId"@.len() != "gameinfo"@.len());
    assert("placeId"@.len() != "placelauncherurl"@.len());
    assert("placeId"@.len() != "launchtime"@.len());
    assert("placeId"@.len() != "clientversion"@.len());
    assert("placeId"@.len() != "clientyear"@.len());
    assert("placeId"@.len() != "launchexp"@.len());
    assert("placeId"@.len() != "browsertrackerid"@.len());
    assert("placeId"@.len() != "task"@.len());
    assert("placeid"@.len() != "1"@.len());
    assert("placeid"@.len() != "launchmode"@.len());
    assert("placeid"@.len() != "gameinfo"@.len());
    assert("placeid"@.len() != "placelauncherurl"@.len());
    assert("placeid"@.len() != "launchtime"@.len());
    assert("placeid"@.len() != "clientversion"@.len());
    assert("placeid"@.len() != "clientyear"@.len());
    assert("placeid"@.len() != "launchexp"@.len());
    assert("placeid"@.len() != "browsertrackerid"@.len());
    assert("placeid"@.len() != "task"@.len());
    assert("placeid"@[5] != "placeId"@[5]);
    assert("universeId"@.len() != "1"@.len());
    assert("universeId"@[0] != "launchmode"@[0]);
    assert("universeId"@.len() != "gameinfo"@.len());
    assert("universeId"@.len() != "placelauncherurl"@.len());
    assert("universeId"@[0] != "launchtime"@[0]);
    assert("universeId"@.len() != "clientversion"@.len());
    assert("universeId"@[0] != "clientyear"@[0]);
    assert("universeId"@.len() != "launchexp"@.len());
    assert("universeId"@.len() != "browsertrackerid"@.len());
    assert("universeId"@.len() != "task"@.len());
    assert("universeId"@.len() != "placeId"@.len());
    assert("universeId"@.len() != "placeid"@.len());
    assert("universeid"@.len() != "1"@.len());
    assert("universeid"@[0] != "launchmode"@[0]);
    assert("universeid"@.len() != "gameinfo"@.len());
    assert("universeid"@.len() != "placelauncherurl"@.len());
    assert("universeid"@[0] != "launchtime"@[0]);
    assert("universeid"@.len() != "clientversion"@.len());
    assert("universeid"@[0] != "clientyear"@[0]);
    assert("universeid"@.len() != "launchexp"@.len());
    assert("universeid"@.len() != "browsertrackerid"@.len());
    assert("universeid"@.len() != "task"@.len());
    assert("universeid"@.len() != "placeId"@.len());
    assert("universeid"@.len() != "placeid"@.len());
    assert("universeid"@[8] != "universeId"@[8]);
    assert("userId"@.len() != "1"@.len());
    assert("userId"@.len() != "launchmode"@.len());
    assert("userId"@.len() != "gameinfo"@.len());
    assert("userId"@.len() != "placelauncherurl"@.len());
    assert("userId"@.len() != "launchtime"@.len());
    assert("userId"@.len() != "clientversion"@.len());
    assert("userId"@.len() != "clientyear"@.len());
    assert("userId"@.len() != "launchexp"@.len());
    assert("userId"@.len() != "browsertrackerid"@.len());
    assert("userId"@.len() != "task"@.len());
    assert("userId"@.len() != "placeId"@.len());
    assert("userId"@.len() != "placeid"@.len());
    assert("userId"@.len() != "universeId"@.len());
    assert("userId"@.len() != "universeid"@.len());
    assert("userid"@.len() != "1"@.len());
    assert("userid"@.len() != "launchmode"@.len());
    assert("userid"@.len() != "gameinfo"@.len());
    assert("userid"@.len() != "placelauncherurl"@.len());
    assert("userid"@.len() != "launchtime"@.len());
    assert("userid"@.len() != "clientversion"@.len());
    assert("userid"@.len() != "clientyear"@.len());
    assert("userid"@.len() != "launchexp"@.len());
    assert("userid"@.len() != "browsertrackerid"@.len());
    assert("userid"@.len() != "task"@.len());
    assert("userid"@.len() != "placeId"@.len());
    assert("userid"@.len() != "placeid"@.len());
    assert("userid"@.len() != "universeId"@.len());
    assert("userid"@.len() != "universeid"@.len());
    assert("userid"@[4] != "userId"@[4]);
    assert("script"@.len() != "1"@.len());
    assert("script"@.len() != "launchmode"@.len());
    assert("script"@.len() != "gameinfo"@.len());
    assert("script"@.len() != "placelauncherurl"@.len());
    assert("script"@.len() != "launchtime"@.len());
    assert("script"@.len() != "clientversion"@.len());
    assert("script"@.len() != "clientyear"@.len());
    assert("script"@.len() != "launchexp"@.len());
    assert("script"@.len() != "browsertrackerid"@.len());
    assert("script"@.len() != "task"@.len());
    assert("script"@.len() != "placeId"@.len());
    assert("script"@.len() != "placeid"@.len());
    assert("script"@.len() != "universeId"@.len());
    assert("script"@.len() != "universeid"@.len());
    assert("script"@[0] != "userId"@[0]);
    assert("script"@[0] != "userid"@[0]);
}

} // verus!
