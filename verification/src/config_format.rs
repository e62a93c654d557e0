//! The configuration file format: a flat `key = value` document.
//!
//! [`Config::encode`] renders a record as one line per field, a string
//! value quoted with backslash escapes and an integer value in decimal.
//! [`Config::parse`] reads such a document back: unknown keys are ignored
//! and missing keys fall back to their defaults, so that a file needs to
//! mention only the fields it wants to change.  Parsing and encoding are
//! exact inverses; see [`lemma_config_round_trip`].

use vstd::prelude::*;
use vstd::string::StrSliceExecFns;
use crate::config::Config;
use crate::config::ConfigModel;
use crate::config::ConfigPatch;
use crate::config::PatchModel;
use crate::config::spec_empty_patch;
use crate::config::spec_resolve;
use crate::decimal::lemma_dec_roundtrip;
use crate::decimal::parse_u32_chars;
use crate::decimal::push_u32;
use crate::decimal::spec_dec;
use crate::decimal::spec_is_digit;
use crate::decimal::spec_parse_u32;
use crate::error::AppError;

verus! {

/// Relies on std's `String::push`: appends exactly the given character.
pub assume_specification[ String::push ](s: &mut String, c: char)
    ensures
        final(s)@ == old(s)@.push(c),
;

// ---------------------------------------------------------------------------
// Characters of a string
// ---------------------------------------------------------------------------

/// The characters of `s` as a vector, in order.
fn chars_vec(s: &str) -> (v: Vec<char>)
    ensures
        v@ == s@,
{
    let n = s.unicode_len();
    let mut v: Vec<char> = Vec::new();
    let mut i: usize = 0;
    while i < n
        invariant
            i <= n,
            n == s@.len(),
            v@ == s@.take(i as int),
        decreases n - i,
    {
        let c = s.get_char(i);
        v.push(c);
        i = i + 1;
        proof {
            assert(s@.take(i as int) =~= s@.take(i - 1).push(s@[i - 1]));
        }
    }
    proof {
        assert(s@.take(n as int) =~= s@);
    }
    v
}

/// Copy of the characters of `v` between `from` (inclusive) and `to`
/// (exclusive).
fn copy_range(v: &Vec<char>, from: usize, to: usize) -> (r: Vec<char>)
    requires
        from <= to <= v@.len(),
    ensures
        r@ == v@.subrange(from as int, to as int),
{
    let mut r: Vec<char> = Vec::new();
    let mut i: usize = from;
    while i < to
        invariant
            from <= i <= to <= v@.len(),
            r@ == v@.subrange(from as int, i as int),
        decreases to - i,
    {
        let c = v[i];
        r.push(c);
        i = i + 1;
        proof {
            assert(v@.subrange(from as int, i as int) =~= v@.subrange(
                from as int,
                i - 1,
            ).push(v@[i - 1]));
        }
    }
    r
}

// ---------------------------------------------------------------------------
// String escaping
// ---------------------------------------------------------------------------

/// How one character is rendered inside a quoted value.
pub open spec fn spec_escape_char(c: char) -> Seq<char> {
    if c == '\\' {
        seq!['\\', '\\']
    } else if c == '"' {
        seq!['\\', '"']
    } else if c == '\n' {
        seq!['\\', 'n']
    } else if c == '\r' {
        seq!['\\', 'r']
    } else {
        seq![c]
    }
}

/// The escaped rendering of a whole string.
pub open spec fn spec_escape(s: Seq<char>) -> Seq<char>
    decreases s.len(),
{
    if s.len() == 0 {
        Seq::empty()
    } else {
        spec_escape_char(s[0]) + spec_escape(s.skip(1))
    }
}

proof fn lemma_escape_snoc(s: Seq<char>, c: char)
    ensures
        spec_escape(s.push(c)) == spec_escape(s) + spec_escape_char(c),
    decreases s.len(),
{
    if s.len() == 0 {
        assert(s.push(c)[0] == c);
        assert(s.push(c).skip(1) =~= Seq::<char>::empty());
        assert(spec_escape(Seq::<char>::empty()) =~= Seq::<char>::empty());
        assert(spec_escape(s.push(c)) == spec_escape_char(c) + spec_escape(
            Seq::<char>::empty(),
        ));
        assert(spec_escape(s.push(c)) =~= spec_escape_char(c));
        assert(spec_escape(s) + spec_escape_char(c) =~= spec_escape_char(c));
    } else {
        assert(s.push(c)[0] == s[0]);
        assert(s.push(c).skip(1) =~= s.skip(1).push(c));
        lemma_escape_snoc(s.skip(1), c);
        assert(spec_escape(s.push(c)) =~= spec_escape(s) + spec_escape_char(c));
    }
}

/// No escaped rendering contains a raw line break.
proof fn lemma_escape_no_newline(s: Seq<char>)
    ensures
        forall|i: int| 0 <= i < spec_escape(s).len() ==> spec_escape(s)[i] != '\n',
    decreases s.len(),
{
    if s.len() > 0 {
        lemma_escape_no_newline(s.skip(1));
        assert forall|i: int| 0 <= i < spec_escape(s).len() implies spec_escape(s)[i]
            != '\n' by {
            let head = spec_escape_char(s[0]);
            if i < head.len() {
                assert(spec_escape(s)[i] == head[i]);
            } else {
                assert(spec_escape(s)[i] == spec_escape(s.skip(1))[i - head.len()]);
            }
        }
    }
}

/// Append the escaped rendering of `val` to `out`.
fn append_escaped(out: &mut String, val: &Vec<char>)
    ensures
        final(out)@ == old(out)@ + spec_escape(val@),
{
    let n = val.len();
    let mut i: usize = 0;
    proof {
        assert(out@ + spec_escape(val@.take(0)) =~= out@);
    }
    while i < n
        invariant
            i <= n,
            n == val@.len(),
            out@ == old(out)@ + spec_escape(val@.take(i as int)),
        decreases n - i,
    {
        let c = val[i];
        if c == '\\' {
            out.push('\\');
            out.push('\\');
        } else if c == '"' {
            out.push('\\');
            out.push('"');
        } else if c == '\n' {
            out.push('\\');
            out.push('n');
        } else if c == '\r' {
            out.push('\\');
            out.push('r');
        } else {
            out.push(c);
        }
        i = i + 1;
        proof {
            assert(val@.take(i as int) =~= val@.take(i - 1).push(val@[i - 1]));
            lemma_escape_snoc(val@.take(i - 1), val@[i - 1]);
            assert(out@ =~= old(out)@ + spec_escape(val@.take(i as int)));
        }
    }
    proof {
        assert(val@.take(n as int) =~= val@);
    }
}


// ---------------------------------------------------------------------------
// Unescaping
// ---------------------------------------------------------------------------

/// The character denoted by a backslash escape, if the escape is valid.
pub open spec fn spec_unescape_char(c: char) -> Option<char> {
    if c == '\\' {
        Some('\\')
    } else if c == '"' {
        Some('"')
    } else if c == 'n' {
        Some('\n')
    } else if c == 'r' {
        Some('\r')
    } else {
        None
    }
}

/// Inverse of [`spec_escape`]: `None` on a malformed escape sequence.
pub open spec fn spec_unescape(s: Seq<char>) -> Option<Seq<char>>
    decreases s.len(),
{
    if s.len() == 0 {
        Some(Seq::empty())
    } else if s[0] == '\\' {
        if s.len() >= 2 {
            match spec_unescape_char(s[1]) {
                None => None,
                Some(c) => match spec_unescape(s.skip(2)) {
                    None => None,
                    Some(r) => Some(seq![c] + r),
                },
            }
        } else {
            None
        }
    } else {
        match spec_unescape(s.skip(1)) {
            None => None,
            Some(r) => Some(seq![s[0]] + r),
        }
    }
}

/// Unescaping undoes escaping, for every string.
proof fn lemma_unescape_escape(s: Seq<char>)
    ensures
        spec_unescape(spec_escape(s)) == Some(s),
    decreases s.len(),
{
    if s.len() == 0 {
        assert(s =~= Seq::<char>::empty());
    } else {
        let h = spec_escape_char(s[0]);
        let t = spec_escape(s.skip(1));
        let e = spec_escape(s);
        assert(e == h + t);
        lemma_unescape_escape(s.skip(1));
        if s[0] == '\\' || s[0] == '"' || s[0] == '\n' || s[0] == '\r' {
            assert(h.len() == 2);
            assert(h[0] == '\\');
            assert(e[0] == '\\');
            assert(e[1] == h[1]);
            assert(spec_unescape_char(h[1]) == Some(s[0]));
            assert(e.skip(2) =~= t);
            assert(spec_unescape(e) == Some(seq![s[0]] + s.skip(1)));
            assert(seq![s[0]] + s.skip(1) =~= s);
        } else {
            assert(h == seq![s[0]]);
            assert(e[0] == s[0]);
            assert(e.skip(1) =~= t);
            assert(spec_unescape(e) == Some(seq![s[0]] + s.skip(1)));
            assert(seq![s[0]] + s.skip(1) =~= s);
        }
    }
}

fn unescape_char(c: char) -> (r: Option<char>)
    ensures
        r == spec_unescape_char(c),
{
    if c == '\\' {
        Some('\\')
    } else if c == '"' {
        Some('"')
    } else if c == 'n' {
        Some('\n')
    } else if c == 'r' {
        Some('\r')
    } else {
        None
    }
}

/// Unescape a whole character vector into a string.
fn unescape_chars(v: &Vec<char>) -> (r: Option<String>)
    ensures
        r is Some <==> spec_unescape(v@) is Some,
        r matches Some(s) ==> Some(s@) == spec_unescape(v@),
{
    let n = v.len();
    let mut out = String::new();
    let mut i: usize = 0;
    proof {
        assert(v@.skip(0) =~= v@);
        match spec_unescape(v@) {
            Some(rr) => {
                assert(out@ + rr =~= rr);
            },
            None => {},
        }
    }
    while i < n
        invariant
            i <= n,
            n == v@.len(),
            spec_unescape(v@) == match spec_unescape(v@.skip(i as int)) {
                Some(r) => Some(out@ + r),
                None => None::<Seq<char>>,
            },
        decreases n - i,
    {
        let ghost tail = v@.skip(i as int);
        let c = v[i];
        proof {
            assert(tail[0] == c);
        }
        if c == '\\' {
            if i + 1 >= n {
                proof {
                    assert(tail.len() == 1);
                    assert(spec_unescape(tail) is None);
                }
                return None;
            }
            let c2 = v[i + 1];
            proof {
                assert(tail[1] == c2);
            }
            match unescape_char(c2) {
                None => {
                    proof {
                        assert(spec_unescape(tail) is None);
                    }
                    return None;
                },
                Some(dc) => {
                    let ghost out0 = out@;
                    out.push(dc);
                    proof {
                        assert(tail.skip(2) =~= v@.skip(i + 2));
                        match spec_unescape(v@.skip(i + 2)) {
                            Some(rr) => {
                                assert(spec_unescape(tail) == Some(seq![dc] + rr));
                                assert(out0 + (seq![dc] + rr) =~= out@ + rr);
                            },
                            None => {
                                assert(spec_unescape(tail) is None);
                            },
                        }
                    }
                    i = i + 2;
                },
            }
        } else {
            let ghost out0 = out@;
            out.push(c);
            proof {
                assert(tail.skip(1) =~= v@.skip(i + 1));
                match spec_unescape(v@.skip(i + 1)) {
                    Some(rr) => {
                        assert(spec_unescape(tail) == Some(seq![c] + rr));
                        assert(out0 + (seq![c] + rr) =~= out@ + rr);
                    },
                    None => {
                        assert(spec_unescape(tail) is None);
                    },
                }
            }
            i = i + 1;
        }
    }
    proof {
        assert(v@.skip(n as int) =~= Seq::<char>::empty());
    }
    Some(out)
}

// ---------------------------------------------------------------------------
// Scanning
// ---------------------------------------------------------------------------

/// Length of the longest prefix of `s` free of `stop`.
pub open spec fn spec_scan(s: Seq<char>, stop: char) -> nat
    decreases s.len(),
{
    if s.len() == 0 {
        0
    } else if s[0] == stop {
        0
    } else {
        1 + spec_scan(s.skip(1), stop)
    }
}

proof fn lemma_scan_bounds(s: Seq<char>, stop: char)
    ensures
        spec_scan(s, stop) <= s.len(),
        forall|i: int| 0 <= i < spec_scan(s, stop) ==> s[i] != stop,
        spec_scan(s, stop) < s.len() ==> s[spec_scan(s, stop) as int] == stop,
    decreases s.len(),
{
    if s.len() > 0 && s[0] != stop {
        lemma_scan_bounds(s.skip(1), stop);
        assert forall|i: int| 0 <= i < spec_scan(s, stop) implies s[i] != stop by {
            if i > 0 {
                assert(s.skip(1)[i - 1] == s[i]);
            }
        }
        if spec_scan(s, stop) < s.len() {
            assert(s.skip(1)[spec_scan(s.skip(1), stop) as int] == s[spec_scan(s, stop) as int]);
        }
    }
}

/// The scan finds exactly the planted position of `stop`.
proof fn lemma_scan_val(s: Seq<char>, stop: char, k: int)
    requires
        0 <= k <= s.len(),
        forall|i: int| 0 <= i < k ==> s[i] != stop,
        k < s.len() ==> s[k] == stop,
    ensures
        spec_scan(s, stop) == k,
    decreases k,
{
    if k == 0 {
        if s.len() > 0 {
            assert(s[0] == stop);
        }
    } else {
        assert(s[0] != stop);
        assert forall|i: int| 0 <= i < k - 1 implies s.skip(1)[i] != stop by {
            assert(s.skip(1)[i] == s[i + 1]);
        }
        if k - 1 < s.skip(1).len() {
            assert(s.skip(1)[k - 1] == s[k]);
        }
        lemma_scan_val(s.skip(1), stop, k - 1);
    }
}

// ---------------------------------------------------------------------------
// Lines of the document
// ---------------------------------------------------------------------------

/// A parsed right-hand side: a quoted string or a decimal integer.
pub enum ValModel {
    VStr(Seq<char>),
    VInt(u32),
}

/// What a right-hand side means.
pub open spec fn spec_parse_value(v: Seq<char>) -> Option<ValModel> {
    if v.len() >= 1 && v[0] == '"' {
        if v.len() >= 2 && v[v.len() - 1] == '"' {
            match spec_unescape(v.subrange(1, v.len() - 1)) {
                Some(s) => Some(ValModel::VStr(s)),
                None => None,
            }
        } else {
            None
        }
    } else {
        match spec_parse_u32(v) {
            Some(n) => Some(ValModel::VInt(n)),
            None => None,
        }
    }
}

/// What one non-empty line means: a key, the separator ` = `, a value.
pub open spec fn spec_parse_line(line: Seq<char>) -> Option<(Seq<char>, ValModel)> {
    let k = spec_scan(line, ' ') as int;
    if k + 3 > line.len() {
        None
    } else if line[k + 1] != '=' || line[k + 2] != ' ' {
        None
    } else {
        match spec_parse_value(line.skip(k + 3)) {
            Some(v) => Some((line.take(k), v)),
            None => None,
        }
    }
}

/// Apply one entry to a partial record.
///
/// A known key sets its field, rejecting a value of the wrong type; an
/// unknown key is ignored.
pub open spec fn spec_apply(p: PatchModel, key: Seq<char>, val: ValModel) -> Option<PatchModel> {
    if key == "code_model"@ {
        match val {
            ValModel::VStr(s) => Some(PatchModel { code_model: Some(s), ..p }),
            ValModel::VInt(_) => None,
        }
    } else if key == "chat_model"@ {
        match val {
            ValModel::VStr(s) => Some(PatchModel { chat_model: Some(s), ..p }),
            ValModel::VInt(_) => None,
        }
    } else if key == "code_temperature_milli"@ {
        match val {
            ValModel::VInt(n) => Some(PatchModel { code_temperature_milli: Some(n), ..p }),
            ValModel::VStr(_) => None,
        }
    } else if key == "chat_temperature_milli"@ {
        match val {
            ValModel::VInt(n) => Some(PatchModel { chat_temperature_milli: Some(n), ..p }),
            ValModel::VStr(_) => None,
        }
    } else if key == "code_api_key_env"@ {
        match val {
            ValModel::VStr(s) => Some(PatchModel { code_api_key_env: Some(s), ..p }),
            ValModel::VInt(_) => None,
        }
    } else if key == "chat_api_key_env"@ {
        match val {
            ValModel::VStr(s) => Some(PatchModel { chat_api_key_env: Some(s), ..p }),
            ValModel::VInt(_) => None,
        }
    } else if key == "code_api_url"@ {
        match val {
            ValModel::VStr(s) => Some(PatchModel { code_api_url: Some(s), ..p }),
            ValModel::VInt(_) => None,
        }
    } else if key == "chat_api_url"@ {
        match val {
            ValModel::VStr(s) => Some(PatchModel { chat_api_url: Some(s), ..p }),
            ValModel::VInt(_) => None,
        }
    } else if key == "max_tokens_code"@ {
        match val {
            ValModel::VInt(n) => Some(PatchModel { max_tokens_code: Some(n), ..p }),
            ValModel::VStr(_) => None,
        }
    } else if key == "max_tokens_chat"@ {
        match val {
            ValModel::VInt(n) => Some(PatchModel { max_tokens_chat: Some(n), ..p }),
            ValModel::VStr(_) => None,
        }
    } else if key == "log_directory"@ {
        match val {
            ValModel::VStr(s) => Some(PatchModel { log_directory: Some(s), ..p }),
            ValModel::VInt(_) => None,
        }
    } else if key == "config_path"@ {
        match val {
            ValModel::VStr(s) => Some(PatchModel { config_path: Some(s), ..p }),
            ValModel::VInt(_) => None,
        }
    } else {
        Some(p)
    }
}

/// Parse one line and apply it.
pub open spec fn spec_line_apply(p: PatchModel, line: Seq<char>) -> Option<PatchModel> {
    match spec_parse_line(line) {
        None => None,
        Some(e) => spec_apply(p, e.0, e.1),
    }
}

/// Fold the whole document, line by line, over a partial record.
pub open spec fn spec_parse_into(s: Seq<char>, p: PatchModel) -> Option<PatchModel>
    decreases s.len(),
{
    if s.len() == 0 {
        Some(p)
    } else {
        let ll = spec_scan(s, '\n');
        if ll >= s.len() {
            spec_line_apply(p, s)
        } else {
            let line = s.take(ll as int);
            let rest = s.skip(ll as int + 1);
            if ll == 0 {
                spec_parse_into(rest, p)
            } else {
                match spec_line_apply(p, line) {
                    None => None,
                    Some(p2) => spec_parse_into(rest, p2),
                }
            }
        }
    }
}

/// What a whole document means: the fold resolved against the defaults.
pub open spec fn spec_parse_config(s: Seq<char>) -> Option<ConfigModel> {
    match spec_parse_into(s, spec_empty_patch()) {
        None => None,
        Some(p) => Some(spec_resolve(p)),
    }
}

// ---------------------------------------------------------------------------
// Executable parsing
// ---------------------------------------------------------------------------

/// Compare a character range with a literal.
fn range_eq(v: &Vec<char>, from: usize, to: usize, lit: &str) -> (r: bool)
    requires
        from <= to <= v@.len(),
    ensures
        r == (v@.subrange(from as int, to as int) == lit@),
{
    let n = lit.unicode_len();
    if to - from != n {
        proof {
            assert(v@.subrange(from as int, to as int).len() != lit@.len());
        }
        return false;
    }
    let mut t: usize = 0;
    while t < n
        invariant
            t <= n,
            n == lit@.len(),
            from + n == to,
            to <= v@.len(),
            forall|i: int| 0 <= i < t ==> v@[from + i] == lit@[i],
        decreases n - t,
    {
        let a = v[from + t];
        let b = lit.get_char(t);
        if a != b {
            proof {
                assert(v@.subrange(from as int, to as int)[t as int] != lit@[t as int]);
            }
            return false;
        }
        t = t + 1;
    }
    proof {
        assert forall|i: int| 0 <= i < n implies v@.subrange(from as int, to as int)[i]
            == lit@[i] by {
            assert(v@[from + i] == lit@[i]);
        }
        assert(v@.subrange(from as int, to as int) =~= lit@);
    }
    true
}

/// Parse one non-empty line and fold it into the partial record.
///
/// Returns false exactly when the line is malformed or holds a value of
/// the wrong type for its key; the record is then unchanged in meaning.
fn handle_line(line: &Vec<char>, patch: &mut ConfigPatch) -> (ok: bool)
    ensures
        match spec_line_apply(old(patch)@, line@) {
            Some(p2) => ok && final(patch)@ == p2,
            None => !ok,
        },
{
    let n = line.len();
    let mut k: usize = 0;
    while k < n && line[k] != ' '
        invariant
            k <= n,
            n == line@.len(),
            forall|i: int| 0 <= i < k ==> line@[i] != ' ',
        decreases n - k,
    {
        k = k + 1;
    }
    proof {
        lemma_scan_val(line@, ' ', k as int);
    }
    if n < 3 || k > n - 3 {
        return false;
    }
    if line[k + 1] != '=' || line[k + 2] != ' ' {
        return false;
    }
    let vs = k + 3;
    let ghost valseq = line@.skip(vs as int);
    if vs == n {
        proof {
            assert(valseq =~= Seq::<char>::empty());
        }
        return false;
    }
    proof {
        assert(valseq[0] == line@[vs as int]);
        assert(valseq.len() == n - vs);
    }
    if line[vs] == '"' {
        if n - vs < 2 || line[n - 1] != '"' {
            proof {
                if valseq.len() >= 2 {
                    assert(valseq[valseq.len() - 1] == line@[n - 1]);
                }
            }
            return false;
        }
        let body = copy_range(line, vs + 1, n - 1);
        proof {
            assert(valseq[valseq.len() - 1] == line@[n - 1]);
            assert(body@ =~= valseq.subrange(1, valseq.len() - 1));
        }
        match unescape_chars(&body) {
            None => {
                return false;
            },
            Some(s) => {
                if range_eq(line, 0, k, "code_model") {
                    patch.code_model = Some(s);
                    true
                } else if range_eq(line, 0, k, "chat_model") {
                    patch.chat_model = Some(s);
                    true
                } else if range_eq(line, 0, k, "code_temperature_milli") {
                    false
                } else if range_eq(line, 0, k, "chat_temperature_milli") {
                    false
                } else if range_eq(line, 0, k, "code_api_key_env") {
                    patch.code_api_key_env = Some(s);
                    true
                } else if range_eq(line, 0, k, "chat_api_key_env") {
                    patch.chat_api_key_env = Some(s);
                    true
                } else if range_eq(line, 0, k, "code_api_url") {
                    patch.code_api_url = Some(s);
                    true
                } else if range_eq(line, 0, k, "chat_api_url") {
                    patch.chat_api_url = Some(s);
                    true
                } else if range_eq(line, 0, k, "max_tokens_code") {
                    false
                } else if range_eq(line, 0, k, "max_tokens_chat") {
                    false
                } else if range_eq(line, 0, k, "log_directory") {
                    patch.log_directory = Some(s);
                    true
                } else if range_eq(line, 0, k, "config_path") {
                    patch.config_path = Some(s);
                    true
                } else {
                    true
                }
            },
        }
    } else {
        let valv = copy_range(line, vs, n);
        proof {
            assert(valv@ =~= valseq);
        }
        match parse_u32_chars(&valv) {
            None => {
                return false;
            },
            Some(nv) => {
                if range_eq(line, 0, k, "code_model") {
                    false
                } else if range_eq(line, 0, k, "chat_model") {
                    false
                } else if range_eq(line, 0, k, "code_temperature_milli") {
                    patch.code_temperature_milli = Some(nv);
                    true
                } else if range_eq(line, 0, k, "chat_temperature_milli") {
                    patch.chat_temperature_milli = Some(nv);
                    true
                } else if range_eq(line, 0, k, "code_api_key_env") {
                    false
                } else if range_eq(line, 0, k, "chat_api_key_env") {
                    false
                } else if range_eq(line, 0, k, "code_api_url") {
                    false
                } else if range_eq(line, 0, k, "chat_api_url") {
                    false
                } else if range_eq(line, 0, k, "max_tokens_code") {
                    patch.max_tokens_code = Some(nv);
                    true
                } else if range_eq(line, 0, k, "max_tokens_chat") {
                    patch.max_tokens_chat = Some(nv);
                    true
                } else if range_eq(line, 0, k, "log_directory") {
                    false
                } else if range_eq(line, 0, k, "config_path") {
                    false
                } else {
                    true
                }
            },
        }
    }
}

// ---------------------------------------------------------------------------
// Encoding
// ---------------------------------------------------------------------------

/// A quoted string value.
pub open spec fn spec_quote(s: Seq<char>) -> Seq<char> {
    seq!['"'] + spec_escape(s) + seq!['"']
}

/// One line that sets a string-valued key, without its line break.
pub open spec fn spec_str_line(key: Seq<char>, s: Seq<char>) -> Seq<char> {
    key + " = "@ + spec_quote(s)
}

/// One line that sets an integer-valued key, without its line break.
pub open spec fn spec_int_line(key: Seq<char>, n: u32) -> Seq<char> {
    key + " = "@ + spec_dec(n as int)
}

pub open spec fn spec_nl() -> Seq<char> {
    seq!['\n']
}

/// The rendering of a whole record, one line per field in a fixed order.
pub open spec fn spec_encode_config(m: ConfigModel) -> Seq<char> {
    spec_str_line("code_model"@, m.code_model) + spec_nl() + spec_str_line(
        "chat_model"@,
        m.chat_model,
    ) + spec_nl() + spec_int_line("code_temperature_milli"@, m.code_temperature_milli) + spec_nl()
        + spec_int_line("chat_temperature_milli"@, m.chat_temperature_milli) + spec_nl()
        + spec_str_line("code_api_key_env"@, m.code_api_key_env) + spec_nl() + spec_str_line(
        "chat_api_key_env"@,
        m.chat_api_key_env,
    ) + spec_nl() + spec_str_line("code_api_url"@, m.code_api_url) + spec_nl() + spec_str_line(
        "chat_api_url"@,
        m.chat_api_url,
    ) + spec_nl() + spec_int_line("max_tokens_code"@, m.max_tokens_code) + spec_nl()
        + spec_int_line("max_tokens_chat"@, m.max_tokens_chat) + spec_nl() + spec_str_line(
        "log_directory"@,
        m.log_directory,
    ) + spec_nl() + spec_str_line("config_path"@, m.config_path) + spec_nl()
}

/// Append one string-valued line, with its line break.
fn append_str_line(out: &mut String, key: &str, val: &str)
    ensures
        final(out)@ == old(out)@ + spec_str_line(key@, val@) + spec_nl(),
{
    out.append(key);
    out.append(" = ");
    out.push('"');
    let v = chars_vec(val);
    append_escaped(out, &v);
    out.push('"');
    out.push('\n');
    proof {
        assert(out@ =~= old(out)@ + spec_str_line(key@, val@) + spec_nl());
    }
}

/// Append one integer-valued line, with its line break.
fn append_int_line(out: &mut String, key: &str, n: u32)
    ensures
        final(out)@ == old(out)@ + spec_int_line(key@, n) + spec_nl(),
{
    out.append(key);
    out.append(" = ");
    push_u32(out, n);
    out.push('\n');
    proof {
        assert(out@ =~= old(out)@ + spec_int_line(key@, n) + spec_nl());
    }
}

impl Config {
    /// Render this record as a configuration document.
    pub fn encode(&self) -> (out: String)
        ensures
            out@ == spec_encode_config(self@),
    {
        let mut out = String::new();
        append_str_line(&mut out, "code_model", self.code_model.as_str());
        append_str_line(&mut out, "chat_model", self.chat_model.as_str());
        append_int_line(&mut out, "code_temperature_milli", self.code_temperature_milli);
        append_int_line(&mut out, "chat_temperature_milli", self.chat_temperature_milli);
        append_str_line(&mut out, "code_api_key_env", self.code_api_key_env.as_str());
        append_str_line(&mut out, "chat_api_key_env", self.chat_api_key_env.as_str());
        append_str_line(&mut out, "code_api_url", self.code_api_url.as_str());
        append_str_line(&mut out, "chat_api_url", self.chat_api_url.as_str());
        append_int_line(&mut out, "max_tokens_code", self.max_tokens_code);
        append_int_line(&mut out, "max_tokens_chat", self.max_tokens_chat);
        append_str_line(&mut out, "log_directory", self.log_directory.as_str());
        append_str_line(&mut out, "config_path", self.config_path.as_str());
        proof {
            assert(out@ =~= spec_encode_config(self@));
        }
        out
    }

    /// Parse a configuration document.
    ///
    /// Succeeds exactly when every non-empty line is well formed and each
    /// known key carries a value of its type; unknown keys are ignored and
    /// absent keys fall back to their defaults.
    pub fn parse(s: &str) -> (r: Result<Config, AppError>)
        ensures
            r is Ok <==> spec_parse_config(s@) is Some,
            r matches Ok(c) ==> Some(c@) == spec_parse_config(s@),
            r matches Err(e) ==> (e matches AppError::Config(m) && m@
                == "malformed configuration line"@),
    {
        let v = chars_vec(s);
        let n = v.len();
        let mut patch = ConfigPatch::empty();
        let mut i: usize = 0;
        proof {
            assert(v@.skip(0) =~= v@);
        }
        while i < n
            invariant
                i <= n,
                n == v@.len(),
                v@ == s@,
                spec_parse_into(s@, spec_empty_patch()) == spec_parse_into(
                    v@.skip(i as int),
                    patch@,
                ),
            decreases n - i,
        {
            let ghost tail = v@.skip(i as int);
            let mut j = i;
            while j < n && v[j] != '\n'
                invariant
                    i <= j <= n,
                    n == v@.len(),
                    forall|t: int| i <= t < j ==> v@[t] != '\n',
                decreases n - j,
            {
                j = j + 1;
            }
            proof {
                assert forall|t: int| 0 <= t < j - i implies tail[t] != '\n' by {
                    assert(tail[t] == v@[i + t]);
                }
                if j < n {
                    assert(tail[j - i] == v@[j as int]);
                }
                lemma_scan_val(tail, '\n', j - i);
            }
            if j > i {
                let line = copy_range(&v, i, j);
                proof {
                    assert(line@ =~= tail.take(j - i));
                    if j == n {
                        assert(tail =~= line@);
                    }
                }
                let ok = handle_line(&line, &mut patch);
                if !ok {
                    return Err(AppError::Config("malformed configuration line".to_owned()));
                }
                proof {
                    if j < n {
                        assert(tail.skip(j - i + 1) =~= v@.skip(j + 1));
                    }
                }
            } else {
                proof {
                    assert(tail.skip(1) =~= v@.skip(i + 1));
                }
            }
            i = if j < n {
                j + 1
            } else {
                n
            };
        }
        proof {
            assert(v@.skip(n as int) =~= Seq::<char>::empty());
        }
        Ok(Config::from_patch(patch))
    }
}

// ---------------------------------------------------------------------------
// The round trip
// ---------------------------------------------------------------------------

/// Folding a document that starts with one well-formed line first applies
/// that line, then the remainder.
proof fn lemma_parse_into_step(line: Seq<char>, rest: Seq<char>, p: PatchModel)
    requires
        line.len() > 0,
        forall|i: int| 0 <= i < line.len() ==> line[i] != '\n',
    ensures
        spec_parse_into(line + seq!['\n'] + rest, p) == match spec_line_apply(p, line) {
            None => None::<PatchModel>,
            Some(p2) => spec_parse_into(rest, p2),
        },
{
    let s = line + seq!['\n'] + rest;
    assert forall|i: int| 0 <= i < line.len() implies s[i] != '\n' by {
        assert(s[i] == line[i]);
    }
    assert(s[line.len() as int] == '\n');
    lemma_scan_val(s, '\n', line.len() as int);
    assert(s.take(line.len() as int) =~= line);
    assert(s.skip(line.len() as int + 1) =~= rest);
}

/// A rendered string-valued line parses back to its key and value.
proof fn lemma_parse_str_line(key: Seq<char>, s: Seq<char>)
    requires
        key.len() > 0,
        forall|i: int| 0 <= i < key.len() ==> key[i] != ' ',
        forall|i: int| 0 <= i < key.len() ==> key[i] != '\n',
    ensures
        spec_parse_line(spec_str_line(key, s)) == Some((key, ValModel::VStr(s))),
        spec_str_line(key, s).len() > 0,
        forall|i: int| 0 <= i < spec_str_line(key, s).len() ==> spec_str_line(key, s)[i] != '\n',
{
    reveal_strlit(" = ");
    let sep = " = "@;
    assert(sep.len() == 3 && sep[0] == ' ' && sep[1] == '=' && sep[2] == ' ');
    let q = spec_quote(s);
    let e = spec_escape(s);
    let line = spec_str_line(key, s);
    let k = key.len() as int;
    assert(q.len() == e.len() + 2);
    assert(line.len() == k + 3 + q.len());
    assert forall|i: int| 0 <= i < k implies line[i] != ' ' by {
        assert(line[i] == key[i]);
    }
    assert(line[k] == ' ');
    lemma_scan_val(line, ' ', k);
    assert(line[k + 1] == '=');
    assert(line[k + 2] == ' ');
    assert(line.skip(k + 3) =~= q);
    assert(q[0] == '"');
    assert(q[q.len() - 1] == '"');
    assert(q.subrange(1, q.len() - 1) =~= e);
    lemma_unescape_escape(s);
    assert(spec_parse_value(q) == Some(ValModel::VStr(s)));
    assert(line.take(k) =~= key);
    lemma_escape_no_newline(s);
    assert forall|i: int| 0 <= i < line.len() implies line[i] != '\n' by {
        if i < k {
            assert(line[i] == key[i]);
        } else if i < k + 3 {
            assert(line[i] == sep[i - k]);
        } else if i == k + 3 {
            assert(line[i] == q[0]);
        } else if i < line.len() - 1 {
            assert(line[i] == e[i - (k + 4)]);
        } else {
            assert(line[i] == q[q.len() - 1]);
        }
    }
}

/// A rendered integer-valued line parses back to its key and value.
proof fn lemma_parse_int_line(key: Seq<char>, n: u32)
    requires
        key.len() > 0,
        forall|i: int| 0 <= i < key.len() ==> key[i] != ' ',
        forall|i: int| 0 <= i < key.len() ==> key[i] != '\n',
    ensures
        spec_parse_line(spec_int_line(key, n)) == Some((key, ValModel::VInt(n))),
        spec_int_line(key, n).len() > 0,
        forall|i: int| 0 <= i < spec_int_line(key, n).len() ==> spec_int_line(key, n)[i] != '\n',
{
    reveal_strlit(" = ");
    let sep = " = "@;
    assert(sep.len() == 3 && sep[0] == ' ' && sep[1] == '=' && sep[2] == ' ');
    let d = spec_dec(n as int);
    let line = spec_int_line(key, n);
    let k = key.len() as int;
    lemma_dec_roundtrip(n as int);
    assert(line.len() == k + 3 + d.len());
    assert forall|i: int| 0 <= i < k implies line[i] != ' ' by {
        assert(line[i] == key[i]);
    }
    assert(line[k] == ' ');
    lemma_scan_val(line, ' ', k);
    assert(line[k + 1] == '=');
    assert(line[k + 2] == ' ');
    assert(line.skip(k + 3) =~= d);
    assert(spec_is_digit(d[0]));
    assert(d[0] != '"');
    assert(spec_parse_u32(d) == Some(n));
    assert(spec_parse_value(d) == Some(ValModel::VInt(n)));
    assert(line.take(k) =~= key);
    assert forall|i: int| 0 <= i < line.len() implies line[i] != '\n' by {
        if i < k {
            assert(line[i] == key[i]);
        } else if i < k + 3 {
            assert(line[i] == sep[i - k]);
        } else {
            assert(line[i] == d[i - (k + 3)]);
            assert(spec_is_digit(d[i - (k + 3)]));
        }
    }
}

/// The facts about a key literal that line parsing needs.
pub open spec fn spec_key_ok(key: Seq<char>) -> bool {
    &&& key.len() > 0
    &&& forall|i: int| 0 <= i < key.len() ==> key[i] != ' '
    &&& forall|i: int| 0 <= i < key.len() ==> key[i] != '\n'
}

proof fn lemma_keys_ok()
    ensures
        spec_key_ok("code_model"@),
        spec_key_ok("chat_model"@),
        spec_key_ok("code_temperature_milli"@),
        spec_key_ok("chat_temperature_milli"@),
        spec_key_ok("code_api_key_env"@),
        spec_key_ok("chat_api_key_env"@),
        spec_key_ok("code_api_url"@),
        spec_key_ok("chat_api_url"@),
        spec_key_ok("max_tokens_code"@),
        spec_key_ok("max_tokens_chat"@),
        spec_key_ok("log_directory"@),
        spec_key_ok("config_path"@),
{
    reveal_strlit("code_model");
    reveal_strlit("chat_model");
    reveal_strlit("code_temperature_milli");
    reveal_strlit("chat_temperature_milli");
    reveal_strlit("code_api_key_env");
    reveal_strlit("chat_api_key_env");
    reveal_strlit("code_api_url");
    reveal_strlit("chat_api_url");
    reveal_strlit("max_tokens_code");
    reveal_strlit("max_tokens_chat");
    reveal_strlit("log_directory");
    reveal_strlit("config_path");
}

/// The twelve keys are pairwise distinct.
proof fn lemma_keys_distinct()
    ensures
        "code_model"@ != "chat_model"@,
        "code_temperature_milli"@ != "code_model"@ && "code_temperature_milli"@ != "chat_model"@,
        "chat_temperature_milli"@ != "code_model"@ && "chat_temperature_milli"@ != "chat_model"@
            && "chat_temperature_milli"@ != "code_temperature_milli"@,
        "code_api_key_env"@ != "code_model"@ && "code_api_key_env"@ != "chat_model"@
            && "code_api_key_env"@ != "code_temperature_milli"@ && "code_api_key_env"@
            != "chat_temperature_milli"@,
        "chat_api_key_env"@ != "code_model"@ && "chat_api_key_env"@ != "chat_model"@
            && "chat_api_key_env"@ != "code_temperature_milli"@ && "chat_api_key_env"@
            != "chat_temperature_milli"@ && "chat_api_key_env"@ != "code_api_key_env"@,
        "code_api_url"@ != "code_model"@ && "code_api_url"@ != "chat_model"@ && "code_api_url"@
            != "code_temperature_milli"@ && "code_api_url"@ != "chat_temperature_milli"@
            && "code_api_url"@ != "code_api_key_env"@ && "code_api_url"@ != "chat_api_key_env"@,
        "chat_api_url"@ != "code_model"@ && "chat_api_url"@ != "chat_model"@ && "chat_api_url"@
            != "code_temperature_milli"@ && "chat_api_url"@ != "chat_temperature_milli"@
            && "chat_api_url"@ != "code_api_key_env"@ && "chat_api_url"@ != "chat_api_key_env"@
            && "chat_api_url"@ != "code_api_url"@,
        "max_tokens_code"@ != "code_model"@ && "max_tokens_code"@ != "chat_model"@
            && "max_tokens_code"@ != "code_temperature_milli"@ && "max_tokens_code"@
            != "chat_temperature_milli"@ && "max_tokens_code"@ != "code_api_key_env"@
            && "max_tokens_code"@ != "chat_api_key_env"@ && "max_tokens_code"@ != "code_api_url"@
            && "max_tokens_code"@ != "chat_api_url"@,
        "max_tokens_chat"@ != "code_model"@ && "max_tokens_chat"@ != "chat_model"@
            && "max_tokens_chat"@ != "code_temperature_milli"@ && "max_tokens_chat"@
            != "chat_temperature_milli"@ && "max_tokens_chat"@ != "code_api_key_env"@
            && "max_tokens_chat"@ != "chat_api_key_env"@ && "max_tokens_chat"@ != "code_api_url"@
            && "max_tokens_chat"@ != "chat_api_url"@ && "max_tokens_chat"@ != "max_tokens_code"@,
        "log_directory"@ != "code_model"@ && "log_directory"@ != "chat_model"@ && "log_directory"@
            != "code_temperature_milli"@ && "log_directory"@ != "chat_temperature_milli"@
            && "log_directory"@ != "code_api_key_env"@ && "log_directory"@ != "chat_api_key_env"@
            && "log_directory"@ != "code_api_url"@ && "log_directory"@ != "chat_api_url"@
            && "log_directory"@ != "max_tokens_code"@ && "log_directory"@ != "max_tokens_chat"@,
        "config_path"@ != "code_model"@ && "config_path"@ != "chat_model"@ && "config_path"@
            != "code_temperature_milli"@ && "config_path"@ != "chat_temperature_milli"@
            && "config_path"@ != "code_api_key_env"@ && "config_path"@ != "chat_api_key_env"@
            && "config_path"@ != "code_api_url"@ && "config_path"@ != "chat_api_url"@
            && "config_path"@ != "max_tokens_code"@ && "config_path"@ != "max_tokens_chat"@
            && "config_path"@ != "log_directory"@,
{
    reveal_strlit("code_model");
    reveal_strlit("chat_model");
    reveal_strlit("code_temperature_milli");
    reveal_strlit("chat_temperature_milli");
    reveal_strlit("code_api_key_env");
    reveal_strlit("chat_api_key_env");
    reveal_strlit("code_api_url");
    reveal_strlit("chat_api_url");
    reveal_strlit("max_tokens_code");
    reveal_strlit("max_tokens_chat");
    reveal_strlit("log_directory");
    reveal_strlit("config_path");
    assert("code_model"@.len() == 10);
    assert("chat_model"@.len() == 10);
    assert("code_temperature_milli"@.len() == 22);
    assert("chat_temperature_milli"@.len() == 22);
    assert("code_api_key_env"@.len() == 16);
    assert("chat_api_key_env"@.len() == 16);
    assert("code_api_url"@.len() == 12);
    assert("chat_api_url"@.len() == 12);
    assert("max_tokens_code"@.len() == 15);
    assert("max_tokens_chat"@.len() == 15);
    assert("log_directory"@.len() == 13);
    assert("config_path"@.len() == 11);
    assert("code_model"@[1] != "chat_model"@[1]);
    assert("code_temperature_milli"@[1] != "chat_temperature_milli"@[1]);
    assert("code_api_key_env"@[1] != "chat_api_key_env"@[1]);
    assert("code_api_url"@[1] != "chat_api_url"@[1]);
    assert("max_tokens_code"@[12] != "max_tokens_chat"@[12]);
}

/// The nested shape of the rendering: each line in front of the rest of
/// the document.
pub open spec fn spec_encode_nested(m: ConfigModel) -> Seq<char> {
    spec_str_line("code_model"@, m.code_model) + spec_nl() + (spec_str_line(
        "chat_model"@,
        m.chat_model,
    ) + spec_nl() + (spec_int_line("code_temperature_milli"@, m.code_temperature_milli) + spec_nl()
        + (spec_int_line("chat_temperature_milli"@, m.chat_temperature_milli) + spec_nl() + (
    spec_str_line("code_api_key_env"@, m.code_api_key_env) + spec_nl() + (spec_str_line(
        "chat_api_key_env"@,
        m.chat_api_key_env,
    ) + spec_nl() + (spec_str_line("code_api_url"@, m.code_api_url) + spec_nl() + (spec_str_line(
        "chat_api_url"@,
        m.chat_api_url,
    ) + spec_nl() + (spec_int_line("max_tokens_code"@, m.max_tokens_code) + spec_nl() + (
    spec_int_line("max_tokens_chat"@, m.max_tokens_chat) + spec_nl() + (spec_str_line(
        "log_directory"@,
        m.log_directory,
    ) + spec_nl() + (spec_str_line("config_path"@, m.config_path) + spec_nl()
        + Seq::<char>::empty())))))))))))
}

#[verifier::rlimit(100)]
proof fn lemma_encode_nested(m: ConfigModel)
    ensures
        spec_encode_config(m) == spec_encode_nested(m),
{
    assert(spec_encode_config(m) =~= spec_encode_nested(m));
}

/// An empty document resolves to the all-defaults record.
pub proof fn lemma_empty_document_defaults()
    ensures
        spec_parse_config(""@) == Some(crate::config::spec_default_config()),
{
    reveal_strlit("");
    assert(""@.len() == 0);
    assert(spec_resolve(spec_empty_patch()) =~= crate::config::spec_default_config());
}

/// Saving a record and loading it back yields the record unchanged, for
/// every record.
#[verifier::rlimit(100)]
pub proof fn lemma_config_round_trip(m: ConfigModel)
    ensures
        spec_parse_config(spec_encode_config(m)) == Some(m),
{
    lemma_keys_ok();
    lemma_keys_distinct();
    lemma_encode_nested(m);
    lemma_parse_str_line("code_model"@, m.code_model);
    lemma_parse_str_line("chat_model"@, m.chat_model);
    lemma_parse_int_line("code_temperature_milli"@, m.code_temperature_milli);
    lemma_parse_int_line("chat_temperature_milli"@, m.chat_temperature_milli);
    lemma_parse_str_line("code_api_key_env"@, m.code_api_key_env);
    lemma_parse_str_line("chat_api_key_env"@, m.chat_api_key_env);
    lemma_parse_str_line("code_api_url"@, m.code_api_url);
    lemma_parse_str_line("chat_api_url"@, m.chat_api_url);
    lemma_parse_int_line("max_tokens_code"@, m.max_tokens_code);
    lemma_parse_int_line("max_tokens_chat"@, m.max_tokens_chat);
    lemma_parse_str_line("log_directory"@, m.log_directory);
    lemma_parse_str_line("config_path"@, m.config_path);
    let l1 = spec_str_line("code_model"@, m.code_model);
    let l2 = spec_str_line("chat_model"@, m.chat_model);
    let l3 = spec_int_line("code_temperature_milli"@, m.code_temperature_milli);
    let l4 = spec_int_line("chat_temperature_milli"@, m.chat_temperature_milli);
    let l5 = spec_str_line("code_api_key_env"@, m.code_api_key_env);
    let l6 = spec_str_line("chat_api_key_env"@, m.chat_api_key_env);
    let l7 = spec_str_line("code_api_url"@, m.code_api_url);
    let l8 = spec_str_line("chat_api_url"@, m.chat_api_url);
    let l9 = spec_int_line("max_tokens_code"@, m.max_tokens_code);
    let l10 = spec_int_line("max_tokens_chat"@, m.max_tokens_chat);
    let l11 = spec_str_line("log_directory"@, m.log_directory);
    let l12 = spec_str_line("config_path"@, m.config_path);
    let nl = seq!['\n'];
    let t12 = l12 + nl + Seq::<char>::empty();
    let t11 = l11 + nl + t12;
    let t10 = l10 + nl + t11;
    let t9 = l9 + nl + t10;
    let t8 = l8 + nl + t9;
    let t7 = l7 + nl + t8;
    let t6 = l6 + nl + t7;
    let t5 = l5 + nl + t6;
    let t4 = l4 + nl + t5;
    let t3 = l3 + nl + t4;
    let t2 = l2 + nl + t3;
    let t1 = l1 + nl + t2;
    assert(spec_encode_nested(m) == t1);
    let p0 = spec_empty_patch();
    lemma_parse_into_step(l1, t2, p0);
    let p1 = spec_apply(p0, "code_model"@, ValModel::VStr(m.code_model))->0;
    lemma_parse_into_step(l2, t3, p1);
    let p2 = spec_apply(p1, "chat_model"@, ValModel::VStr(m.chat_model))->0;
    lemma_parse_into_step(l3, t4, p2);
    let p3 = spec_apply(p2, "code_temperature_milli"@, ValModel::VInt(m.code_temperature_milli))->0;
    lemma_parse_into_step(l4, t5, p3);
    let p4 = spec_apply(p3, "chat_temperature_milli"@, ValModel::VInt(m.chat_temperature_milli))->0;
    lemma_parse_into_step(l5, t6, p4);
    let p5 = spec_apply(p4, "code_api_key_env"@, ValModel::VStr(m.code_api_key_env))->0;
    lemma_parse_into_step(l6, t7, p5);
    let p6 = spec_apply(p5, "chat_api_key_env"@, ValModel::VStr(m.chat_api_key_env))->0;
    lemma_parse_into_step(l7, t8, p6);
    let p7 = spec_apply(p6, "code_api_url"@, ValModel::VStr(m.code_api_url))->0;
    lemma_parse_into_step(l8, t9, p7);
    let p8 = spec_apply(p7, "chat_api_url"@, ValModel::VStr(m.chat_api_url))->0;
    lemma_parse_into_step(l9, t10, p8);
    let p9 = spec_apply(p8, "max_tokens_code"@, ValModel::VInt(m.max_tokens_code))->0;
    lemma_parse_into_step(l10, t11, p9);
    let p10 = spec_apply(p9, "max_tokens_chat"@, ValModel::VInt(m.max_tokens_chat))->0;
    lemma_parse_into_step(l11, t12, p10);
    let p11 = spec_apply(p10, "log_directory"@, ValModel::VStr(m.log_directory))->0;
    lemma_parse_into_step(l12, Seq::<char>::empty(), p11);
    let p12 = spec_apply(p11, "config_path"@, ValModel::VStr(m.config_path))->0;
    assert(spec_parse_into(t1, p0) == Some(p12));
    assert(spec_resolve(p12) =~= m);
}

} // verus!
