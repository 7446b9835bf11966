//! The plugin manifest: its grammar, a verified parser for it, and the
//! validated metadata record that the rest of the loader works with.
//!
//! A manifest is line-oriented structured text. A line is, after trimming
//! blanks, one of: empty or a `#` comment; a section header `[name]`; or an
//! assignment of a string to a key (optionally followed by a `#` comment).
//! A value is a basic string `"…"`, whose single-character backslash
//! escapes are decoded (a `\u` escape is not understood), or a literal
//! string `'…'`, taken verbatim. Reopening a section or repeating a key
//! inside its section is an error. Only the assignments inside the
//! `[metadata]` section are interpreted: the keys `description`, `version`,
//! `name` and `objfile`. A manifest is well formed when every line follows
//! the grammar and the three required keys `version`, `name` and `objfile`
//! are all present.

use vstd::prelude::*;
use vstd::string::*;

use crate::error::VPluginError;

verus! {

// ---------------------------------------------------------------------------
// The grammar, as spec functions over sequences of characters.
// ---------------------------------------------------------------------------

/// Blank characters that may surround the meaningful parts of a line.
pub open spec fn is_blank(c: char) -> bool {
    c == ' ' || c == '\t'
}

/// Characters allowed in a bare key or a section name.
pub open spec fn is_key_char(c: char) -> bool {
    ||| (c as u32) >= ('a' as u32) && (c as u32) <= ('z' as u32)
    ||| (c as u32) >= ('A' as u32) && (c as u32) <= ('Z' as u32)
    ||| (c as u32) >= ('0' as u32) && (c as u32) <= ('9' as u32)
    ||| c == '_'
    ||| c == '-'
}

/// A plugin identity is acceptable when it is non-empty and space-free.
pub open spec fn valid_ident(s: Seq<char>) -> bool {
    s.len() > 0 && (forall|i: int| 0 <= i < s.len() ==> s[i] != ' ')
}

pub open spec fn trim_front(l: Seq<char>) -> Seq<char>
    decreases l.len(),
{
    if l.len() > 0 && is_blank(l[0]) {
        trim_front(l.drop_first())
    } else {
        l
    }
}

pub open spec fn trim_back(l: Seq<char>) -> Seq<char>
    decreases l.len(),
{
    if l.len() > 0 && is_blank(l.last()) {
        trim_back(l.drop_last())
    } else {
        l
    }
}

/// A line with its leading and trailing blanks removed.
pub open spec fn trimmed(l: Seq<char>) -> Seq<char> {
    trim_back(trim_front(l))
}

/// The first position at or after `from` holding `c`, or `l.len()` if none.
pub open spec fn find_from(l: Seq<char>, from: int, c: char) -> int
    decreases l.len() - from,
{
    if from < 0 || from >= l.len() {
        l.len() as int
    } else if l[from] == c {
        from
    } else {
        find_from(l, from + 1, c)
    }
}

/// What a single (already line-broken) manifest line means.
pub enum LineKind {
    /// Nothing: only blanks, or a comment.
    Blank,
    /// A section header carrying the section's name.
    Header(Seq<char>),
    /// An assignment of a quoted value to a key.
    KeyVal(Seq<char>, Seq<char>),
    /// A line outside the grammar.
    Bad,
}

/// Classifies a trimmed line that starts with `[`.
pub open spec fn header_of(t: Seq<char>) -> LineKind {
    if t.len() >= 2 && t.last() == ']' {
        let inner = trimmed(t.subrange(1, t.len() - 1));
        if inner.len() > 0 && (forall|i: int| 0 <= i < inner.len() ==> is_key_char(inner[i])) {
            LineKind::Header(inner)
        } else {
            LineKind::Bad
        }
    } else {
        LineKind::Bad
    }
}

/// The character that a single-character backslash escape stands for in a
/// basic string; escapes outside this set (including `\u`) are refused.
pub open spec fn esc_char(c: char) -> Option<char> {
    if c == 'b' {
        Some('\u{8}')
    } else if c == 't' {
        Some('\t')
    } else if c == 'n' {
        Some('\n')
    } else if c == 'f' {
        Some('\u{c}')
    } else if c == 'r' {
        Some('\r')
    } else if c == '"' {
        Some('"')
    } else if c == '\\' {
        Some('\\')
    } else {
        None
    }
}

/// Scans a basic string from position `i` (just after the opening quote):
/// the decoded value and the position after the closing quote, or `None`
/// when the string is unterminated or holds an unknown escape.
pub open spec fn scan_basic(s: Seq<char>, i: int) -> Option<(Seq<char>, int)>
    decreases s.len() - i,
{
    if i < 0 || i >= s.len() {
        None
    } else if s[i] == '"' {
        Some((Seq::empty(), i + 1))
    } else if s[i] == '\\' {
        if i + 1 < s.len() {
            match esc_char(s[i + 1]) {
                Some(c) => match scan_basic(s, i + 2) {
                    Some(p) => Some((seq![c] + p.0, p.1)),
                    None => None,
                },
                None => None,
            }
        } else {
            None
        }
    } else {
        match scan_basic(s, i + 1) {
            Some(p) => Some((seq![s[i]] + p.0, p.1)),
            None => None,
        }
    }
}

/// Scans a literal string from position `i` (just after the opening quote):
/// the verbatim value and the position after the closing quote, or `None`
/// when the string is unterminated.
pub open spec fn scan_literal(s: Seq<char>, i: int) -> Option<(Seq<char>, int)>
    decreases s.len() - i,
{
    if i < 0 || i >= s.len() {
        None
    } else if s[i] == '\'' {
        Some((Seq::empty(), i + 1))
    } else {
        match scan_literal(s, i + 1) {
            Some(p) => Some((seq![s[i]] + p.0, p.1)),
            None => None,
        }
    }
}

/// Scans the value part of an assignment: a basic or a literal string.
pub open spec fn scan_value(rest: Seq<char>) -> Option<(Seq<char>, int)> {
    if rest.len() == 0 {
        None
    } else if rest[0] == '"' {
        scan_basic(rest, 1)
    } else if rest[0] == '\'' {
        scan_literal(rest, 1)
    } else {
        None
    }
}

/// Classifies a trimmed line that must be an assignment.
pub open spec fn keyval_of(t: Seq<char>) -> LineKind {
    let e = find_from(t, 0, '=');
    if e == t.len() {
        LineKind::Bad
    } else {
        let key = trimmed(t.take(e));
        let rest = trimmed(t.skip(e + 1));
        if key.len() > 0 && (forall|i: int| 0 <= i < key.len() ==> is_key_char(key[i])) {
            match scan_value(rest) {
                Some(p) => {
                    let tail = trimmed(rest.skip(p.1));
                    if tail.len() == 0 || tail[0] == '#' {
                        LineKind::KeyVal(key, p.0)
                    } else {
                        LineKind::Bad
                    }
                },
                None => LineKind::Bad,
            }
        } else {
            LineKind::Bad
        }
    }
}

/// The meaning of one manifest line.
pub open spec fn line_kind(l: Seq<char>) -> LineKind {
    let t = trimmed(l);
    if t.len() == 0 || t[0] == '#' {
        LineKind::Blank
    } else if t[0] == '[' {
        header_of(t)
    } else {
        keyval_of(t)
    }
}

/// What has been gathered after reading a prefix of the manifest's lines.
pub struct ParseState {
    /// The section the upcoming assignments belong to; empty at the top.
    pub section: Seq<char>,
    /// Every section opened so far; reopening one is an error.
    pub sections: Seq<Seq<char>>,
    /// Every (section, key) pair assigned so far; repeating one is an error.
    pub seen: Seq<(Seq<char>, Seq<char>)>,
    pub description: Option<Seq<char>>,
    pub version: Option<Seq<char>>,
    pub name: Option<Seq<char>>,
    pub objfile: Option<Seq<char>>,
}

/// Membership in a sequence.
pub open spec fn seq_has<A>(s: Seq<A>, x: A) -> bool {
    exists|i: int| 0 <= i < s.len() && s[i] == x
}

pub open spec fn initial_state() -> ParseState {
    ParseState {
        section: Seq::empty(),
        sections: Seq::empty(),
        seen: Seq::empty(),
        description: None,
        version: None,
        name: None,
        objfile: None,
    }
}

/// Folds one line into the parse state; `None` is a grammar violation, a
/// reopened section, or a repeated key.
pub open spec fn apply_line(st: ParseState, l: Seq<char>) -> Option<ParseState> {
    match line_kind(l) {
        LineKind::Blank => Some(st),
        LineKind::Bad => None,
        LineKind::Header(section) => {
            if seq_has(st.sections, section) {
                None
            } else {
                Some(
                    ParseState {
                        section: section,
                        sections: st.sections.push(section),
                        ..st
                    },
                )
            }
        },
        LineKind::KeyVal(key, val) => {
            if seq_has(st.seen, (st.section, key)) {
                None
            } else {
                let st2 = ParseState { seen: st.seen.push((st.section, key)), ..st };
                if st.section != "metadata"@ {
                    Some(st2)
                } else if key == "description"@ {
                    Some(ParseState { description: Some(val), ..st2 })
                } else if key == "version"@ {
                    Some(ParseState { version: Some(val), ..st2 })
                } else if key == "name"@ {
                    Some(ParseState { name: Some(val), ..st2 })
                } else if key == "objfile"@ {
                    Some(ParseState { objfile: Some(val), ..st2 })
                } else {
                    Some(st2)
                }
            }
        },
    }
}

/// Drops the carriage return that a CRLF line break leaves at a line's end.
pub open spec fn strip_cr(l: Seq<char>) -> Seq<char> {
    if l.len() > 0 && l.last() == '\r' { l.drop_last() } else { l }
}

/// Breaks `s` at every line feed and folds the lines into `st`.
pub open spec fn parse_from(s: Seq<char>, st: ParseState) -> Option<ParseState>
    decreases s.len(),
{
    let n = find_from(s, 0, '\n');
    if n < 0 || n >= s.len() {
        apply_line(st, strip_cr(s))
    } else {
        match apply_line(st, strip_cr(s.take(n))) {
            None => None,
            Some(st2) => parse_from(s.skip(n + 1), st2),
        }
    }
}

/// The parse of a whole manifest text.
pub open spec fn manifest_state(s: Seq<char>) -> Option<ParseState> {
    parse_from(s, initial_state())
}

/// A manifest is well formed when it parses and carries the three required
/// keys.
pub open spec fn manifest_wf(s: Seq<char>) -> bool {
    match manifest_state(s) {
        Some(st) => st.version is Some && st.name is Some && st.objfile is Some,
        None => false,
    }
}

/// The declared plugin name of a well-formed manifest.
pub open spec fn manifest_name(s: Seq<char>) -> Seq<char> {
    manifest_state(s)->0.name->0
}

// ---------------------------------------------------------------------------
// The validated metadata record.
// ---------------------------------------------------------------------------

/// The well-known name of the manifest entry inside a plugin package.
pub open spec fn manifest_file_name() -> Seq<char> {
    "metadata.toml"@
}

/// Metadata about a single plugin, like its version and name.
///
/// A record of this struct should only be obtained from
/// [`PluginMetadata::read_from_str`] or from the loading functions of
/// [`crate::plugin::Plugin`]; otherwise its fields carry no meaning.
#[derive(Debug)]
pub struct PluginMetadata {
    pub description: Option<String>,
    pub version: String,
    pub name: String,
    pub filename: String,
    pub objfile: String,
}

pub open spec fn opt_string_view(o: Option<String>) -> Option<Seq<char>> {
    match o {
        Some(s) => Some(s@),
        None => None,
    }
}

/// The record `m` carries exactly the fields that the parse `st` gathered.
pub open spec fn metadata_matches(m: PluginMetadata, st: ParseState) -> bool {
    &&& opt_string_view(m.description) == st.description
    &&& st.version matches Some(v) && m.version@ == v
    &&& st.name matches Some(n) && m.name@ == n
    &&& st.objfile matches Some(o) && m.objfile@ == o
    &&& m.filename@ == manifest_file_name()
}

// ---------------------------------------------------------------------------
// Executable parsing.
// ---------------------------------------------------------------------------

/// Relies on `str::chars`: yields exactly the characters of the string, in
/// order.
#[verifier::external_body]
pub(crate) fn str_chars(s: &str) -> (r: Vec<char>)
    ensures
        r@ == s@,
{
    s.chars().collect()
}

/// Relies on `String`'s `FromIterator<char>`: concatenates exactly the given
/// characters.
#[verifier::external_body]
fn chars_to_string(v: Vec<char>) -> (r: String)
    ensures
        r@ == v@,
{
    v.into_iter().collect()
}

fn is_blank_exec(c: char) -> (r: bool)
    ensures
        r == is_blank(c),
{
    c == ' ' || c == '\t'
}

fn is_key_char_exec(c: char) -> (r: bool)
    ensures
        r == is_key_char(c),
{
    let u = c as u32;
    (u >= 'a' as u32 && u <= 'z' as u32) || (u >= 'A' as u32 && u <= 'Z' as u32)
        || (u >= '0' as u32 && u <= '9' as u32) || c == '_' || c == '-'
}

/// Copies `v[lo..hi]` out into a vector of its own.
fn vec_range(v: &Vec<char>, lo: usize, hi: usize) -> (r: Vec<char>)
    requires
        lo <= hi <= v@.len(),
    ensures
        r@ == v@.subrange(lo as int, hi as int),
{
    let mut r: Vec<char> = Vec::new();
    let mut i: usize = lo;
    while i < hi
        invariant
            lo <= i <= hi <= v@.len(),
            r@ == v@.subrange(lo as int, i as int),
        decreases hi - i,
    {
        r.push(v[i]);
        proof {
            assert(v@.subrange(lo as int, (i + 1) as int) =~= v@.subrange(lo as int, i as int).push(
                v@[i as int],
            ));
        }
        i = i + 1;
    }
    r
}

fn find_char(v: &Vec<char>, from: usize, c: char) -> (r: usize)
    requires
        from <= v@.len(),
    ensures
        r == find_from(v@, from as int, c),
        from <= r <= v@.len(),
    decreases v@.len() - from,
{
    if from == v.len() {
        from
    } else if v[from] == c {
        from
    } else {
        find_char(v, from + 1, c)
    }
}

fn trim_front_vec(l: Vec<char>) -> (r: Vec<char>)
    ensures
        r@ == trim_front(l@),
    decreases l@.len(),
{
    if l.len() > 0 && is_blank_exec(l[0]) {
        let ghost orig = l@;
        let mut m = l;
        m.remove(0);
        proof {
            assert(m@ =~= orig.drop_first());
        }
        trim_front_vec(m)
    } else {
        l
    }
}

fn trim_back_vec(l: Vec<char>) -> (r: Vec<char>)
    ensures
        r@ == trim_back(l@),
    decreases l@.len(),
{
    if l.len() > 0 && is_blank_exec(l[l.len() - 1]) {
        let ghost orig = l@;
        let mut m = l;
        m.pop();
        proof {
            assert(m@ =~= orig.drop_last());
        }
        trim_back_vec(m)
    } else {
        l
    }
}

fn trim_vec(l: Vec<char>) -> (r: Vec<char>)
    ensures
        r@ == trimmed(l@),
{
    let f = trim_front_vec(l);
    trim_back_vec(f)
}

fn all_key_chars_from(v: &Vec<char>, from: usize) -> (r: bool)
    requires
        from <= v@.len(),
    ensures
        r == (forall|i: int| from <= i < v@.len() ==> is_key_char(v@[i])),
    decreases v@.len() - from,
{
    if from == v.len() {
        true
    } else if is_key_char_exec(v[from]) {
        all_key_chars_from(v, from + 1)
    } else {
        false
    }
}

fn esc_char_exec(c: char) -> (r: Option<char>)
    ensures
        r == esc_char(c),
{
    if c == 'b' {
        Some('\u{8}')
    } else if c == 't' {
        Some('\t')
    } else if c == 'n' {
        Some('\n')
    } else if c == 'f' {
        Some('\u{c}')
    } else if c == 'r' {
        Some('\r')
    } else if c == '"' {
        Some('"')
    } else if c == '\\' {
        Some('\\')
    } else {
        None
    }
}

fn scan_basic_vec(s: &Vec<char>, i: usize) -> (r: Option<(Vec<char>, usize)>)
    requires
        i <= s@.len(),
    ensures
        scan_basic(s@, i as int) matches Some(p) ==> (r matches Some(q) && q.0@ == p.0 && q.1
            as int == p.1 && i < q.1 <= s@.len()),
        scan_basic(s@, i as int) is None ==> r is None,
    decreases s@.len() - i,
{
    if i == s.len() {
        return None;
    }
    let c = s[i];
    if c == '"' {
        return Some((Vec::new(), i + 1));
    }
    if c == '\\' {
        if i + 1 == s.len() {
            return None;
        }
        let ec = match esc_char_exec(s[i + 1]) {
            Some(x) => x,
            None => {
                return None;
            },
        };
        match scan_basic_vec(s, i + 2) {
            Some(q) => {
                let (mut v, j) = q;
                let ghost pre = v@;
                v.insert(0, ec);
                proof {
                    assert(v@ =~= seq![ec] + pre);
                }
                Some((v, j))
            },
            None => None,
        }
    } else {
        match scan_basic_vec(s, i + 1) {
            Some(q) => {
                let (mut v, j) = q;
                let ghost pre = v@;
                v.insert(0, c);
                proof {
                    assert(v@ =~= seq![c] + pre);
                }
                Some((v, j))
            },
            None => None,
        }
    }
}

fn scan_literal_vec(s: &Vec<char>, i: usize) -> (r: Option<(Vec<char>, usize)>)
    requires
        i <= s@.len(),
    ensures
        scan_literal(s@, i as int) matches Some(p) ==> (r matches Some(q) && q.0@ == p.0 && q.1
            as int == p.1 && i < q.1 <= s@.len()),
        scan_literal(s@, i as int) is None ==> r is None,
    decreases s@.len() - i,
{
    if i == s.len() {
        return None;
    }
    let c = s[i];
    if c == '\'' {
        return Some((Vec::new(), i + 1));
    }
    match scan_literal_vec(s, i + 1) {
        Some(q) => {
            let (mut v, j) = q;
            let ghost pre = v@;
            v.insert(0, c);
            proof {
                assert(v@ =~= seq![c] + pre);
            }
            Some((v, j))
        },
        None => None,
    }
}

fn vec_eq_vec(a: &Vec<char>, b: &Vec<char>) -> (r: bool)
    ensures
        r == (a@ == b@),
{
    if a.len() != b.len() {
        return false;
    }
    let mut i: usize = 0;
    while i < a.len()
        invariant
            0 <= i <= a@.len(),
            a@.len() == b@.len(),
            forall|j: int| 0 <= j < i ==> a@[j] == b@[j],
        decreases a@.len() - i,
    {
        if a[i] != b[i] {
            return false;
        }
        i = i + 1;
    }
    proof {
        assert(a@ =~= b@);
    }
    true
}

fn vec_copy(v: &Vec<char>) -> (r: Vec<char>)
    ensures
        r@ == v@,
{
    let r = vec_range(v, 0, v.len());
    proof {
        assert(v@.subrange(0, v@.len() as int) =~= v@);
    }
    r
}

/// The views of a sequence of character vectors.
pub open spec fn chars_views(s: Seq<Vec<char>>) -> Seq<Seq<char>> {
    s.map_values(|v: Vec<char>| v@)
}

/// The views of a sequence of pairs of character vectors.
pub open spec fn pair_views(s: Seq<(Vec<char>, Vec<char>)>) -> Seq<(Seq<char>, Seq<char>)> {
    s.map_values(|p: (Vec<char>, Vec<char>)| (p.0@, p.1@))
}

fn sections_contains(ss: &Vec<Vec<char>>, x: &Vec<char>) -> (r: bool)
    ensures
        r == seq_has(chars_views(ss@), x@),
{
    let mut i: usize = 0;
    while i < ss.len()
        invariant
            0 <= i <= ss@.len(),
            forall|j: int| 0 <= j < i ==> chars_views(ss@)[j] != x@,
        decreases ss@.len() - i,
    {
        proof {
            assert(chars_views(ss@)[i as int] == ss@[i as int]@);
        }
        if vec_eq_vec(&ss[i], x) {
            return true;
        }
        i = i + 1;
    }
    false
}

fn seen_contains(seen: &Vec<(Vec<char>, Vec<char>)>, sec: &Vec<char>, key: &Vec<char>) -> (r: bool)
    ensures
        r == seq_has(pair_views(seen@), (sec@, key@)),
{
    let mut i: usize = 0;
    while i < seen.len()
        invariant
            0 <= i <= seen@.len(),
            forall|j: int| 0 <= j < i ==> pair_views(seen@)[j] != (sec@, key@),
        decreases seen@.len() - i,
    {
        proof {
            assert(pair_views(seen@)[i as int] == (seen@[i as int].0@, seen@[i as int].1@));
        }
        let same_sec = vec_eq_vec(&seen[i].0, sec);
        let same_key = vec_eq_vec(&seen[i].1, key);
        if same_sec && same_key {
            return true;
        }
        i = i + 1;
    }
    false
}

fn vec_eq_str(v: &Vec<char>, s: &str) -> (r: bool)
    ensures
        r == (v@ == s@),
{
    let n = s.unicode_len();
    if v.len() != n {
        return false;
    }
    let mut i: usize = 0;
    while i < n
        invariant
            0 <= i <= n,
            n == s@.len(),
            v@.len() == n,
            forall|j: int| 0 <= j < i ==> v@[j] == s@[j],
        decreases n - i,
    {
        if v[i] != s.get_char(i) {
            return false;
        }
        i = i + 1;
    }
    proof {
        assert(v@ =~= s@);
    }
    true
}

/// The executable twin of [`ParseState`].
struct FieldsAcc {
    section: Vec<char>,
    sections: Vec<Vec<char>>,
    seen: Vec<(Vec<char>, Vec<char>)>,
    description: Option<Vec<char>>,
    version: Option<Vec<char>>,
    name: Option<Vec<char>>,
    objfile: Option<Vec<char>>,
}

pub open spec fn opt_chars_view(o: Option<Vec<char>>) -> Option<Seq<char>> {
    match o {
        Some(v) => Some(v@),
        None => None,
    }
}

impl FieldsAcc {
    spec fn model(self) -> ParseState {
        ParseState {
            section: self.section@,
            sections: chars_views(self.sections@),
            seen: pair_views(self.seen@),
            description: opt_chars_view(self.description),
            version: opt_chars_view(self.version),
            name: opt_chars_view(self.name),
            objfile: opt_chars_view(self.objfile),
        }
    }

    fn initial() -> (r: FieldsAcc)
        ensures
            r.model() == initial_state(),
    {
        let r = FieldsAcc {
            section: Vec::new(),
            sections: Vec::new(),
            seen: Vec::new(),
            description: None,
            version: None,
            name: None,
            objfile: None,
        };
        proof {
            assert(chars_views(r.sections@) =~= Seq::<Seq<char>>::empty());
            assert(pair_views(r.seen@) =~= Seq::<(Seq<char>, Seq<char>)>::empty());
        }
        r
    }
}

fn strip_cr_vec(l: Vec<char>) -> (r: Vec<char>)
    ensures
        r@ == strip_cr(l@),
{
    if l.len() > 0 && l[l.len() - 1] == '\r' {
        let ghost orig = l@;
        let mut m = l;
        m.pop();
        proof {
            assert(m@ =~= orig.drop_last());
        }
        m
    } else {
        l
    }
}

fn apply_line_vec(st: FieldsAcc, line: Vec<char>) -> (r: Result<FieldsAcc, VPluginError>)
    ensures
        apply_line(st.model(), line@) matches Some(m) ==> (r matches Ok(a) && a.model() == m),
        apply_line(st.model(), line@) is None ==> r == Err::<FieldsAcc, VPluginError>(
            VPluginError::ParametersError,
        ),
{
    let t = trim_vec(line);
    if t.len() == 0 {
        return Ok(st);
    }
    if t[0] == '#' {
        return Ok(st);
    }
    if t[0] == '[' {
        if t.len() < 2 || t[t.len() - 1] != ']' {
            return Err(VPluginError::ParametersError);
        }
        let inner = trim_vec(vec_range(&t, 1, t.len() - 1));
        if inner.len() == 0 || !all_key_chars_from(&inner, 0) {
            return Err(VPluginError::ParametersError);
        }
        if sections_contains(&st.sections, &inner) {
            return Err(VPluginError::ParametersError);
        }
        let FieldsAcc { section: _, mut sections, seen, description, version, name, objfile } = st;
        let inner2 = vec_copy(&inner);
        let ghost prev_sections = chars_views(sections@);
        sections.push(inner2);
        proof {
            assert(chars_views(sections@) =~= prev_sections.push(inner@));
        }
        return Ok(FieldsAcc { section: inner, sections, seen, description, version, name, objfile });
    }
    let e = find_char(&t, 0, '=');
    if e == t.len() {
        return Err(VPluginError::ParametersError);
    }
    let key = trim_vec(vec_range(&t, 0, e));
    proof {
        assert(t@.subrange(0, e as int) =~= t@.take(e as int));
    }
    let rest = trim_vec(vec_range(&t, e + 1, t.len()));
    proof {
        assert(t@.subrange((e + 1) as int, t@.len() as int) =~= t@.skip((e + 1) as int));
    }
    if key.len() == 0 || !all_key_chars_from(&key, 0) {
        return Err(VPluginError::ParametersError);
    }
    let scanned = if rest.len() == 0 {
        None
    } else if rest[0] == '"' {
        scan_basic_vec(&rest, 1)
    } else if rest[0] == '\'' {
        scan_literal_vec(&rest, 1)
    } else {
        None
    };
    let (val, j) = match scanned {
        Some(q) => q,
        None => {
            return Err(VPluginError::ParametersError);
        },
    };
    let tail = trim_vec(vec_range(&rest, j, rest.len()));
    proof {
        assert(rest@.subrange(j as int, rest@.len() as int) =~= rest@.skip(j as int));
    }
    if !(tail.len() == 0 || tail[0] == '#') {
        return Err(VPluginError::ParametersError);
    }
    if seen_contains(&st.seen, &st.section, &key) {
        return Err(VPluginError::ParametersError);
    }
    let FieldsAcc { section, sections, mut seen, description, version, name, objfile } = st;
    let sec_copy = vec_copy(&section);
    let key_copy = vec_copy(&key);
    let ghost prev_seen = pair_views(seen@);
    seen.push((sec_copy, key_copy));
    proof {
        assert(pair_views(seen@) =~= prev_seen.push((section@, key@)));
    }
    if !vec_eq_str(&section, "metadata") {
        return Ok(FieldsAcc { section, sections, seen, description, version, name, objfile });
    }
    if vec_eq_str(&key, "description") {
        return Ok(
            FieldsAcc { section, sections, seen, description: Some(val), version, name, objfile },
        );
    }
    if vec_eq_str(&key, "version") {
        return Ok(
            FieldsAcc { section, sections, seen, description, version: Some(val), name, objfile },
        );
    }
    if vec_eq_str(&key, "name") {
        return Ok(
            FieldsAcc { section, sections, seen, description, version, name: Some(val), objfile },
        );
    }
    if vec_eq_str(&key, "objfile") {
        return Ok(
            FieldsAcc { section, sections, seen, description, version, name, objfile: Some(val) },
        );
    }
    Ok(FieldsAcc { section, sections, seen, description, version, name, objfile })
}

fn parse_chars(s: Vec<char>, st: FieldsAcc) -> (r: Result<FieldsAcc, VPluginError>)
    ensures
        parse_from(s@, st.model()) matches Some(m) ==> (r matches Ok(a) && a.model() == m),
        parse_from(s@, st.model()) is None ==> r == Err::<FieldsAcc, VPluginError>(
            VPluginError::ParametersError,
        ),
    decreases s@.len(),
{
    let n = find_char(&s, 0, '\n');
    if n == s.len() {
        let line = strip_cr_vec(s);
        apply_line_vec(st, line)
    } else {
        let line = strip_cr_vec(vec_range(&s, 0, n));
        proof {
            assert(s@.subrange(0, n as int) =~= s@.take(n as int));
        }
        match apply_line_vec(st, line) {
            Err(e) => Err(e),
            Ok(st2) => {
                let rest = vec_range(&s, n + 1, s.len());
                proof {
                    assert(s@.subrange((n + 1) as int, s@.len() as int) =~= s@.skip((n + 1) as int));
                }
                parse_chars(rest, st2)
            },
        }
    }
}

impl PluginMetadata {
    /// Reads a manifest text into a metadata record, or reports
    /// `ParametersError`. This is useful for libraries that wish to make use
    /// of the loader's internals; no identity validation happens here.
    pub fn read_from_str(string: &str) -> (r: Result<PluginMetadata, VPluginError>)
        ensures
            r is Ok <==> manifest_wf(string@),
            r matches Ok(m) ==> metadata_matches(m, manifest_state(string@)->0),
            r matches Err(e) ==> e == VPluginError::ParametersError,
    {
        let chars = str_chars(string);
        let acc = match parse_chars(chars, FieldsAcc::initial()) {
            Err(e) => {
                return Err(e);
            },
            Ok(acc) => acc,
        };
        match (acc.description, acc.version, acc.name, acc.objfile) {
            (description, Some(version), Some(name), Some(objfile)) => Ok(
                PluginMetadata {
                    description: match description {
                        Some(d) => Some(chars_to_string(d)),
                        None => None,
                    },
                    version: chars_to_string(version),
                    name: chars_to_string(name),
                    objfile: chars_to_string(objfile),
                    filename: String::from_str("metadata.toml"),
                },
            ),
            _ => Err(VPluginError::ParametersError),
        }
    }
}

/// Whether a declared identity is acceptable: non-empty and space-free.
pub fn ident_ok(s: &str) -> (r: bool)
    ensures
        r == valid_ident(s@),
{
    let n = s.unicode_len();
    if n == 0 {
        return false;
    }
    let mut i: usize = 0;
    while i < n
        invariant
            0 <= i <= n,
            n == s@.len(),
            forall|j: int| 0 <= j < i ==> s@[j] != ' ',
        decreases n - i,
    {
        if s.get_char(i) == ' ' {
            return false;
        }
        i = i + 1;
    }
    true
}

} // verus!
