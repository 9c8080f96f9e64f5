//! Front matter: a YAML (`---`) or TOML (`+++`) block at the head of a
//! document, kept verbatim and parsed into a JSON object.
use serde_json::Value;
use vstd::prelude::*;

use crate::buffer::next_newline;
use crate::text::{chars_of, first_non_space, is_space, trim_space_start};

verus! {

#[verifier::external_type_specification]
#[verifier::external_body]
pub struct ExValue(Value);

#[verifier::external_type_specification]
#[verifier::external_body]
#[verifier::reject_recursive_types(K)]
#[verifier::reject_recursive_types(V)]
pub struct ExMap<K, V>(serde_json::Map<K, V>);

/// Whether `raw` parses as YAML into a value whose JSON form is an object.
pub uninterp spec fn yaml_object(raw: Seq<char>) -> bool;

/// Whether `raw` parses as TOML into a value whose JSON form is an object.
pub uninterp spec fn toml_object(raw: Seq<char>) -> bool;

/// The fields of the object that `raw` parses to as YAML, each key with the
/// compact JSON text of its value.
pub uninterp spec fn yaml_fields(raw: Seq<char>) -> vstd::map::Map<Seq<char>, Seq<char>>;

/// The string-valued fields of the object that `raw` parses to as YAML.
pub uninterp spec fn yaml_strings(raw: Seq<char>) -> vstd::map::Map<Seq<char>, Seq<char>>;

/// The fields of the table that `raw` parses to as TOML, each key with the
/// compact JSON text of its value.
pub uninterp spec fn toml_fields(raw: Seq<char>) -> vstd::map::Map<Seq<char>, Seq<char>>;

/// The string-valued fields of the table that `raw` parses to as TOML.
pub uninterp spec fn toml_strings(raw: Seq<char>) -> vstd::map::Map<Seq<char>, Seq<char>>;

/// The fields of a JSON object, each key with the compact JSON text of its value.
pub uninterp spec fn field_texts(m: serde_json::Map<String, Value>) -> vstd::map::Map<Seq<char>, Seq<char>>;

/// The fields of a JSON object whose value is a string, with that string.
pub uninterp spec fn string_fields(m: serde_json::Map<String, Value>) -> vstd::map::Map<Seq<char>, Seq<char>>;

/// Relies on `serde_yaml::from_str` and `serde_json::to_value`: the payload
/// parsed as YAML, kept only when it is a mapping.
#[verifier::external_body]
fn parse_yaml(raw: &str) -> (r: Option<serde_json::Map<String, Value>>)
    ensures
        r is Some == yaml_object(raw@),
        r is Some ==> field_texts(r->0) == yaml_fields(raw@) && string_fields(r->0) == yaml_strings(raw@),
{
    match serde_yaml::from_str::<serde_yaml::Value>(raw) {
        Ok(v) => match serde_json::to_value(v) {
            Ok(Value::Object(m)) => Some(m),
            _ => None,
        },
        Err(_) => None,
    }
}

/// Relies on `toml::from_str` and `serde_json::to_value`: the payload parsed
/// as TOML, kept only when it is a table.
#[verifier::external_body]
fn parse_toml(raw: &str) -> (r: Option<serde_json::Map<String, Value>>)
    ensures
        r is Some == toml_object(raw@),
        r is Some ==> field_texts(r->0) == toml_fields(raw@) && string_fields(r->0) == toml_strings(raw@),
{
    match toml::from_str::<toml::Value>(raw) {
        Ok(v) => match serde_json::to_value(v) {
            Ok(Value::Object(m)) => Some(m),
            _ => None,
        },
        Err(_) => None,
    }
}

/// Relies on `serde_json::Map::get`: the value stored under `key`.
#[verifier::external_body]
fn map_get<'a>(m: &'a serde_json::Map<String, Value>, key: &str) -> (r: Option<&'a Value>)
    ensures
        r is Some == field_texts(*m).contains_key(key@),
{
    m.get(key)
}

/// Relies on `serde_json::Map::get` and `Value::as_str`: the string stored
/// under `key`, if that value is a string.
#[verifier::external_body]
pub(crate) fn map_get_str<'a>(m: &'a serde_json::Map<String, Value>, key: &str) -> (r: Option<&'a str>)
    ensures
        r is Some == string_fields(*m).contains_key(key@),
        r is Some ==> r->0@ == string_fields(*m)[key@] && field_texts(*m).contains_key(key@),
{
    match m.get(key) {
        Some(v) => v.as_str(),
        None => None,
    }
}

/// Relies on `serde_json::Map::get` and `Value`'s `Display`: the compact
/// JSON text of the value stored under `key`.
#[verifier::external_body]
pub(crate) fn map_get_text(m: &serde_json::Map<String, Value>, key: &str) -> (r: Option<String>)
    ensures
        r is Some == field_texts(*m).contains_key(key@),
        r is Some ==> r->0@ == field_texts(*m)[key@],
{
    m.get(key).map(|v| v.to_string())
}

/// Syntax of the front-matter payload.
#[derive(Debug, Clone, Copy, PartialEq, Eq, Structural)]
pub enum FrontmatterFormat {
    Yaml,
    Toml,
}

/// The character that, three times over, delimits a block of format `f`.
pub open spec fn delim_char(f: FrontmatterFormat) -> char {
    match f {
        FrontmatterFormat::Yaml => '-',
        FrontmatterFormat::Toml => '+',
    }
}

/// The delimiter line of format `f`.
pub open spec fn delim(f: FrontmatterFormat) -> Seq<char> {
    seq![delim_char(f), delim_char(f), delim_char(f)]
}

/// Whether `raw` is a valid payload of format `f`.
pub open spec fn payload_object(f: FrontmatterFormat, raw: Seq<char>) -> bool {
    match f {
        FrontmatterFormat::Yaml => yaml_object(raw),
        FrontmatterFormat::Toml => toml_object(raw),
    }
}

/// The fields of the object that a payload of format `f` parses to, each
/// with the JSON text of its value.
pub open spec fn payload_fields(f: FrontmatterFormat, raw: Seq<char>) -> vstd::map::Map<Seq<char>, Seq<char>> {
    match f {
        FrontmatterFormat::Yaml => yaml_fields(raw),
        FrontmatterFormat::Toml => toml_fields(raw),
    }
}

/// The string-valued fields of the object that a payload of format `f` parses to.
pub open spec fn payload_strings(f: FrontmatterFormat, raw: Seq<char>) -> vstd::map::Map<Seq<char>, Seq<char>> {
    match f {
        FrontmatterFormat::Yaml => yaml_strings(raw),
        FrontmatterFormat::Toml => toml_strings(raw),
    }
}

/// `s` without its leading line feeds.
pub open spec fn strip_newlines(s: Seq<char>) -> Seq<char>
    decreases s.len(),
{
    if s.len() > 0 && s[0] == '\n' {
        strip_newlines(s.drop_first())
    } else {
        s
    }
}

/// The line starting at `p` is exactly the delimiter `d`.
pub open spec fn delim_line_at(t: Seq<char>, p: int, d: Seq<char>) -> bool {
    &&& 0 <= p
    &&& p + d.len() <= t.len()
    &&& t.subrange(p, p + d.len()) == d
    &&& (p + d.len() == t.len() || t[p + d.len()] == '\n')
}

/// First offset at or after `q` where a line consisting of `d` alone
/// starts, or `t.len()` if there is none.
pub open spec fn find_close(t: Seq<char>, d: Seq<char>, q: int) -> int
    decreases t.len() - q,
{
    if q < 1 || q >= t.len() {
        t.len() as int
    } else if t[q - 1] == '\n' && delim_line_at(t, q, d) {
        q
    } else {
        find_close(t, d, q + 1)
    }
}

/// Where the closing delimiter line of a block of format `f` at the head of
/// `t` starts (`t.len()` if there is none).
pub open spec fn close_of(t: Seq<char>, f: FrontmatterFormat) -> int {
    find_close(t, delim(f), next_newline(t, 0) + 1)
}

/// `t` opens with a line of the delimiter of format `f` alone, which a later
/// such line closes.
pub open spec fn has_block(t: Seq<char>, f: FrontmatterFormat) -> bool {
    &&& t.len() >= 3
    &&& t.take(3) == delim(f)
    &&& next_newline(t, 0) == 3
    &&& close_of(t, f) < t.len()
}

/// The payload of the block: the text strictly between the delimiter lines.
pub open spec fn block_raw(t: Seq<char>, f: FrontmatterFormat) -> Seq<char> {
    let o = next_newline(t, 0);
    let c = close_of(t, f);
    t.subrange(o + 1, if c > o + 1 { c - 1 } else { o + 1 })
}

/// The text after the closing delimiter, without leading line feeds.
pub open spec fn block_body(t: Seq<char>, f: FrontmatterFormat) -> Seq<char> {
    strip_newlines(t.skip(close_of(t, f) + 3))
}

/// `t` holds a block of format `f` whose payload parses to an object.
pub open spec fn valid_block(t: Seq<char>, f: FrontmatterFormat) -> bool {
    has_block(t, f) && payload_object(f, block_raw(t, f))
}

/// What extracting front matter from `content` gives: the format and raw
/// payload of the block, if any, and the body.
pub open spec fn extract_spec(content: Seq<char>) -> (Option<(FrontmatterFormat, Seq<char>)>, Seq<char>) {
    let t = trim_space_start(content);
    if valid_block(t, FrontmatterFormat::Yaml) {
        (
            Some((FrontmatterFormat::Yaml, block_raw(t, FrontmatterFormat::Yaml))),
            block_body(t, FrontmatterFormat::Yaml),
        )
    } else if valid_block(t, FrontmatterFormat::Toml) {
        (
            Some((FrontmatterFormat::Toml, block_raw(t, FrontmatterFormat::Toml))),
            block_body(t, FrontmatterFormat::Toml),
        )
    } else {
        (None, content)
    }
}

/// The block as written back: delimiter line, payload, delimiter line.
pub open spec fn delimited(f: FrontmatterFormat, raw: Seq<char>) -> Seq<char> {
    delim(f) + seq!['\n'] + raw + seq!['\n'] + delim(f)
}

proof fn lemma_find_close(t: Seq<char>, d: Seq<char>, q: int)
    requires
        1 <= q <= t.len(),
    ensures
        q <= find_close(t, d, q) <= t.len(),
        find_close(t, d, q) < t.len() ==> t[find_close(t, d, q) - 1] == '\n' && delim_line_at(
            t,
            find_close(t, d, q),
            d,
        ),
    decreases t.len() - q,
{
    if q < t.len() && !(t[q - 1] == '\n' && delim_line_at(t, q, d)) {
        lemma_find_close(t, d, q + 1);
    }
}

/// Text whose first non-blank characters open no delimiter line has no
/// front matter: extraction gives nothing and the whole text as body.
pub proof fn lemma_no_frontmatter(t: Seq<char>)
    requires
        !(trim_space_start(t).len() >= 3 && trim_space_start(t).take(3) == delim(FrontmatterFormat::Yaml)),
        !(trim_space_start(t).len() >= 3 && trim_space_start(t).take(3) == delim(FrontmatterFormat::Toml)),
    ensures
        extract_spec(t) == (None::<(FrontmatterFormat, Seq<char>)>, t),
{
}

proof fn lemma_find_close_skip(t: Seq<char>, d: Seq<char>, q: int, stop: int)
    requires
        1 <= q <= stop < t.len(),
        forall|i: int| q <= i < stop ==> !(t[i - 1] == '\n' && delim_line_at(t, i, d)),
    ensures
        find_close(t, d, q) == find_close(t, d, stop),
    decreases stop - q,
{
    if q < stop {
        lemma_find_close_skip(t, d, q + 1, stop);
    }
}

/// A block written out from a valid payload `m` with no line of its own
/// equal to the delimiter, followed by a line feed and a body `b`, extracts
/// back to exactly `m`, so that writing the block again gives the same
/// text, and to `b` without its leading line feeds (all of `b` when it does
/// not open with one).
pub proof fn lemma_frontmatter_round_trip(f: FrontmatterFormat, m: Seq<char>, b: Seq<char>)
    requires
        payload_object(f, m),
        forall|p: int| 0 <= p <= m.len() && (p == 0 || m[p - 1] == '\n') ==> !delim_line_at(m, p, delim(f)),
    ensures
        extract_spec(delimited(f, m) + seq!['\n'] + b) == (Some((f, m)), strip_newlines(b)),
        b.len() == 0 || b[0] != '\n' ==> strip_newlines(b) == b,
        match extract_spec(delimited(f, m) + seq!['\n'] + b).0 {
            Some(found) => delimited(found.0, found.1) == delimited(f, m),
            None => false,
        },
{
    let d = delim(f);
    let t = delimited(f, m) + seq!['\n'] + b;
    let n = m.len() as int;
    assert(t.len() == n + 9 + b.len());
    assert forall|i: int| 0 <= i < 3 implies t[i] == d[i] && t[n + 5 + i] == d[i] by {}
    assert(t[3] == '\n');
    assert forall|i: int| 0 <= i < n implies t[4 + i] == m[i] by {}
    assert(t[n + 4] == '\n');
    assert(t[n + 8] == '\n');
    assert forall|i: int| 0 <= i < b.len() implies t[n + 9 + i] == b[i] by {}
    // the text opens with the delimiter, so there is nothing to trim
    assert(!is_space(t[0]));
    assert(trim_space_start(t) == t);
    // the opening line ends at offset 3
    assert(next_newline(t, 3) == 3);
    assert(next_newline(t, 2) == 3);
    assert(next_newline(t, 1) == 3);
    assert(next_newline(t, 0) == 3);
    // no line of the payload closes the block
    assert forall|i: int| 4 <= i < n + 5 implies !(t[i - 1] == '\n' && delim_line_at(t, i, d)) by {
        let p = i - 4;
        if t[i - 1] == '\n' && delim_line_at(t, i, d) {
            if p + 3 <= n {
                assert(m.subrange(p, p + 3) =~= t.subrange(i, i + 3));
                if p > 0 {
                    assert(m[p - 1] == t[i - 1]);
                }
                assert(delim_line_at(m, p, d));
            } else {
                assert(t.subrange(i, i + 3)[n + 4 - i] == '\n');
                assert(d[n + 4 - i] != '\n');
            }
        }
    }
    assert(t.subrange(n + 5, n + 8) =~= d);
    assert(delim_line_at(t, n + 5, d));
    lemma_find_close_skip(t, d, 4, n + 5);
    assert(find_close(t, d, n + 5) == n + 5);
    assert(close_of(t, f) == n + 5);
    assert(t.take(3) =~= d);
    assert(block_raw(t, f) =~= m);
    assert(t.skip(n + 8).drop_first() =~= b);
    assert(block_body(t, f) == strip_newlines(b));
    if f == FrontmatterFormat::Toml {
        assert(t.take(3)[0] == '+');
        assert(delim(FrontmatterFormat::Yaml)[0] == '-');
    }
}

/// Parsed front matter: its format, the payload as written, and the parsed
/// object.
#[derive(Debug)]
pub struct Frontmatter {
    pub format: FrontmatterFormat,
    pub raw: String,
    pub data: serde_json::Map<String, Value>,
}

fn first_newline(t: &Vec<char>, from: usize) -> (r: usize)
    requires
        from <= t@.len(),
    ensures
        r == next_newline(t@, from as int),
{
    let mut i = from;
    while i < t.len() && t[i] != '\n'
        invariant
            from <= i <= t@.len(),
            next_newline(t@, from as int) == next_newline(t@, i as int),
        decreases t@.len() - i,
    {
        i += 1;
    }
    i
}

fn is_delim_line(t: &Vec<char>, p: usize, dc: char) -> (r: bool)
    ensures
        r == delim_line_at(t@, p as int, seq![dc, dc, dc]),
{
    if p >= t.len() || t.len() - p < 3 {
        return false;
    }
    let ok = t[p] == dc && t[p + 1] == dc && t[p + 2] == dc && (p + 3 == t.len() || t[p + 3] == '\n');
    if ok {
        assert(t@.subrange(p as int, p + 3) =~= seq![dc, dc, dc]);
    } else if !(p + 3 == t.len() || t[p + 3] == '\n') {
    } else {
        assert(!(t@.subrange(p as int, p + 3) =~= seq![dc, dc, dc]) ==> t@.subrange(p as int, p + 3) != seq![dc, dc, dc]);
        assert(t@.subrange(p as int, p + 3)[0] == t@[p as int]);
        assert(t@.subrange(p as int, p + 3)[1] == t@[p + 1]);
        assert(t@.subrange(p as int, p + 3)[2] == t@[p + 2]);
    }
    ok
}

fn closing_line(t: &Vec<char>, from: usize, f: FrontmatterFormat) -> (r: usize)
    requires
        1 <= from <= t@.len(),
    ensures
        r == find_close(t@, delim(f), from as int),
{
    let dc = match f {
        FrontmatterFormat::Yaml => '-',
        FrontmatterFormat::Toml => '+',
    };
    let mut q = from;
    while q < t.len()
        invariant
            1 <= from <= q <= t@.len(),
            dc == delim_char(f),
            find_close(t@, delim(f), from as int) == find_close(t@, delim(f), q as int),
        decreases t@.len() - q,
    {
        if t[q - 1] == '\n' && is_delim_line(t, q, dc) {
            return q;
        }
        q += 1;
    }
    q
}

fn skip_newlines(t: &Vec<char>, from: usize) -> (r: usize)
    requires
        from <= t@.len(),
    ensures
        from <= r <= t@.len(),
        strip_newlines(t@.skip(from as int)) == t@.skip(r as int),
{
    let mut j = from;
    while j < t.len() && t[j] == '\n'
        invariant
            from <= j <= t@.len(),
            strip_newlines(t@.skip(from as int)) == strip_newlines(t@.skip(j as int)),
        decreases t@.len() - j,
    {
        assert(t@.skip(j as int).drop_first() =~= t@.skip(j + 1));
        j += 1;
    }
    if j < t.len() {
        assert(t@.skip(j as int)[0] == t@[j as int]);
    } else {
        assert(t@.skip(j as int).len() == 0);
    }
    j
}

/// Offsets of the opening line's end and of the closing delimiter line of a
/// block of format `f` at the head of `t`, if there is one.
fn locate_block(t: &Vec<char>, f: FrontmatterFormat) -> (r: Option<(usize, usize)>)
    ensures
        r is Some == has_block(t@, f),
        r matches Some((o, c)) ==> o == next_newline(t@, 0) && c == close_of(t@, f),
        r matches Some((o, c)) ==> o < c && c + 3 <= t@.len(),
{
    let dc = match f {
        FrontmatterFormat::Yaml => '-',
        FrontmatterFormat::Toml => '+',
    };
    if t.len() < 3 || t[0] != dc || t[1] != dc || t[2] != dc {
        proof {
            if t@.len() >= 3 && t@.take(3) == delim(f) {
                assert(t@.take(3)[0] == t@[0] && t@.take(3)[1] == t@[1] && t@.take(3)[2] == t@[2]);
            }
        }
        return None;
    }
    assert(t@.take(3) =~= delim(f));
    let o = first_newline(t, 0);
    if o != 3 || o >= t.len() {
        return None;
    }
    let c = closing_line(t, o + 1, f);
    proof {
        lemma_find_close(t@, delim(f), o + 1);
    }
    if c >= t.len() {
        return None;
    }
    Some((o, c))
}

impl Frontmatter {
    /// Splits `content` into its front matter, if it opens with a valid
    /// block, and the body. Leading white space before the block is ignored;
    /// without a valid block the body is all of `content`.
    pub fn extract(content: &str) -> (r: (Option<Frontmatter>, &str))
        ensures
            r.0 is Some == extract_spec(content@).0 is Some,
            r.0 is Some ==> (r.0->0.format, r.0->0.raw@) == extract_spec(content@).0->0,
            r.0 is Some ==> field_texts(r.0->0.data) == payload_fields(r.0->0.format, r.0->0.raw@)
                && string_fields(r.0->0.data) == payload_strings(r.0->0.format, r.0->0.raw@),
            r.1@ == extract_spec(content@).1,
    {
        let cs = chars_of(content);
        let k = first_non_space(&cs);
        let trimmed = content.substring_char(k, cs.len());
        let t = chars_of(trimmed);
        assert(t@ == trim_space_start(content@));
        match Self::extract_block(trimmed, &t, FrontmatterFormat::Yaml) {
            Some((fm, body)) => {
                return (Some(fm), body);
            },
            None => {},
        }
        match Self::extract_block(trimmed, &t, FrontmatterFormat::Toml) {
            Some((fm, body)) => {
                return (Some(fm), body);
            },
            None => {},
        }
        (None, content)
    }

    fn extract_block<'a>(trimmed: &'a str, t: &Vec<char>, f: FrontmatterFormat) -> (r: Option<(Frontmatter, &'a str)>)
        requires
            t@ == trimmed@,
        ensures
            r is Some == valid_block(t@, f),
            r matches Some((fm, body)) ==> fm.format == f && fm.raw@ == block_raw(t@, f) && body@ == block_body(t@, f)
                && field_texts(fm.data) == payload_fields(f, fm.raw@) && string_fields(fm.data) == payload_strings(
                f,
                fm.raw@,
            ),
    {
        match locate_block(t, f) {
            None => None,
            Some((o, c)) => {
                proof {
                    crate::buffer::lemma_next_newline(t@, 0);
                    lemma_find_close(t@, delim(f), o + 1);
                }
                let n = t.len();
                let raw_end = if c > o + 1 { c - 1 } else { o + 1 };
                let raw = trimmed.substring_char(o + 1, raw_end);
                let parsed = match f {
                    FrontmatterFormat::Yaml => parse_yaml(raw),
                    FrontmatterFormat::Toml => parse_toml(raw),
                };
                match parsed {
                    None => None,
                    Some(data) => {
                        let j = skip_newlines(t, c + 3);
                        let body = trimmed.substring_char(j, t.len());
                        Some((Frontmatter { format: f, raw: raw.to_owned(), data }, body))
                    },
                }
            },
        }
    }

    /// The value stored under `key`.
    pub fn get(&self, key: &str) -> (r: Option<&Value>)
        ensures
            r is Some == field_texts(self.data).contains_key(key@),
    {
        map_get(&self.data, key)
    }

    /// The value stored under `key`, if it is a string.
    pub fn get_str(&self, key: &str) -> (r: Option<&str>)
        ensures
            r is Some == string_fields(self.data).contains_key(key@),
            r is Some ==> r->0@ == string_fields(self.data)[key@],
    {
        map_get_str(&self.data, key)
    }

    /// The block as written: delimiter line, the raw payload, delimiter line.
    pub fn to_string(&self) -> (r: String)
        ensures
            r@ == delimited(self.format, self.raw@),
    {
        let dc = match self.format {
            FrontmatterFormat::Yaml => '-',
            FrontmatterFormat::Toml => '+',
        };
        let mut s = String::new();
        s.push(dc);
        s.push(dc);
        s.push(dc);
        s.push('\n');
        s.append(self.raw.as_str());
        s.push('\n');
        s.push(dc);
        s.push(dc);
        s.push(dc);
        assert(s@ =~= delimited(self.format, self.raw@));
        s
    }
}

} // verus!
