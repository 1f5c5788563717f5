//! The netlink family and multicast group named by the constants file.

use vstd::prelude::*;
use crate::text::string_of;

verus! {

/// Family used when the constants file does not name one.
pub const DEFAULT_FAMILY: &'static str = "sonic_stel";
/// Multicast group used when the constants file does not name one.
pub const DEFAULT_GROUP: &'static str = "ipfix";
/// Largest nesting measure (see `nesting_measure`) of constants text handed
/// to the YAML parser.
///
/// The parser recurses once per open collection. At the start of a line,
/// block collections whose column exceeds the line's indentation are closed,
/// so the block collections still open sit at distinct columns no greater
/// than the indentation. Each collection opened on the line itself starts at
/// a `-`, `?` or `:` of that line, or at a `[` or `{` (flow levels also stop
/// at 255), and each block level can add one indentless sequence. So a text
/// of measure at most this bound nests at most about 1300 levels deep, well
/// within a thread's stack.
pub const MAX_NESTING_MEASURE: usize = 512;

/// Whether `c` ends a line for the YAML scanner.
pub open spec fn is_break(c: char) -> bool {
    c == '\n' || c == '\r'
}

/// Whether `c` can open a collection.
pub open spec fn is_opener(c: char) -> bool {
    c == '-' || c == '?' || c == ':' || c == '[' || c == '{'
}

/// Whether the current line of `s` holds only spaces so far.
pub open spec fn in_indent(s: Seq<char>) -> bool
    decreases s.len(),
{
    if s.len() == 0 {
        true
    } else if is_break(s.last()) {
        true
    } else {
        s.last() == ' ' && in_indent(s.drop_last())
    }
}

/// Indentation plus openers of the current line of `s`.
pub open spec fn line_measure(s: Seq<char>) -> nat
    decreases s.len(),
{
    if s.len() == 0 {
        0
    } else if is_break(s.last()) {
        0
    } else if (s.last() == ' ' && in_indent(s.drop_last())) || is_opener(s.last()) {
        line_measure(s.drop_last()) + 1
    } else {
        line_measure(s.drop_last())
    }
}

/// Largest indentation-plus-openers count over the lines of `s`.
pub open spec fn nesting_measure(s: Seq<char>) -> nat
    decreases s.len(),
{
    if s.len() == 0 {
        0
    } else {
        let p = nesting_measure(s.drop_last());
        let t = line_measure(s);
        if p >= t { p } else { t }
    }
}

/// The text of the string stored under the keys `k1`, `k2`, `k3` of the
/// first YAML document of `text`, as `yaml_rust` reads it; none when the
/// text does not parse, holds no document, or has no string there.
pub uninterp spec fn yaml_string_at(text: Seq<char>, k1: Seq<char>, k2: Seq<char>, k3: Seq<char>) -> Option<Seq<char>>;

/// Relies on `yaml_rust::YamlLoader::load_from_str`, `Index<&str>` for
/// `Yaml` (the bad value when a key is missing) and `Yaml::as_str`: the
/// string at `k1.k2.k3` in the first document of `text`.
#[verifier::external_body]
fn yaml_string(text: &str, k1: &str, k2: &str, k3: &str) -> (r: Option<String>)
    requires
        nesting_measure(text@) <= MAX_NESTING_MEASURE,
    ensures
        match r {
            Some(s) => yaml_string_at(text@, k1@, k2@, k3@) == Some(s@),
            None => yaml_string_at(text@, k1@, k2@, k3@) is None,
        },
{
    match yaml_rust::YamlLoader::load_from_str(text) {
        Ok(docs) => docs.first().and_then(|d| d[k1][k2][k3].as_str()).map(|s| s.to_string()),
        Err(_) => None,
    }
}

/// Whether `text` nests within the parser's bound.
pub fn constants_nesting_fits(text: &str) -> (r: bool)
    ensures
        r == (nesting_measure(text@) <= MAX_NESTING_MEASURE),
{
    let n = text.unicode_len();
    let mut indent = true;
    let mut cur: usize = 0;
    let mut best: usize = 0;
    let mut i: usize = 0;
    while i < n
        invariant
            i <= n == text@.len(),
            indent == in_indent(text@.take(i as int)),
            cur == line_measure(text@.take(i as int)),
            best == nesting_measure(text@.take(i as int)),
            cur <= i,
            best <= i,
        decreases n - i,
    {
        assert(text@.take(i + 1).drop_last() =~= text@.take(i as int));
        let c = text.get_char(i);
        if c == '\n' || c == '\r' {
            cur = 0;
            indent = true;
        } else {
            if (c == ' ' && indent) || c == '-' || c == '?' || c == ':' || c == '[' || c == '{' {
                cur = cur + 1;
            }
            indent = indent && c == ' ';
        }
        if cur > best {
            best = cur;
        }
        i = i + 1;
    }
    assert(text@.take(n as int) =~= text@);
    best <= MAX_NESTING_MEASURE
}

/// The configured value at `constants.high_frequency_telemetry.<key>`, or `default`.
pub open spec fn configured(text: Seq<char>, key: Seq<char>, default: Seq<char>) -> Seq<char> {
    match yaml_string_at(text, "constants"@, "high_frequency_telemetry"@, key) {
        Some(v) => v,
        None => default,
    }
}

/// Family and group under `constants.high_frequency_telemetry` in the text of
/// the constants file; the defaults `sonic_stel` and `ipfix` stand in for
/// whatever is unreadable or missing.
pub fn get_genl_family_group(constants: Option<&str>) -> (r: (String, String))
    requires
        constants matches Some(t) ==> nesting_measure(t@) <= MAX_NESTING_MEASURE,
    ensures
        constants is None ==> r.0@ == DEFAULT_FAMILY@ && r.1@ == DEFAULT_GROUP@,
        constants matches Some(t) ==> r.0@ == configured(t@, "genl_family"@, DEFAULT_FAMILY@)
            && r.1@ == configured(t@, "genl_multicast_group"@, DEFAULT_GROUP@),
{
    let text = match constants {
        Some(t) => t,
        None => return (string_of(DEFAULT_FAMILY), string_of(DEFAULT_GROUP)),
    };
    let family = match yaml_string(text, "constants", "high_frequency_telemetry", "genl_family") {
        Some(f) => f,
        None => string_of(DEFAULT_FAMILY),
    };
    let group = match yaml_string(text, "constants", "high_frequency_telemetry", "genl_multicast_group") {
        Some(g) => g,
        None => string_of(DEFAULT_GROUP),
    };
    (family, group)
}

/// Family and group from the constants text when it nests within the
/// parser's bound; the defaults otherwise.
pub fn genl_family_group_from_text(constants: Option<&str>) -> (r: (String, String))
    ensures
        match constants {
            Some(t) if nesting_measure(t@) <= MAX_NESTING_MEASURE => r.0@ == configured(t@, "genl_family"@, DEFAULT_FAMILY@)
                && r.1@ == configured(t@, "genl_multicast_group"@, DEFAULT_GROUP@),
            _ => r.0@ == DEFAULT_FAMILY@ && r.1@ == DEFAULT_GROUP@,
        },
{
    match constants {
        Some(t) => {
            if constants_nesting_fits(t) {
                get_genl_family_group(Some(t))
            } else {
                get_genl_family_group(None)
            }
        },
        None => get_genl_family_group(None),
    }
}

} // verus!
