//! The configuration file grammar.
//!
//! A configuration document is a sequence of lines. After trimming, a line is
//! blank, a comment starting with `#`, a section header `[name]`, or an
//! assignment `key = "value"` whose value is a double-quoted string without
//! inner quotes or escapes. The keys the model reads are `environment` at the
//! top level and `filter` and `format` under `[logging]`; assignments to any
//! other key are ignored, and a later assignment to the same key wins. A line
//! of any other shape is a syntax error, and an empty document is valid.

use vstd::prelude::*;

use crate::config::{ConfigLayer, LayerModel};
use crate::text::{find_char, find_char_from, spec_trim, str_eq, trim_str};

verus! {

/// The section of the document an assignment line belongs to.
#[derive(Clone, Copy, Debug, PartialEq, Eq, Structural)]
pub enum Section {
    /// Before any section header.
    Top,
    /// Under the `[logging]` header.
    Logging,
    /// Under a header the model does not read; assignments there are ignored.
    Other,
}

/// The fields of the configuration model a document line can set.
#[derive(Clone, Copy, Debug, PartialEq, Eq, Structural)]
pub enum ConfigField {
    /// The deployment environment.
    Environment,
    /// The logging filter expression.
    Filter,
    /// The logging output format.
    Format,
}

/// Whether `v` is a double-quoted string without inner quotes.
pub open spec fn spec_quoted(v: Seq<char>) -> bool {
    &&& v.len() >= 2
    &&& v[0] == '"'
    &&& v[v.len() - 1] == '"'
    &&& forall|p: int| 1 <= p < v.len() - 1 ==> v[p] != '"'
}

/// The section a header names: only `logging` is read by the model.
pub open spec fn spec_section_of(name: Seq<char>) -> Section {
    if name == "logging"@ {
        Section::Logging
    } else {
        Section::Other
    }
}

/// The model field a key sets in a given section, if any.
pub open spec fn spec_field_of(sec: Section, key: Seq<char>) -> Option<ConfigField> {
    match sec {
        Section::Top => if key == "environment"@ {
            Some(ConfigField::Environment)
        } else {
            None
        },
        Section::Logging => if key == "filter"@ {
            Some(ConfigField::Filter)
        } else if key == "format"@ {
            Some(ConfigField::Format)
        } else {
            None
        },
        Section::Other => None,
    }
}

/// What one line of the document does: an error for a malformed line, or the
/// section the following lines belong to together with the field the line
/// sets, if it sets one.
pub open spec fn spec_line_action(line: Seq<char>, sec: Section) -> Result<
    (Section, Option<(ConfigField, Seq<char>)>),
    (),
> {
    let t = spec_trim(line);
    if t.len() == 0 {
        Ok((sec, None))
    } else if t[0] == '#' {
        Ok((sec, None))
    } else if t[0] == '[' {
        if t.len() >= 2 && t[t.len() - 1] == ']' && spec_trim(
            t.subrange(1, t.len() - 1),
        ).len() > 0 {
            Ok((spec_section_of(spec_trim(t.subrange(1, t.len() - 1))), None))
        } else {
            Err(())
        }
    } else {
        let k = find_char(t, 0, '=');
        if k == t.len() {
            Err(())
        } else {
            let key = spec_trim(t.subrange(0, k));
            if key.len() == 0 {
                Err(())
            } else {
                let v = spec_trim(t.subrange(k + 1, t.len() as int));
                match spec_field_of(sec, key) {
                    Option::None => Ok((sec, None)),
                    Option::Some(f) => if spec_quoted(v) {
                        Ok((sec, Some((f, v.subrange(1, v.len() - 1)))))
                    } else {
                        Err(())
                    },
                }
            }
        }
    }
}

/// The layer with one field overwritten, when a line sets one.
pub open spec fn spec_apply(
    layer: LayerModel,
    upd: Option<(ConfigField, Seq<char>)>,
) -> LayerModel {
    match upd {
        Option::None => layer,
        Option::Some((f, v)) => match f {
            ConfigField::Environment => LayerModel { environment: Some(v), ..layer },
            ConfigField::Filter => LayerModel { filter: Some(v), ..layer },
            ConfigField::Format => LayerModel { format: Some(v), ..layer },
        },
    }
}

/// The layer a document denotes, read line by line from position `i`
/// onwards, starting in section `sec` with the fields of `acc` already set.
pub open spec fn spec_parse_from(
    s: Seq<char>,
    i: int,
    sec: Section,
    acc: LayerModel,
) -> Result<LayerModel, ()>
    decreases s.len() + 1 - i,
    via spec_parse_from_decreases
{
    if i < 0 || i > s.len() {
        Ok(acc)
    } else {
        let j = find_char(s, i, '\n');
        match spec_line_action(s.subrange(i, j), sec) {
            Result::Err(e) => Err(e),
            Result::Ok((sec2, upd)) => spec_parse_from(s, j + 1, sec2, spec_apply(acc, upd)),
        }
    }
}

#[via_fn]
proof fn spec_parse_from_decreases(s: Seq<char>, i: int, sec: Section, acc: LayerModel) {
    if 0 <= i <= s.len() {
        crate::text::lemma_find_char_bounds(s, i, '\n');
    }
}

/// The empty layer: no field set.
pub open spec fn spec_empty_layer() -> LayerModel {
    LayerModel { environment: None, filter: None, format: None }
}

/// The layer a whole document denotes, or an error if some line is
/// malformed.
pub open spec fn spec_parse_document(s: Seq<char>) -> Result<LayerModel, ()> {
    spec_parse_from(s, 0, Section::Top, spec_empty_layer())
}

/// The view of an update as the exec parser produces it.
pub open spec fn spec_upd_view(u: Option<(ConfigField, String)>) -> Option<
    (ConfigField, Seq<char>),
> {
    match u {
        Option::None => None,
        Option::Some((f, v)) => Some((f, v@)),
    }
}

/// Parses one line: the section the following lines belong to and the field
/// the line sets, or nothing for a malformed line.
#[verifier::loop_isolation(false)]
fn line_action(line: &str, sec: Section) -> (r: Option<(Section, Option<(ConfigField, String)>)>)
    ensures
        match r {
            Option::Some((sec2, upd)) => spec_line_action(line@, sec) == Ok::<
                (Section, Option<(ConfigField, Seq<char>)>),
                (),
            >((sec2, spec_upd_view(upd))),
            Option::None => spec_line_action(line@, sec) is Err,
        },
{
    let t = trim_str(line);
    let m = t.unicode_len();
    if m == 0 {
        return Some((sec, None));
    }
    let c0 = t.get_char(0);
    if c0 == '#' {
        return Some((sec, None));
    }
    if c0 == '[' {
        if m < 2 || t.get_char(m - 1) != ']' {
            return None;
        }
        let inner = trim_str(t.substring_char(1, m - 1));
        if inner.is_empty() {
            return None;
        }
        let sec2 = if str_eq(inner, "logging") {
            Section::Logging
        } else {
            Section::Other
        };
        return Some((sec2, None));
    }
    let k = find_char_from(t, 0, '=');
    if k == m {
        return None;
    }
    let key = trim_str(t.substring_char(0, k));
    if key.is_empty() {
        return None;
    }
    let field = match sec {
        Section::Top => if str_eq(key, "environment") {
            Some(ConfigField::Environment)
        } else {
            None
        },
        Section::Logging => if str_eq(key, "filter") {
            Some(ConfigField::Filter)
        } else if str_eq(key, "format") {
            Some(ConfigField::Format)
        } else {
            None
        },
        Section::Other => None,
    };
    let val = trim_str(t.substring_char(k + 1, m));
    match field {
        Option::None => Some((sec, None)),
        Option::Some(f) => {
            let vlen = val.unicode_len();
            if vlen < 2 || val.get_char(0) != '"' || val.get_char(vlen - 1) != '"' {
                return None;
            }
            let mut p: usize = 1;
            while p < vlen - 1
                invariant
                    1 <= p <= vlen - 1,
                    vlen == val@.len(),
                    forall|q: int| 1 <= q < p ==> val@[q] != '"',
                decreases vlen - p,
            {
                if val.get_char(p) == '"' {
                    return None;
                }
                p = p + 1;
            }
            let content = val.substring_char(1, vlen - 1);
            Some((sec, Some((f, content.to_owned()))))
        },
    }
}

/// The layer with one field overwritten, when a line sets one.
fn apply_update(layer: ConfigLayer, upd: Option<(ConfigField, String)>) -> (r: ConfigLayer)
    ensures
        r@ == spec_apply(layer@, spec_upd_view(upd)),
{
    match upd {
        Option::None => layer,
        Option::Some((f, v)) => match f {
            ConfigField::Environment => ConfigLayer { environment: Some(v), ..layer },
            ConfigField::Filter => ConfigLayer { filter: Some(v), ..layer },
            ConfigField::Format => ConfigLayer { format: Some(v), ..layer },
        },
    }
}

/// Parses a configuration document into the layer it denotes, or nothing if
/// some line is malformed.
pub fn parse_document(text: &str) -> (r: Option<ConfigLayer>)
    ensures
        match r {
            Option::Some(l) => spec_parse_document(text@) == Ok::<LayerModel, ()>(l@),
            Option::None => spec_parse_document(text@) is Err,
        },
{
    let n = text.unicode_len();
    let mut i: usize = 0;
    let mut sec = Section::Top;
    let mut layer = ConfigLayer::empty();
    loop
        invariant
            0 <= i <= n,
            n == text@.len(),
            spec_parse_document(text@) == spec_parse_from(text@, i as int, sec, layer@),
        decreases n - i,
    {
        let j = find_char_from(text, i, '\n');
        let line = text.substring_char(i, j);
        match line_action(line, sec) {
            Option::None => {
                return None;
            },
            Option::Some((sec2, upd)) => {
                sec = sec2;
                layer = apply_update(layer, upd);
            },
        }
        if j == n {
            proof {
                assert(spec_parse_from(text@, j as int + 1, sec, layer@) == Ok::<LayerModel, ()>(
                    layer@,
                ));
            }
            return Some(layer);
        }
        i = j + 1;
    }
}

} // verus!
