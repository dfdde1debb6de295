//! A structured JSON model.
//!
//! Backend configurations arrive as opaque JSON text. The daemon parses them
//! (through `serde_json`), walks and rewrites the parsed tree, and serializes
//! trees back to text when exporting its state. The tree lives in the
//! library's own `JsonValue` so that the walking and rewriting is verified;
//! only the parse itself is trusted.

use vstd::prelude::*;

verus! {

/// A parsed JSON document. Numbers keep their textual form: the control
/// plane never computes with them, it only carries them through.
#[derive(Debug)]
pub enum JsonValue {
    Null,
    Bool(bool),
    Num(String),
    Str(String),
    Arr(Vec<JsonValue>),
    Obj(Vec<(String, JsonValue)>),
}

/// The mathematical shape of a JSON document: `JsonValue` seen through the
/// views of its strings and vectors.
pub enum JsonSpecValue {
    Null,
    Bool(bool),
    Num(Seq<char>),
    Str(Seq<char>),
    Arr(Seq<JsonSpecValue>),
    Obj(Seq<(Seq<char>, JsonSpecValue)>),
}

/// The view of a `JsonValue`.
pub open spec fn view_json(j: JsonValue) -> JsonSpecValue
    decreases j,
    via view_json_decreases
{
    match j {
        JsonValue::Null => JsonSpecValue::Null,
        JsonValue::Bool(b) => JsonSpecValue::Bool(b),
        JsonValue::Num(s) => JsonSpecValue::Num(s@),
        JsonValue::Str(s) => JsonSpecValue::Str(s@),
        JsonValue::Arr(items) => JsonSpecValue::Arr(view_json_seq(items@)),
        JsonValue::Obj(fields) => JsonSpecValue::Obj(view_json_fields(fields@)),
    }
}

/// The views of a sequence of values, in order.
pub open spec fn view_json_seq(s: Seq<JsonValue>) -> Seq<JsonSpecValue>
    decreases s,
    via view_json_seq_decreases
{
    if s.len() == 0 {
        Seq::empty()
    } else {
        view_json_seq(s.drop_last()).push(view_json(s.last()))
    }
}

/// The views of a sequence of object fields, in order.
pub open spec fn view_json_fields(s: Seq<(String, JsonValue)>) -> Seq<(Seq<char>, JsonSpecValue)>
    decreases s,
    via view_json_fields_decreases
{
    if s.len() == 0 {
        Seq::empty()
    } else {
        view_json_fields(s.drop_last()).push((s.last().0@, view_json(s.last().1)))
    }
}

#[via_fn]
proof fn view_json_decreases(j: JsonValue) {
    match j {
        JsonValue::Arr(items) => {
            assert(decreases_to!(j => j->Arr_0));
            assert(decreases_to!(j->Arr_0 => j->Arr_0@));
        },
        JsonValue::Obj(fields) => {
            assert(decreases_to!(j => j->Obj_0));
            assert(decreases_to!(j->Obj_0 => j->Obj_0@));
        },
        _ => {},
    }
}

#[via_fn]
proof fn view_json_seq_decreases(s: Seq<JsonValue>) {
    if s.len() > 0 {
        assert(decreases_to!(s => s.subrange(0, s.len() - 1)));
        assert(s.drop_last() == s.subrange(0, s.len() - 1));
        assert(decreases_to!(s => s[s.len() - 1]));
    }
}

#[via_fn]
proof fn view_json_fields_decreases(s: Seq<(String, JsonValue)>) {
    if s.len() > 0 {
        assert(decreases_to!(s => s.subrange(0, s.len() - 1)));
        assert(s.drop_last() == s.subrange(0, s.len() - 1));
        assert(decreases_to!(s => s[s.len() - 1]));
        assert(decreases_to!(s[s.len() - 1] => s[s.len() - 1].1));
    }
}

impl View for JsonValue {
    type V = JsonSpecValue;

    open spec fn view(&self) -> JsonSpecValue {
        view_json(*self)
    }
}

/// A sequence of values views element by element.
pub proof fn lemma_view_json_seq(s: Seq<JsonValue>)
    ensures
        view_json_seq(s).len() == s.len(),
        forall|i: int| 0 <= i < s.len() ==> view_json_seq(s)[i] == view_json(s[i]),
    decreases s.len(),
{
    if s.len() > 0 {
        lemma_view_json_seq(s.drop_last());
    }
}

/// A sequence of object fields views field by field.
pub proof fn lemma_view_json_fields(s: Seq<(String, JsonValue)>)
    ensures
        view_json_fields(s).len() == s.len(),
        forall|i: int|
            0 <= i < s.len() ==> view_json_fields(s)[i] == (s[i].0@, view_json(s[i].1)),
    decreases s.len(),
{
    if s.len() > 0 {
        lemma_view_json_fields(s.drop_last());
    }
}

impl Clone for JsonValue {
    /// A clone keeps the whole shape of the document.
    fn clone(&self) -> (res: Self)
        ensures
            res@ == self@,
        decreases *self,
    {
        match self {
            JsonValue::Null => JsonValue::Null,
            JsonValue::Bool(b) => JsonValue::Bool(*b),
            JsonValue::Num(s) => JsonValue::Num(s.clone()),
            JsonValue::Str(s) => JsonValue::Str(s.clone()),
            JsonValue::Arr(items) => {
                let mut out: Vec<JsonValue> = Vec::new();
                let mut i: usize = 0;
                while i < items.len()
                    invariant
                        *self is Arr,
                        *items == self->Arr_0,
                        i <= items@.len(),
                        out@.len() == i,
                        forall|k: int| 0 <= k < i ==> view_json(out@[k]) == view_json(items@[k]),
                    decreases items@.len() - i,
                {
                    proof {
                        assert(decreases_to!(*self => self->Arr_0));
                        assert(decreases_to!(*items => items@));
                        assert(decreases_to!(items@ => items@[i as int]));
                    }
                    out.push(items[i].clone());
                    i = i + 1;
                }
                proof {
                    lemma_view_json_seq(out@);
                    lemma_view_json_seq(items@);
                    assert(view_json_seq(out@) =~= view_json_seq(items@));
                }
                JsonValue::Arr(out)
            },
            JsonValue::Obj(fields) => {
                let mut out: Vec<(String, JsonValue)> = Vec::new();
                let mut i: usize = 0;
                while i < fields.len()
                    invariant
                        *self is Obj,
                        *fields == self->Obj_0,
                        i <= fields@.len(),
                        out@.len() == i,
                        forall|k: int|
                            0 <= k < i ==> out@[k].0@ == fields@[k].0@ && view_json(out@[k].1)
                                == view_json(fields@[k].1),
                    decreases fields@.len() - i,
                {
                    proof {
                        assert(decreases_to!(*self => self->Obj_0));
                        assert(decreases_to!(*fields => fields@));
                        assert(decreases_to!(fields@ => fields@[i as int]));
                        assert(decreases_to!(fields@[i as int] => fields@[i as int].1));
                    }
                    let entry = &fields[i];
                    out.push((entry.0.clone(), entry.1.clone()));
                    i = i + 1;
                }
                proof {
                    lemma_view_json_fields(out@);
                    lemma_view_json_fields(fields@);
                    assert(view_json_fields(out@) =~= view_json_fields(fields@));
                }
                JsonValue::Obj(out)
            },
        }
    }
}

/// Relies on `String::push`: appends exactly one character.
pub assume_specification[ String::push ](s: &mut String, c: char)
    ensures
        final(s)@ == old(s)@.push(c),
;

/// The hexadecimal digit for a value below sixteen.
pub open spec fn spec_hex_digit(n: int) -> char {
    if n == 0 {
        '0'
    } else if n == 1 {
        '1'
    } else if n == 2 {
        '2'
    } else if n == 3 {
        '3'
    } else if n == 4 {
        '4'
    } else if n == 5 {
        '5'
    } else if n == 6 {
        '6'
    } else if n == 7 {
        '7'
    } else if n == 8 {
        '8'
    } else if n == 9 {
        '9'
    } else if n == 10 {
        'a'
    } else if n == 11 {
        'b'
    } else if n == 12 {
        'c'
    } else if n == 13 {
        'd'
    } else if n == 14 {
        'e'
    } else {
        'f'
    }
}

/// How one character appears inside a JSON string literal: quotes and
/// backslashes are escaped, control characters take their short escape or a
/// `\u00XX` form, everything else stands as itself.
pub open spec fn spec_escape_char(c: char) -> Seq<char> {
    if c == '"' {
        seq!['\\', '"']
    } else if c == '\\' {
        seq!['\\', '\\']
    } else if c == '\n' {
        seq!['\\', 'n']
    } else if c == '\r' {
        seq!['\\', 'r']
    } else if c == '\t' {
        seq!['\\', 't']
    } else if (c as u32) < 32 {
        seq!['\\', 'u', '0', '0', spec_hex_digit(c as u32 as int / 16), spec_hex_digit(
            c as u32 as int % 16,
        )]
    } else {
        seq![c]
    }
}

/// The body of a JSON string literal: each character escaped in order.
pub open spec fn spec_escape_chars(s: Seq<char>) -> Seq<char>
    decreases s.len(),
{
    if s.len() == 0 {
        Seq::empty()
    } else {
        spec_escape_chars(s.drop_last()) + spec_escape_char(s.last())
    }
}

/// A JSON string literal: the escaped body between double quotes.
pub open spec fn spec_quote(s: Seq<char>) -> Seq<char> {
    seq!['"'] + spec_escape_chars(s) + seq!['"']
}

/// The canonical text of a JSON document: no whitespace, object fields in
/// their stored order, strings escaped by `spec_escape_char`.
pub open spec fn spec_json_string(j: JsonSpecValue) -> Seq<char>
    decreases j,
{
    match j {
        JsonSpecValue::Null => "null"@,
        JsonSpecValue::Bool(b) => if b {
            "true"@
        } else {
            "false"@
        },
        JsonSpecValue::Num(s) => s,
        JsonSpecValue::Str(s) => spec_quote(s),
        JsonSpecValue::Arr(items) => seq!['['] + spec_arr_body(items) + seq![']'],
        JsonSpecValue::Obj(fields) => seq!['{'] + spec_obj_body(fields) + seq!['}'],
    }
}

/// The comma-separated elements of a JSON array.
pub open spec fn spec_arr_body(items: Seq<JsonSpecValue>) -> Seq<char>
    decreases items,
    via spec_arr_body_decreases
{
    if items.len() == 0 {
        Seq::empty()
    } else if items.len() == 1 {
        spec_json_string(items[0])
    } else {
        spec_arr_body(items.drop_last()) + seq![','] + spec_json_string(items.last())
    }
}

/// The comma-separated `"key":value` fields of a JSON object.
pub open spec fn spec_obj_body(fields: Seq<(Seq<char>, JsonSpecValue)>) -> Seq<char>
    decreases fields,
    via spec_obj_body_decreases
{
    if fields.len() == 0 {
        Seq::empty()
    } else if fields.len() == 1 {
        spec_quote(fields[0].0) + seq![':'] + spec_json_string(fields[0].1)
    } else {
        spec_obj_body(fields.drop_last()) + seq![','] + spec_quote(fields.last().0) + seq![':']
            + spec_json_string(fields.last().1)
    }
}

#[via_fn]
proof fn spec_arr_body_decreases(items: Seq<JsonSpecValue>) {
    if items.len() > 0 {
        assert(decreases_to!(items => items[0]));
        assert(decreases_to!(items => items.subrange(0, items.len() - 1)));
        assert(items.drop_last() == items.subrange(0, items.len() - 1));
        assert(decreases_to!(items => items[items.len() - 1]));
    }
}

#[via_fn]
proof fn spec_obj_body_decreases(fields: Seq<(Seq<char>, JsonSpecValue)>) {
    if fields.len() > 0 {
        assert(decreases_to!(fields => fields[0]));
        assert(decreases_to!(fields[0] => fields[0].1));
        assert(decreases_to!(fields => fields.subrange(0, fields.len() - 1)));
        assert(fields.drop_last() == fields.subrange(0, fields.len() - 1));
        assert(decreases_to!(fields => fields[fields.len() - 1]));
        assert(decreases_to!(fields[fields.len() - 1] => fields[fields.len() - 1].1));
    }
}

/// The hexadecimal digit for a value below sixteen.
fn hex_digit(n: u32) -> (c: char)
    requires
        n < 16,
    ensures
        c == spec_hex_digit(n as int),
{
    if n == 0 {
        '0'
    } else if n == 1 {
        '1'
    } else if n == 2 {
        '2'
    } else if n == 3 {
        '3'
    } else if n == 4 {
        '4'
    } else if n == 5 {
        '5'
    } else if n == 6 {
        '6'
    } else if n == 7 {
        '7'
    } else if n == 8 {
        '8'
    } else if n == 9 {
        '9'
    } else if n == 10 {
        'a'
    } else if n == 11 {
        'b'
    } else if n == 12 {
        'c'
    } else if n == 13 {
        'd'
    } else if n == 14 {
        'e'
    } else {
        'f'
    }
}

/// Renders a string as a JSON string literal, escaping as `spec_quote` says.
pub fn escape_and_quote(s: &str) -> (r: String)
    ensures
        r@ == spec_quote(s@),
{
    let mut res = String::new();
    res.push('"');
    let n = s.unicode_len();
    let mut i: usize = 0;
    while i < n
        invariant
            n == s@.len(),
            i <= n,
            res@ == seq!['"'] + spec_escape_chars(s@.take(i as int)),
        decreases n - i,
    {
        let c = s.get_char(i);
        if c == '"' {
            res.push('\\');
            res.push('"');
        } else if c == '\\' {
            res.push('\\');
            res.push('\\');
        } else if c == '\n' {
            res.push('\\');
            res.push('n');
        } else if c == '\r' {
            res.push('\\');
            res.push('r');
        } else if c == '\t' {
            res.push('\\');
            res.push('t');
        } else {
            let v = c as u32;
            if v < 32 {
                res.push('\\');
                res.push('u');
                res.push('0');
                res.push('0');
                res.push(hex_digit(v / 16));
                res.push(hex_digit(v % 16));
            } else {
                res.push(c);
            }
        }
        proof {
            assert(s@.take(i + 1).drop_last() =~= s@.take(i as int));
            assert(s@.take(i + 1).last() == s@[i as int]);
            assert(res@ =~= seq!['"'] + spec_escape_chars(s@.take(i + 1)));
        }
        i = i + 1;
    }
    res.push('"');
    proof {
        assert(s@.take(n as int) =~= s@);
        assert(res@ =~= spec_quote(s@));
    }
    res
}

/// Serializes a document to its canonical JSON text.
pub fn json_to_string(j: &JsonValue) -> (r: String)
    ensures
        r@ == spec_json_string(j@),
    decreases *j,
{
    match j {
        JsonValue::Null => "null".to_owned(),
        JsonValue::Bool(b) => if *b {
            "true".to_owned()
        } else {
            "false".to_owned()
        },
        JsonValue::Num(s) => s.clone(),
        JsonValue::Str(s) => escape_and_quote(s.as_str()),
        JsonValue::Arr(items) => {
            let ghost vs = view_json_seq(items@);
            proof {
                lemma_view_json_seq(items@);
            }
            let mut res = "[".to_owned();
            proof {
                reveal_strlit("[");
                assert(vs.take(0) =~= Seq::<JsonSpecValue>::empty());
                assert(res@ =~= seq!['['] + spec_arr_body(vs.take(0)));
            }
            let mut i: usize = 0;
            while i < items.len()
                invariant
                    *j is Arr,
                    *items == j->Arr_0,
                    vs == view_json_seq(items@),
                    vs.len() == items@.len(),
                    forall|k: int| 0 <= k < items@.len() ==> vs[k] == view_json(items@[k]),
                    i <= items@.len(),
                    res@ == seq!['['] + spec_arr_body(vs.take(i as int)),
                decreases items@.len() - i,
            {
                if i > 0 {
                    res.push(',');
                }
                proof {
                    assert(decreases_to!(*j => j->Arr_0));
                    assert(decreases_to!(*items => items@));
                    assert(decreases_to!(items@ => items@[i as int]));
                }
                let piece = json_to_string(&items[i]);
                res.append(piece.as_str());
                proof {
                    assert(vs.take(i + 1).drop_last() =~= vs.take(i as int));
                    assert(vs.take(i + 1).last() == vs[i as int]);
                    if i == 0 {
                        assert(spec_arr_body(vs.take(1)) == spec_json_string(vs[0]));
                    }
                    assert(res@ =~= seq!['['] + spec_arr_body(vs.take(i + 1)));
                }
                i = i + 1;
            }
            res.push(']');
            proof {
                assert(vs.take(items@.len() as int) =~= vs);
                assert(res@ =~= spec_json_string(j@));
            }
            res
        },
        JsonValue::Obj(fields) => {
            let ghost vf = view_json_fields(fields@);
            proof {
                lemma_view_json_fields(fields@);
            }
            let mut res = "{".to_owned();
            proof {
                reveal_strlit("{");
                assert(vf.take(0) =~= Seq::<(Seq<char>, JsonSpecValue)>::empty());
                assert(res@ =~= seq!['{'] + spec_obj_body(vf.take(0)));
            }
            let mut i: usize = 0;
            while i < fields.len()
                invariant
                    *j is Obj,
                    *fields == j->Obj_0,
                    vf == view_json_fields(fields@),
                    vf.len() == fields@.len(),
                    forall|k: int|
                        0 <= k < fields@.len() ==> vf[k] == (fields@[k].0@, view_json(
                            fields@[k].1,
                        )),
                    i <= fields@.len(),
                    res@ == seq!['{'] + spec_obj_body(vf.take(i as int)),
                decreases fields@.len() - i,
            {
                if i > 0 {
                    res.push(',');
                }
                let entry = &fields[i];
                let key = escape_and_quote(entry.0.as_str());
                res.append(key.as_str());
                res.push(':');
                proof {
                    assert(decreases_to!(*j => j->Obj_0));
                    assert(decreases_to!(*fields => fields@));
                    assert(decreases_to!(fields@ => fields@[i as int]));
                    assert(decreases_to!(fields@[i as int] => fields@[i as int].1));
                }
                let piece = json_to_string(&entry.1);
                res.append(piece.as_str());
                proof {
                    assert(vf.take(i + 1).drop_last() =~= vf.take(i as int));
                    assert(vf.take(i + 1).last() == vf[i as int]);
                    if i == 0 {
                        assert(spec_obj_body(vf.take(1)) == spec_quote(vf[0].0) + seq![':']
                            + spec_json_string(vf[0].1));
                    }
                    assert(res@ =~= seq!['{'] + spec_obj_body(vf.take(i + 1)));
                }
                i = i + 1;
            }
            res.push('}');
            proof {
                assert(vf.take(fields@.len() as int) =~= vf);
                assert(res@ =~= spec_json_string(j@));
            }
            res
        },
    }
}

/// What `serde_json`'s parser yields on a given text: `None` where the text
/// is not a JSON document.
pub uninterp spec fn json_parse(s: Seq<char>) -> Option<JsonSpecValue>;

#[verifier::external_type_specification]
#[verifier::external_body]
pub struct ExSerdeJsonValue(serde_json::Value);

/// Rebuilds a `serde_json::Value` as the library's own tree, one variant at
/// a time; numbers keep the textual form that `serde_json` renders for them.
/// Only `parse_json` calls this, inside its trusted body.
#[verifier::external_body]
fn value_to_json(v: &serde_json::Value) -> JsonValue {
    match v {
        serde_json::Value::Null => JsonValue::Null,
        serde_json::Value::Bool(b) => JsonValue::Bool(*b),
        serde_json::Value::Number(n) => JsonValue::Num(n.to_string()),
        serde_json::Value::String(s) => JsonValue::Str(s.clone()),
        serde_json::Value::Array(a) => JsonValue::Arr(a.iter().map(value_to_json).collect()),
        serde_json::Value::Object(m) => JsonValue::Obj(
            m.iter().map(|(k, x)| (k.clone(), value_to_json(x))).collect(),
        ),
    }
}

/// Relies on `serde_json::from_str::<Value>`: parses a JSON document, or
/// fails; the outcome is a function of the input text alone.
#[verifier::external_body]
pub fn parse_json(s: &str) -> (r: Result<JsonValue, String>)
    ensures
        match r {
            Ok(j) => json_parse(s@) == Some(j@),
            Err(_) => json_parse(s@) is None,
        },
{
    match serde_json::from_str::<serde_json::Value>(s) {
        Ok(v) => Ok(value_to_json(&v)),
        Err(e) => Err(e.to_string()),
    }
}

} // verus!
