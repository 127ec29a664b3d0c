//! The JSON value tree that funscript documents are read from and written to.
//!
//! The tree itself (`Json`) and everything the schema layer does with it is
//! verified; only the translation between JSON text and the tree goes through
//! `serde_json`, behind the trusted functions at the bottom of this file.

use vstd::prelude::*;

use serde_json::Number;
use serde_json::Value;

verus! {

broadcast use vstd::std_specs::vec::group_vec_axioms;

/// A JSON value. Numbers are split by shape: `Int` for integers that fit
/// `i64`, `UInt` for larger non-negative integers, and `Flt` for all other
/// numbers, stored as the IEEE 754 bit pattern of the double they denote
/// together with that double's canonical decimal text.
#[derive(Debug, PartialEq)]
pub enum Json {
    Null,
    Bool(bool),
    Int(i64),
    UInt(u64),
    Flt(u64, String),
    Str(String),
    Arr(Vec<Json>),
    Obj(Vec<(String, Json)>),
}

/// The mathematical shape of a `Json` value: strings become character
/// sequences and the vectors become sequences.
pub ghost enum JsonV {
    Null,
    Bool(bool),
    Int(i64),
    UInt(u64),
    Flt(u64, Seq<char>),
    Str(Seq<char>),
    Arr(Seq<JsonV>),
    Obj(Seq<(Seq<char>, JsonV)>),
}

pub open spec fn jview_seq(s: Seq<Json>) -> Seq<JsonV>
    decreases s,
{
    if s.len() == 0 {
        Seq::empty()
    } else {
        seq![jview(s[0])] + jview_seq(s.subrange(1, s.len() as int))
    }
}

pub open spec fn jview_entries(s: Seq<(String, Json)>) -> Seq<(Seq<char>, JsonV)>
    decreases s,
{
    if s.len() == 0 {
        Seq::empty()
    } else {
        seq![(s[0].0@, jview(s[0].1))] + jview_entries(s.subrange(1, s.len() as int))
    }
}

pub open spec fn jview(j: Json) -> JsonV
    decreases j,
{
    match j {
        Json::Null => JsonV::Null,
        Json::Bool(b) => JsonV::Bool(b),
        Json::Int(i) => JsonV::Int(i),
        Json::UInt(u) => JsonV::UInt(u),
        Json::Flt(b, t) => JsonV::Flt(b, t@),
        Json::Str(s) => JsonV::Str(s@),
        Json::Arr(a) => JsonV::Arr(jview_seq(a@)),
        Json::Obj(o) => JsonV::Obj(jview_entries(o@)),
    }
}

/// The view of a sequence of values is the sequence of their views.
pub proof fn lemma_jview_seq(s: Seq<Json>)
    ensures
        jview_seq(s).len() == s.len(),
        forall|i: int| 0 <= i < s.len() ==> #[trigger] jview_seq(s)[i] == jview(s[i]),
    decreases s.len(),
{
    if s.len() > 0 {
        lemma_jview_seq(s.subrange(1, s.len() as int));
    }
}

/// The view of an entry sequence pairs each key's characters with the view
/// of its value.
pub proof fn lemma_jview_entries(s: Seq<(String, Json)>)
    ensures
        jview_entries(s).len() == s.len(),
        forall|i: int| 0 <= i < s.len()
            ==> #[trigger] jview_entries(s)[i] == (s[i].0@, jview(s[i].1)),
    decreases s.len(),
{
    if s.len() > 0 {
        lemma_jview_entries(s.subrange(1, s.len() as int));
    }
}

impl View for Json {
    type V = JsonV;

    open spec fn view(&self) -> JsonV {
        jview(*self)
    }
}

impl DeepView for Json {
    type V = JsonV;

    open spec fn deep_view(&self) -> JsonV {
        jview(*self)
    }
}

/// The bit pattern denotes a finite double (its exponent bits are not all
/// ones, so it is neither an infinity nor a NaN).
pub open spec fn f64_bits_finite(b: u64) -> bool {
    (b >> 52) & 0x7ff != 0x7ff
}

/// The values in this tree print and parse back without loss: `UInt` is used
/// only beyond the `i64` range, `Flt` holds a finite bit pattern paired with
/// its own canonical text, and object keys are pairwise distinct.
pub open spec fn json_wf(v: JsonV) -> bool
    decreases v,
{
    match v {
        JsonV::Null => true,
        JsonV::Bool(_) => true,
        JsonV::Int(_) => true,
        JsonV::UInt(u) => u > i64::MAX as u64,
        JsonV::Flt(b, t) => f64_bits_finite(b) && flt_canon(t, b),
        JsonV::Str(_) => true,
        JsonV::Arr(s) => forall|i: int| 0 <= i < s.len() ==> json_wf(#[trigger] s[i]),
        JsonV::Obj(es) => (forall|i: int| 0 <= i < es.len() ==> json_wf(#[trigger] es[i].1))
            && (forall|i: int, k: int| 0 <= i < k < es.len() ==> (#[trigger] es[i].0) != (#[trigger] es[k].0)),
    }
}

/// A structure-preserving copy of a JSON tree.
#[verifier::loop_isolation(false)]
pub fn json_clone(j: &Json) -> (r: Json)
    ensures
        r@ == j@,
    decreases *j,
{
    match j {
        Json::Null => Json::Null,
        Json::Bool(b) => Json::Bool(*b),
        Json::Int(i) => Json::Int(*i),
        Json::UInt(u) => Json::UInt(*u),
        Json::Flt(b, t) => Json::Flt(*b, t.clone()),
        Json::Str(s) => Json::Str(s.clone()),
        Json::Arr(a) => {
            let mut out: Vec<Json> = Vec::new();
            let mut i: usize = 0;
            while i < a.len()
                invariant
                    i <= a.len(),
                    out@.len() == i as int,
                    forall|k: int| 0 <= k < i as int ==> out@[k]@ == a@[k]@,
                decreases a.len() - i,
            {
                proof {
                    vstd::std_specs::vec::axiom_vec_index_decreases(*a, i as int);
                }
                out.push(json_clone(&a[i]));
                i = i + 1;
            }
            let r = Json::Arr(out);
            proof {
                lemma_jview_seq(out@);
                lemma_jview_seq(a@);
                assert(jview_seq(out@) =~= jview_seq(a@));
            }
            r
        },
        Json::Obj(o) => {
            let mut out: Vec<(String, Json)> = Vec::new();
            let mut i: usize = 0;
            while i < o.len()
                invariant
                    i <= o.len(),
                    out@.len() == i as int,
                    forall|k: int| 0 <= k < i as int
                        ==> out@[k].0@ == o@[k].0@ && out@[k].1@ == o@[k].1@,
                decreases o.len() - i,
            {
                proof {
                    vstd::std_specs::vec::axiom_vec_index_decreases(*o, i as int);
                }
                let entry = &o[i];
                out.push((entry.0.clone(), json_clone(&entry.1)));
                i = i + 1;
            }
            let r = Json::Obj(out);
            proof {
                lemma_jview_entries(out@);
                lemma_jview_entries(o@);
                assert(jview_entries(out@) =~= jview_entries(o@));
            }
            r
        },
    }
}

/// What `serde_json` reads a text as, if the text is valid JSON: a function
/// of the text alone.
pub uninterp spec fn json_of_text(s: Seq<char>) -> Option<JsonV>;

/// Whether `serde_json` prints the finite double with bit pattern `b` as
/// exactly the text `t`, and reads `t` back as that same double: a relation
/// decided by the value alone.
pub uninterp spec fn flt_canon(t: Seq<char>, b: u64) -> bool;

#[verifier::external_type_specification]
#[verifier::external_body]
pub struct ExValue(serde_json::Value);

#[verifier::external_type_specification]
#[verifier::external_body]
pub struct ExNumber(serde_json::Number);

/// Classifies a `serde_json` number, relying on `Number::as_i64`, `as_u64`
/// and `as_f64`. Called only from `value_to_json`.
#[verifier::external_body]
fn number_to_json(n: &Number) -> Json {
    match (n.as_i64(), n.as_u64(), n.as_f64()) {
        (Some(i), _, _) => Json::Int(i),
        (None, Some(u), _) => Json::UInt(u),
        (None, None, Some(f)) => Json::Flt(f.to_bits(), n.to_string()),
        (None, None, None) => Json::Null,
    }
}

/// Reads a `Flt` node's stored text back as a number, relying on `Number`'s
/// `FromStr`; `Null` is the fallback for a malformed text (excluded by
/// `json_wf`). Called only from `json_to_value`.
#[verifier::external_body]
fn number_from_text(t: &String) -> Value {
    match t.parse::<Number>() {
        Ok(n) => Value::Number(n),
        Err(_) => Value::Null,
    }
}

/// Translates a `serde_json` tree into the crate's own tree, variant by
/// variant. Called only from the trusted text functions below; relies on
/// `Number::as_i64` / `as_u64` / `as_f64` to classify numbers.
#[verifier::external_body]
fn value_to_json(v: &Value) -> Json {
    match v {
        Value::Null => Json::Null,
        Value::Bool(b) => Json::Bool(*b),
        Value::Number(n) => number_to_json(n),
        Value::String(s) => Json::Str(s.clone()),
        Value::Array(a) => Json::Arr(a.iter().map(value_to_json).collect()),
        Value::Object(m) => Json::Obj(
            m.iter().map(|(k, x)| (k.clone(), value_to_json(x))).collect(),
        ),
    }
}

/// Translates the crate's tree back into a `serde_json` tree, variant by
/// variant. Called only from `text_from_json`; relies on `Number`'s `FromStr`
/// to read a `Flt` node's stored text back, with `Null` as the fallback for
/// a malformed text (excluded by `json_wf`).
#[verifier::external_body]
fn json_to_value(j: &Json) -> Value {
    match j {
        Json::Null => Value::Null,
        Json::Bool(b) => Value::Bool(*b),
        Json::Int(i) => Value::from(*i),
        Json::UInt(u) => Value::from(*u),
        Json::Flt(_, t) => number_from_text(t),
        Json::Str(s) => Value::String(s.clone()),
        Json::Arr(a) => Value::Array(a.iter().map(json_to_value).collect()),
        Json::Obj(o) => Value::Object(
            o.iter().map(|(k, x)| (k.clone(), json_to_value(x))).collect(),
        ),
    }
}

/// Relies on `serde_json::from_str::<Value>`: the result is a function of the
/// text alone; object key order is kept (`preserve_order` feature) with
/// duplicate keys collapsed to the last one; parsed numbers are finite,
/// integers are classified exactly, and floats are parsed with correct
/// rounding (`float_roundtrip` feature), so each float node's stored text is
/// canonical for its bit pattern and the returned tree is well-formed.
#[verifier::external_body]
pub fn json_from_text(s: &str) -> (r: Result<Json, String>)
    ensures
        match r {
            Ok(j) => json_of_text(s@) == Some(j@) && json_wf(j@)
                && (j@ matches JsonV::Flt(b, t) ==> flt_canon(t, b)),
            Err(_) => json_of_text(s@) is None,
        },
{
    match serde_json::from_str::<serde_json::Value>(s) {
        Ok(v) => Ok(value_to_json(&v)),
        Err(e) => Err(e.to_string()),
    }
}

/// Relies on `serde_json::to_string_pretty` on a `Value`: it always succeeds,
/// and `from_str` reads the printed text back as an equal `Value`: integers
/// round-trip exactly, finite doubles print in shortest form and parse back
/// with correct rounding (`float_roundtrip` feature) to the identical double,
/// and key order is kept (`preserve_order` feature).
#[verifier::external_body]
pub fn text_from_json(j: &Json) -> (r: String)
    ensures
        json_wf(j@) ==> json_of_text(r@) == Some(j@),
{
    serde_json::to_string_pretty(&json_to_value(j)).unwrap_or(String::new())
}

} // verus!
