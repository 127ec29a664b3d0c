//! The funscript schema: strict extraction of typed fields from a JSON tree
//! (unknown keys fail, missing keys take the documented default) and the
//! inverse rendering of a document into a JSON tree.

use vstd::prelude::*;

use crate::doc::{FSPoint, FScript, FScriptV, FunscriptError, MetadataV, OFSMetadata, PresetV,
    SimulatorPresets, default_fscript_v, default_metadata_v, default_point_v, default_preset_v,
    fscript_wf, preset_wf};
use crate::json::{Json, JsonV, json_wf, jview_entries, jview_seq, lemma_jview_entries,
    lemma_jview_seq};

verus! {

broadcast use vstd::std_specs::vec::group_vec_axioms;

// ------------------------------------------------------------------
// Typed extraction of a single value.
// ------------------------------------------------------------------

/// A 32-bit signed integer: an integer node within the `i32` range.
pub open spec fn as_i32_v(v: JsonV) -> Option<i32> {
    match v {
        JsonV::Int(i) => if i32::MIN as i64 <= i <= i32::MAX as i64 {
            Some(i as i32)
        } else {
            None
        },
        _ => None,
    }
}

/// A 64-bit signed integer: any integer node (`UInt` nodes are beyond the
/// `i64` range by construction).
pub open spec fn as_i64_v(v: JsonV) -> Option<i64> {
    match v {
        JsonV::Int(i) => Some(i),
        _ => None,
    }
}

pub open spec fn as_bool_v(v: JsonV) -> Option<bool> {
    match v {
        JsonV::Bool(b) => Some(b),
        _ => None,
    }
}

pub open spec fn as_str_v(v: JsonV) -> Option<Seq<char>> {
    match v {
        JsonV::Str(s) => Some(s),
        _ => None,
    }
}

/// A free-form number field keeps the number node itself.
pub open spec fn as_num_v(v: JsonV) -> Option<JsonV> {
    if crate::doc::is_num(v) {
        Some(v)
    } else {
        None
    }
}

pub fn as_i32_e(v: &Json) -> (r: Option<i32>)
    ensures
        r == as_i32_v(v@),
{
    match v {
        Json::Int(i) => {
            let x = *i;
            if -2147483648i64 <= x && x <= 2147483647i64 {
                Some(x as i32)
            } else {
                None
            }
        },
        _ => None,
    }
}

pub fn as_i64_e(v: &Json) -> (r: Option<i64>)
    ensures
        r == as_i64_v(v@),
{
    match v {
        Json::Int(i) => Some(*i),
        _ => None,
    }
}

pub fn as_bool_e(v: &Json) -> (r: Option<bool>)
    ensures
        r == as_bool_v(v@),
{
    match v {
        Json::Bool(b) => Some(*b),
        _ => None,
    }
}

pub fn as_string_e(v: &Json) -> (r: Option<String>)
    ensures
        match r {
            Some(s) => as_str_v(v@) == Some(s@),
            None => as_str_v(v@) is None,
        },
{
    match v {
        Json::Str(s) => Some(s.clone()),
        _ => None,
    }
}

pub fn as_num_e(v: &Json) -> (r: Option<Json>)
    ensures
        match r {
            Some(x) => as_num_v(v@) == Some(x@) && x@ == v@,
            None => as_num_v(v@) is None,
        },
{
    match v {
        Json::Int(_) => Some(crate::json::json_clone(v)),
        Json::UInt(_) => Some(crate::json::json_clone(v)),
        Json::Flt(_, _) => Some(crate::json::json_clone(v)),
        _ => None,
    }
}

/// Whether the runtime key equals the recognized key `lit`.
pub fn key_is(k: &String, lit: &str) -> (r: bool)
    ensures
        r == (k@ == lit@),
{
    *k == lit.to_owned()
}

// ------------------------------------------------------------------
// Action points.
// ------------------------------------------------------------------

/// One recognized key of a point object applied to the accumulator;
/// `None` for an unknown key or an ill-typed value.
pub open spec fn point_field(p: FSPoint, k: Seq<char>, v: JsonV) -> Option<FSPoint> {
    if k == "pos"@ {
        match as_i32_v(v) {
            Some(x) => Some(FSPoint { pos: x, ..p }),
            None => None,
        }
    } else if k == "at"@ {
        match as_i32_v(v) {
            Some(x) => Some(FSPoint { at: x, ..p }),
            None => None,
        }
    } else {
        None
    }
}

pub open spec fn point_fold(es: Seq<(Seq<char>, JsonV)>, i: int, p: FSPoint) -> Option<FSPoint>
    decreases es.len() - i,
{
    if i < 0 || i >= es.len() {
        Some(p)
    } else {
        match point_field(p, es[i].0, es[i].1) {
            Some(q) => point_fold(es, i + 1, q),
            None => None,
        }
    }
}

/// What a JSON value denotes as an action point: an object of recognized
/// point keys over the all-zero default.
pub open spec fn point_of_json(v: JsonV) -> Option<FSPoint> {
    match v {
        JsonV::Obj(es) => point_fold(es, 0, default_point_v()),
        _ => None,
    }
}

/// The JSON object a point serializes to.
pub open spec fn json_of_point(p: FSPoint) -> JsonV {
    JsonV::Obj(
        seq![("pos"@, JsonV::Int(p.pos as i64)), ("at"@, JsonV::Int(p.at as i64))],
    )
}

#[verifier::loop_isolation(false)]
pub fn point_from_json(v: &Json) -> (r: Option<FSPoint>)
    ensures
        match r {
            Some(p) => point_of_json(v@) == Some(p),
            None => point_of_json(v@) is None,
        },
{
    match v {
        Json::Obj(entries) => {
            let ghost es = jview_entries(entries@);
            proof {
                lemma_jview_entries(entries@);
            }
            let mut cur = FSPoint { pos: 0, at: 0 };
            let mut i: usize = 0;
            while i < entries.len()
                invariant
                    i <= entries.len(),
                    point_fold(es, i as int, cur) == point_fold(es, 0, default_point_v()),
                decreases entries.len() - i,
            {
                let k = &entries[i].0;
                let val = &entries[i].1;
                if key_is(k, "pos") {
                    match as_i32_e(val) {
                        Some(x) => {
                            cur.pos = x;
                        },
                        None => {
                            return None;
                        },
                    }
                } else if key_is(k, "at") {
                    match as_i32_e(val) {
                        Some(x) => {
                            cur.at = x;
                        },
                        None => {
                            return None;
                        },
                    }
                } else {
                    return None;
                }
                i = i + 1;
            }
            Some(cur)
        },
        _ => None,
    }
}

pub fn point_to_json(p: &FSPoint) -> (r: Json)
    ensures
        r@ == json_of_point(*p),
{
    let mut out: Vec<(String, Json)> = Vec::new();
    out.push(("pos".to_owned(), Json::Int(p.pos as i64)));
    out.push(("at".to_owned(), Json::Int(p.at as i64)));
    let r = Json::Obj(out);
    proof {
        lemma_jview_entries(out@);
        assert(jview_entries(out@) =~= json_of_point(*p)->Obj_0);
    }
    r
}

/// A point object always reads back as the point it was rendered from.
pub proof fn lemma_point_round_trip(p: FSPoint)
    ensures
        point_of_json(json_of_point(p)) == Some(p),
{
    reveal_strlit("pos");
    reveal_strlit("at");
    let es = json_of_point(p)->Obj_0;
    let p0 = default_point_v();
    let p1 = FSPoint { pos: p.pos, ..p0 };
    assert(es[0] == ("pos"@, JsonV::Int(p.pos as i64)));
    assert(es[1] == ("at"@, JsonV::Int(p.at as i64)));
    assert(("pos"@).len() == 3);
    assert(("at"@).len() == 2);
    assert("at"@ != "pos"@);
    assert(point_field(p0, es[0].0, es[0].1) == Some(p1));
    assert(point_field(p1, es[1].0, es[1].1) == Some(p));
    assert(point_fold(es, 2, p) == Some(p));
    assert(point_fold(es, 1, p1) == point_fold(es, 2, p));
    assert(point_fold(es, 0, p0) == point_fold(es, 1, p1));
}

/// A point object is a well-formed JSON tree.
pub proof fn lemma_point_json_wf(p: FSPoint)
    ensures
        json_wf(json_of_point(p)),
{
    reveal_strlit("pos");
    reveal_strlit("at");
    let es = json_of_point(p)->Obj_0;
    assert(es[0] == ("pos"@, JsonV::Int(p.pos as i64)));
    assert(es[1] == ("at"@, JsonV::Int(p.at as i64)));
    assert(("pos"@).len() == 3);
    assert(("at"@).len() == 2);
    assert(forall|i: int| 0 <= i < es.len() ==> json_wf(#[trigger] es[i].1));
    assert(forall|i: int, k: int| 0 <= i < k < es.len()
        ==> (#[trigger] es[i].0) != (#[trigger] es[k].0));
}


// ------------------------------------------------------------------
// Arrays of typed elements.
// ------------------------------------------------------------------

pub open spec fn i32_items_ok(s: Seq<JsonV>) -> bool {
    forall|i: int| 0 <= i < s.len() ==> as_i32_v(#[trigger] s[i]) is Some
}

pub open spec fn i32_items(s: Seq<JsonV>) -> Seq<i32> {
    Seq::new(s.len(), |i: int| as_i32_v(s[i]).unwrap())
}

/// An array whose elements are all 32-bit integers.
pub open spec fn as_i32_seq(v: JsonV) -> Option<Seq<i32>> {
    match v {
        JsonV::Arr(s) => if i32_items_ok(s) {
            Some(i32_items(s))
        } else {
            None
        },
        _ => None,
    }
}

pub open spec fn str_items_ok(s: Seq<JsonV>) -> bool {
    forall|i: int| 0 <= i < s.len() ==> as_str_v(#[trigger] s[i]) is Some
}

pub open spec fn str_items(s: Seq<JsonV>) -> Seq<Seq<char>> {
    Seq::new(s.len(), |i: int| as_str_v(s[i]).unwrap())
}

/// An array whose elements are all strings.
pub open spec fn as_str_seq(v: JsonV) -> Option<Seq<Seq<char>>> {
    match v {
        JsonV::Arr(s) => if str_items_ok(s) {
            Some(str_items(s))
        } else {
            None
        },
        _ => None,
    }
}

pub open spec fn point_items_ok(s: Seq<JsonV>) -> bool {
    forall|i: int| 0 <= i < s.len() ==> point_of_json(#[trigger] s[i]) is Some
}

pub open spec fn point_items(s: Seq<JsonV>) -> Seq<FSPoint> {
    Seq::new(s.len(), |i: int| point_of_json(s[i]).unwrap())
}

/// An array whose elements are all action-point objects.
pub open spec fn as_point_seq(v: JsonV) -> Option<Seq<FSPoint>> {
    match v {
        JsonV::Arr(s) => if point_items_ok(s) {
            Some(point_items(s))
        } else {
            None
        },
        _ => None,
    }
}

#[verifier::loop_isolation(false)]
pub fn as_i32_vec(v: &Json) -> (r: Option<Vec<i32>>)
    ensures
        match r {
            Some(x) => as_i32_seq(v@) == Some(x@),
            None => as_i32_seq(v@) is None,
        },
{
    match v {
        Json::Arr(items) => {
            let ghost s = jview_seq(items@);
            proof {
                lemma_jview_seq(items@);
            }
            let mut out: Vec<i32> = Vec::new();
            let mut i: usize = 0;
            while i < items.len()
                invariant
                    i <= items.len(),
                    out@.len() == i as int,
                    forall|j: int| 0 <= j < i as int ==> as_i32_v(#[trigger] s[j]) is Some
                        && out@[j] == as_i32_v(s[j]).unwrap(),
                decreases items.len() - i,
            {
                match as_i32_e(&items[i]) {
                    Some(x) => out.push(x),
                    None => {
                        proof {
                            assert(as_i32_v(s[i as int]) is None);
                        }
                        return None;
                    },
                }
                i = i + 1;
            }
            proof {
                assert(out@ =~= i32_items(s));
            }
            Some(out)
        },
        _ => None,
    }
}

#[verifier::loop_isolation(false)]
pub fn as_str_vec(v: &Json) -> (r: Option<Vec<String>>)
    ensures
        match r {
            Some(x) => as_str_seq(v@) == Some(x.deep_view()),
            None => as_str_seq(v@) is None,
        },
{
    match v {
        Json::Arr(items) => {
            let ghost s = jview_seq(items@);
            proof {
                lemma_jview_seq(items@);
            }
            let mut out: Vec<String> = Vec::new();
            let mut i: usize = 0;
            while i < items.len()
                invariant
                    i <= items.len(),
                    out@.len() == i as int,
                    forall|j: int| 0 <= j < i as int ==> as_str_v(#[trigger] s[j]) is Some
                        && out@[j]@ == as_str_v(s[j]).unwrap(),
                decreases items.len() - i,
            {
                match as_string_e(&items[i]) {
                    Some(x) => out.push(x),
                    None => {
                        proof {
                            assert(as_str_v(s[i as int]) is None);
                        }
                        return None;
                    },
                }
                i = i + 1;
            }
            proof {
                assert(out.deep_view() =~= str_items(s));
            }
            Some(out)
        },
        _ => None,
    }
}

#[verifier::loop_isolation(false)]
pub fn as_point_vec(v: &Json) -> (r: Option<Vec<FSPoint>>)
    ensures
        match r {
            Some(x) => as_point_seq(v@) == Some(x@),
            None => as_point_seq(v@) is None,
        },
{
    match v {
        Json::Arr(items) => {
            let ghost s = jview_seq(items@);
            proof {
                lemma_jview_seq(items@);
            }
            let mut out: Vec<FSPoint> = Vec::new();
            let mut i: usize = 0;
            while i < items.len()
                invariant
                    i <= items.len(),
                    out@.len() == i as int,
                    forall|j: int| 0 <= j < i as int ==> point_of_json(#[trigger] s[j]) is Some
                        && out@[j] == point_of_json(s[j]).unwrap(),
                decreases items.len() - i,
            {
                match point_from_json(&items[i]) {
                    Some(x) => out.push(x),
                    None => {
                        proof {
                            assert(point_of_json(s[i as int]) is None);
                        }
                        return None;
                    },
                }
                i = i + 1;
            }
            proof {
                assert(out@ =~= point_items(s));
            }
            Some(out)
        },
        _ => None,
    }
}

/// A verbatim copy of an array of opaque values (the `clips` payload).
#[verifier::loop_isolation(false)]
pub fn as_clip_vec(v: &Json) -> (r: Option<Vec<Json>>)
    ensures
        match r {
            Some(x) => v@ matches JsonV::Arr(s) && x.deep_view() == s,
            None => !(v@ matches JsonV::Arr(_)),
        },
{
    match v {
        Json::Arr(items) => {
            let ghost s = jview_seq(items@);
            proof {
                lemma_jview_seq(items@);
            }
            let mut out: Vec<Json> = Vec::new();
            let mut i: usize = 0;
            while i < items.len()
                invariant
                    i <= items.len(),
                    out@.len() == i as int,
                    forall|j: int| 0 <= j < i as int ==> (#[trigger] out@[j])@ == s[j],
                decreases items.len() - i,
            {
                out.push(crate::json::json_clone(&items[i]));
                i = i + 1;
            }
            proof {
                assert(out.deep_view() =~= s);
            }
            Some(out)
        },
        _ => None,
    }
}


// ------------------------------------------------------------------
// Simulator presets.
// ------------------------------------------------------------------
/// One recognized key applied to the accumulator; `None` for an unknown
/// key or an ill-typed value.
pub open spec fn preset_field(d: PresetV, k: Seq<char>, v: JsonV) -> Option<PresetV> {
    if k == "name"@ {
        match as_str_v(v) {
            Some(x) => Some(PresetV { name: x, ..d }),
            None => None,
        }
    } else if k == "fullRange"@ {
        match as_bool_v(v) {
            Some(x) => Some(PresetV { full_range: x, ..d }),
            None => None,
        }
    } else if k == "direction"@ {
        match as_i32_v(v) {
            Some(x) => Some(PresetV { direction: x, ..d }),
            None => None,
        }
    } else if k == "rotation"@ {
        match as_num_v(v) {
            Some(x) => Some(PresetV { rotation: x, ..d }),
            None => None,
        }
    } else if k == "length"@ {
        match as_num_v(v) {
            Some(x) => Some(PresetV { length: x, ..d }),
            None => None,
        }
    } else if k == "width"@ {
        match as_num_v(v) {
            Some(x) => Some(PresetV { width: x, ..d }),
            None => None,
        }
    } else if k == "offset"@ {
        match as_str_v(v) {
            Some(x) => Some(PresetV { offset: x, ..d }),
            None => None,
        }
    } else if k == "color"@ {
        match as_str_v(v) {
            Some(x) => Some(PresetV { color: x, ..d }),
            None => None,
        }
    } else {
        None
    }
}

pub open spec fn preset_fold(es: Seq<(Seq<char>, JsonV)>, i: int, d: PresetV) -> Option<PresetV>
    decreases es.len() - i,
{
    if i < 0 || i >= es.len() {
        Some(d)
    } else {
        match preset_field(d, es[i].0, es[i].1) {
            Some(q) => preset_fold(es, i + 1, q),
            None => None,
        }
    }
}

pub open spec fn preset_of_json(v: JsonV) -> Option<PresetV> {
    match v {
        JsonV::Obj(es) => preset_fold(es, 0, default_preset_v()),
        _ => None,
    }
}

pub open spec fn preset_items_ok(s: Seq<JsonV>) -> bool {
    forall|i: int| 0 <= i < s.len() ==> preset_of_json(#[trigger] s[i]) is Some
}

pub open spec fn preset_items(s: Seq<JsonV>) -> Seq<PresetV> {
    Seq::new(s.len(), |i: int| preset_of_json(s[i]).unwrap())
}

/// An array whose elements are all preset objects.
pub open spec fn as_preset_seq(v: JsonV) -> Option<Seq<PresetV>> {
    match v {
        JsonV::Arr(s) => if preset_items_ok(s) {
            Some(preset_items(s))
        } else {
            None
        },
        _ => None,
    }
}

// ------------------------------------------------------------------
// Editor metadata.
// ------------------------------------------------------------------
/// One recognized key applied to the accumulator; `None` for an unknown
/// key or an ill-typed value.
pub open spec fn md_field(d: MetadataV, k: Seq<char>, v: JsonV) -> Option<MetadataV> {
    if k == "bookmarks"@ {
        match as_i32_seq(v) {
            Some(x) => Some(MetadataV { bookmarks: x, ..d }),
            None => None,
        }
    } else if k == "chapters"@ {
        match as_str_seq(v) {
            Some(x) => Some(MetadataV { chapters: x, ..d }),
            None => None,
        }
    } else if k == "creator"@ {
        match as_str_v(v) {
            Some(x) => Some(MetadataV { creator: x, ..d }),
            None => None,
        }
    } else if k == "description"@ {
        match as_str_v(v) {
            Some(x) => Some(MetadataV { description: x, ..d }),
            None => None,
        }
    } else if k == "duration"@ {
        match as_i32_v(v) {
            Some(x) => Some(MetadataV { duration: x, ..d }),
            None => None,
        }
    } else if k == "license"@ {
        match as_str_v(v) {
            Some(x) => Some(MetadataV { license: x, ..d }),
            None => None,
        }
    } else if k == "notes"@ {
        match as_str_v(v) {
            Some(x) => Some(MetadataV { notes: x, ..d }),
            None => None,
        }
    } else if k == "performers"@ {
        match as_str_seq(v) {
            Some(x) => Some(MetadataV { performers: x, ..d }),
            None => None,
        }
    } else if k == "scriptUrl"@ {
        match as_str_v(v) {
            Some(x) => Some(MetadataV { script_url: x, ..d }),
            None => None,
        }
    } else if k == "tags"@ {
        match as_str_seq(v) {
            Some(x) => Some(MetadataV { tags: x, ..d }),
            None => None,
        }
    } else if k == "title"@ {
        match as_str_v(v) {
            Some(x) => Some(MetadataV { title: x, ..d }),
            None => None,
        }
    } else if k == "type"@ {
        match as_str_v(v) {
            Some(x) => Some(MetadataV { ofs_type: x, ..d }),
            None => None,
        }
    } else if k == "videoUrl"@ {
        match as_str_v(v) {
            Some(x) => Some(MetadataV { video_url: x, ..d }),
            None => None,
        }
    } else {
        None
    }
}

pub open spec fn md_fold(es: Seq<(Seq<char>, JsonV)>, i: int, d: MetadataV) -> Option<MetadataV>
    decreases es.len() - i,
{
    if i < 0 || i >= es.len() {
        Some(d)
    } else {
        match md_field(d, es[i].0, es[i].1) {
            Some(q) => md_fold(es, i + 1, q),
            None => None,
        }
    }
}

pub open spec fn md_of_json(v: JsonV) -> Option<MetadataV> {
    match v {
        JsonV::Obj(es) => md_fold(es, 0, default_metadata_v()),
        _ => None,
    }
}

// ------------------------------------------------------------------
// The document itself.
// ------------------------------------------------------------------
/// One recognized key applied to the accumulator; `None` for an unknown
/// key or an ill-typed value.
pub open spec fn doc_field(d: FScriptV, k: Seq<char>, v: JsonV) -> Option<FScriptV> {
    if k == "version"@ {
        match as_str_v(v) {
            Some(x) => Some(FScriptV { version: x, ..d }),
            None => None,
        }
    } else if k == "inverted"@ {
        match as_bool_v(v) {
            Some(x) => Some(FScriptV { inverted: x, ..d }),
            None => None,
        }
    } else if k == "range"@ {
        match as_i32_v(v) {
            Some(x) => Some(FScriptV { range: x, ..d }),
            None => None,
        }
    } else if k == "bookmark"@ {
        match as_i32_v(v) {
            Some(x) => Some(FScriptV { bookmark: x, ..d }),
            None => None,
        }
    } else if k == "lastPosition"@ {
        match as_i64_v(v) {
            Some(x) => Some(FScriptV { last_position: x, ..d }),
            None => None,
        }
    } else if k == "graphDuration"@ {
        match as_i32_v(v) {
            Some(x) => Some(FScriptV { graph_duration: x, ..d }),
            None => None,
        }
    } else if k == "speedRatio"@ {
        match as_num_v(v) {
            Some(x) => Some(FScriptV { speed_ratio: x, ..d }),
            None => None,
        }
    } else if k == "injectionSpeed"@ {
        match as_i32_v(v) {
            Some(x) => Some(FScriptV { injection_speed: x, ..d }),
            None => None,
        }
    } else if k == "injectionBias"@ {
        match as_num_v(v) {
            Some(x) => Some(FScriptV { injection_bias: x, ..d }),
            None => None,
        }
    } else if k == "scriptingMode"@ {
        match as_i32_v(v) {
            Some(x) => Some(FScriptV { scripting_mode: x, ..d }),
            None => None,
        }
    } else if k == "simulatorPresets"@ {
        match as_preset_seq(v) {
            Some(x) => Some(FScriptV { simulator_presets: x, ..d }),
            None => None,
        }
    } else if k == "activeSimulator"@ {
        match as_i32_v(v) {
            Some(x) => Some(FScriptV { active_simulator: x, ..d }),
            None => None,
        }
    } else if k == "reductionTolerance"@ {
        match as_num_v(v) {
            Some(x) => Some(FScriptV { reduction_tolerance: x, ..d }),
            None => None,
        }
    } else if k == "reductionStretch"@ {
        match as_num_v(v) {
            Some(x) => Some(FScriptV { reduction_stretch: x, ..d }),
            None => None,
        }
    } else if k == "clips"@ {
        match v {
            JsonV::Arr(s) => Some(FScriptV { clips: s, ..d }),
            _ => None,
        }
    } else if k == "actions"@ {
        match as_point_seq(v) {
            Some(x) => Some(FScriptV { actions: x, ..d }),
            None => None,
        }
    } else if k == "rawActions"@ {
        match as_point_seq(v) {
            Some(x) => Some(FScriptV { raw_actions: x, ..d }),
            None => None,
        }
    } else if k == "metadata"@ {
        match md_of_json(v) {
            Some(x) => Some(FScriptV { metadata: x, ..d }),
            None => None,
        }
    } else {
        None
    }
}

pub open spec fn doc_fold(es: Seq<(Seq<char>, JsonV)>, i: int, d: FScriptV) -> Option<FScriptV>
    decreases es.len() - i,
{
    if i < 0 || i >= es.len() {
        Some(d)
    } else {
        match doc_field(d, es[i].0, es[i].1) {
            Some(q) => doc_fold(es, i + 1, q),
            None => None,
        }
    }
}

pub open spec fn doc_of_json(v: JsonV) -> Option<FScriptV> {
    match v {
        JsonV::Obj(es) => doc_fold(es, 0, default_fscript_v()),
        _ => None,
    }
}

/// The keys the strict schema accepts at the top level.
pub open spec fn doc_key_recognized(k: Seq<char>) -> bool {
    ||| k == "version"@
    ||| k == "inverted"@
    ||| k == "range"@
    ||| k == "bookmark"@
    ||| k == "lastPosition"@
    ||| k == "graphDuration"@
    ||| k == "speedRatio"@
    ||| k == "injectionSpeed"@
    ||| k == "injectionBias"@
    ||| k == "scriptingMode"@
    ||| k == "simulatorPresets"@
    ||| k == "activeSimulator"@
    ||| k == "reductionTolerance"@
    ||| k == "reductionStretch"@
    ||| k == "clips"@
    ||| k == "actions"@
    ||| k == "rawActions"@
    ||| k == "metadata"@
}

#[verifier::loop_isolation(false)]
pub fn preset_from_json(v: &Json) -> (r: Option<SimulatorPresets>)
    ensures
        match r {
            Some(p) => preset_of_json(v@) == Some(p@) && (json_wf(v@) ==> preset_wf(p@)),
            None => preset_of_json(v@) is None,
        },
{
    match v {
        Json::Obj(entries) => {
            let ghost es = jview_entries(entries@);
            proof {
                lemma_jview_entries(entries@);
            }
            let mut cur = SimulatorPresets::default();
            let mut i: usize = 0;
            while i < entries.len()
                invariant
                    i <= entries.len(),
                    preset_fold(es, i as int, cur@) == preset_fold(es, 0, default_preset_v()),
                    json_wf(v@) ==> preset_wf(cur@),
                decreases entries.len() - i,
            {
                let k = &entries[i].0;
                let val = &entries[i].1;
                if key_is(k, "name") {
                    match as_string_e(val) {
                        Some(x) => {
                            cur.name = x;
                        },
                        None => {
                            return None;
                        },
                    }
                } else if key_is(k, "fullRange") {
                    match as_bool_e(val) {
                        Some(x) => {
                            cur.full_range = x;
                        },
                        None => {
                            return None;
                        },
                    }
                } else if key_is(k, "direction") {
                    match as_i32_e(val) {
                        Some(x) => {
                            cur.direction = x;
                        },
                        None => {
                            return None;
                        },
                    }
                } else if key_is(k, "rotation") {
                    match as_num_e(val) {
                        Some(x) => {
                            cur.rotation = x;
                        },
                        None => {
                            return None;
                        },
                    }
                } else if key_is(k, "length") {
                    match as_num_e(val) {
                        Some(x) => {
                            cur.length = x;
                        },
                        None => {
                            return None;
                        },
                    }
                } else if key_is(k, "width") {
                    match as_num_e(val) {
                        Some(x) => {
                            cur.width = x;
                        },
                        None => {
                            return None;
                        },
                    }
                } else if key_is(k, "offset") {
                    match as_string_e(val) {
                        Some(x) => {
                            cur.offset = x;
                        },
                        None => {
                            return None;
                        },
                    }
                } else if key_is(k, "color") {
                    match as_string_e(val) {
                        Some(x) => {
                            cur.color = x;
                        },
                        None => {
                            return None;
                        },
                    }
                } else {
                    return None;
                }
                i = i + 1;
            }
            Some(cur)
        },
        _ => None,
    }
}
#[verifier::loop_isolation(false)]
pub fn as_preset_vec(v: &Json) -> (r: Option<Vec<SimulatorPresets>>)
    ensures
        match r {
            Some(x) => as_preset_seq(v@) == Some(x.deep_view()) && (json_wf(v@)
                ==> forall|k: int| 0 <= k < x.deep_view().len()
                    ==> preset_wf(#[trigger] x.deep_view()[k])),
            None => as_preset_seq(v@) is None,
        },
{
    match v {
        Json::Arr(items) => {
            let ghost s = jview_seq(items@);
            proof {
                lemma_jview_seq(items@);
            }
            let mut out: Vec<SimulatorPresets> = Vec::new();
            let mut i: usize = 0;
            while i < items.len()
                invariant
                    i <= items.len(),
                    out@.len() == i as int,
                    forall|j: int| 0 <= j < i as int ==> preset_of_json(#[trigger] s[j]) is Some
                        && out@[j]@ == preset_of_json(s[j]).unwrap(),
                    json_wf(v@) ==> forall|j: int| 0 <= j < i as int
                        ==> preset_wf((#[trigger] out@[j])@),
                decreases items.len() - i,
            {
                match preset_from_json(&items[i]) {
                    Some(x) => out.push(x),
                    None => {
                        proof {
                            assert(preset_of_json(s[i as int]) is None);
                        }
                        return None;
                    },
                }
                i = i + 1;
            }
            proof {
                assert(out.deep_view() =~= preset_items(s));
            }
            Some(out)
        },
        _ => None,
    }
}
#[verifier::loop_isolation(false)]
pub fn metadata_from_json(v: &Json) -> (r: Option<OFSMetadata>)
    ensures
        match r {
            Some(p) => md_of_json(v@) == Some(p@),
            None => md_of_json(v@) is None,
        },
{
    match v {
        Json::Obj(entries) => {
            let ghost es = jview_entries(entries@);
            proof {
                lemma_jview_entries(entries@);
            }
            let mut cur = OFSMetadata::default();
            let mut i: usize = 0;
            while i < entries.len()
                invariant
                    i <= entries.len(),
                    md_fold(es, i as int, cur@) == md_fold(es, 0, default_metadata_v()),
                decreases entries.len() - i,
            {
                let k = &entries[i].0;
                let val = &entries[i].1;
                if key_is(k, "bookmarks") {
                    match as_i32_vec(val) {
                        Some(x) => {
                            cur.bookmarks = x;
                        },
                        None => {
                            return None;
                        },
                    }
                } else if key_is(k, "chapters") {
                    match as_str_vec(val) {
                        Some(x) => {
                            cur.chapters = x;
                        },
                        None => {
                            return None;
                        },
                    }
                } else if key_is(k, "creator") {
                    match as_string_e(val) {
                        Some(x) => {
                            cur.creator = x;
                        },
                        None => {
                            return None;
                        },
                    }
                } else if key_is(k, "description") {
                    match as_string_e(val) {
                        Some(x) => {
                            cur.description = x;
                        },
                        None => {
                            return None;
                        },
                    }
                } else if key_is(k, "duration") {
                    match as_i32_e(val) {
                        Some(x) => {
                            cur.duration = x;
                        },
                        None => {
                            return None;
                        },
                    }
                } else if key_is(k, "license") {
                    match as_string_e(val) {
                        Some(x) => {
                            cur.license = x;
                        },
                        None => {
                            return None;
                        },
                    }
                } else if key_is(k, "notes") {
                    match as_string_e(val) {
                        Some(x) => {
                            cur.notes = x;
                        },
                        None => {
                            return None;
                        },
                    }
                } else if key_is(k, "performers") {
                    match as_str_vec(val) {
                        Some(x) => {
                            cur.performers = x;
                        },
                        None => {
                            return None;
                        },
                    }
                } else if key_is(k, "scriptUrl") {
                    match as_string_e(val) {
                        Some(x) => {
                            cur.script_url = x;
                        },
                        None => {
                            return None;
                        },
                    }
                } else if key_is(k, "tags") {
                    match as_str_vec(val) {
                        Some(x) => {
                            cur.tags = x;
                        },
                        None => {
                            return None;
                        },
                    }
                } else if key_is(k, "title") {
                    match as_string_e(val) {
                        Some(x) => {
                            cur.title = x;
                        },
                        None => {
                            return None;
                        },
                    }
                } else if key_is(k, "type") {
                    match as_string_e(val) {
                        Some(x) => {
                            cur.ofs_type = x;
                        },
                        None => {
                            return None;
                        },
                    }
                } else if key_is(k, "videoUrl") {
                    match as_string_e(val) {
                        Some(x) => {
                            cur.video_url = x;
                        },
                        None => {
                            return None;
                        },
                    }
                } else {
                    return None;
                }
                i = i + 1;
            }
            Some(cur)
        },
        _ => None,
    }
}

/// Reads a document from a JSON tree: strict on keys, defaulting on
/// absence. An error carries the offending key. A well-formed input tree
/// yields a well-formed document.
#[verifier::loop_isolation(false)]
pub fn doc_from_json(j: &Json) -> (r: Result<FScript, String>)
    ensures
        match r {
            Ok(d) => doc_of_json(j@) == Some(d@) && (json_wf(j@) ==> fscript_wf(d@)),
            Err(_) => doc_of_json(j@) is None,
        },
{
    match j {
        Json::Obj(entries) => {
            let ghost es = jview_entries(entries@);
            proof {
                lemma_jview_entries(entries@);
            }
            let mut cur = FScript::default();
            let mut i: usize = 0;
            while i < entries.len()
                invariant
                    i <= entries.len(),
                    doc_fold(es, i as int, cur@) == doc_fold(es, 0, default_fscript_v()),
                    json_wf(j@) ==> fscript_wf(cur@),
                decreases entries.len() - i,
            {
                let k = &entries[i].0;
                let val = &entries[i].1;
                if key_is(k, "version") {
                    match as_string_e(val) {
                        Some(x) => {
                            cur.version = x;
                        },
                        None => {
                            return Err(k.clone());
                        },
                    }
                } else if key_is(k, "inverted") {
                    match as_bool_e(val) {
                        Some(x) => {
                            cur.inverted = x;
                        },
                        None => {
                            return Err(k.clone());
                        },
                    }
                } else if key_is(k, "range") {
                    match as_i32_e(val) {
                        Some(x) => {
                            cur.range = x;
                        },
                        None => {
                            return Err(k.clone());
                        },
                    }
                } else if key_is(k, "bookmark") {
                    match as_i32_e(val) {
                        Some(x) => {
                            cur.bookmark = x;
                        },
                        None => {
                            return Err(k.clone());
                        },
                    }
                } else if key_is(k, "lastPosition") {
                    match as_i64_e(val) {
                        Some(x) => {
                            cur.last_position = x;
                        },
                        None => {
                            return Err(k.clone());
                        },
                    }
                } else if key_is(k, "graphDuration") {
                    match as_i32_e(val) {
                        Some(x) => {
                            cur.graph_duration = x;
                        },
                        None => {
                            return Err(k.clone());
                        },
                    }
                } else if key_is(k, "speedRatio") {
                    match as_num_e(val) {
                        Some(x) => {
                            cur.speed_ratio = x;
                        },
                        None => {
                            return Err(k.clone());
                        },
                    }
                } else if key_is(k, "injectionSpeed") {
                    match as_i32_e(val) {
                        Some(x) => {
                            cur.injection_speed = x;
                        },
                        None => {
                            return Err(k.clone());
                        },
                    }
                } else if key_is(k, "injectionBias") {
                    match as_num_e(val) {
                        Some(x) => {
                            cur.injection_bias = x;
                        },
                        None => {
                            return Err(k.clone());
                        },
                    }
                } else if key_is(k, "scriptingMode") {
                    match as_i32_e(val) {
                        Some(x) => {
                            cur.scripting_mode = x;
                        },
                        None => {
                            return Err(k.clone());
                        },
                    }
                } else if key_is(k, "simulatorPresets") {
                    match as_preset_vec(val) {
                        Some(x) => {
                            cur.simulator_presets = x;
                        },
                        None => {
                            return Err(k.clone());
                        },
                    }
                } else if key_is(k, "activeSimulator") {
                    match as_i32_e(val) {
                        Some(x) => {
                            cur.active_simulator = x;
                        },
                        None => {
                            return Err(k.clone());
                        },
                    }
                } else if key_is(k, "reductionTolerance") {
                    match as_num_e(val) {
                        Some(x) => {
                            cur.reduction_tolerance = x;
                        },
                        None => {
                            return Err(k.clone());
                        },
                    }
                } else if key_is(k, "reductionStretch") {
                    match as_num_e(val) {
                        Some(x) => {
                            cur.reduction_stretch = x;
                        },
                        None => {
                            return Err(k.clone());
                        },
                    }
                } else if key_is(k, "clips") {
                    match as_clip_vec(val) {
                        Some(x) => {
                            cur.clips = x;
                        },
                        None => {
                            return Err(k.clone());
                        },
                    }
                } else if key_is(k, "actions") {
                    match as_point_vec(val) {
                        Some(x) => {
                            cur.actions = x;
                        },
                        None => {
                            return Err(k.clone());
                        },
                    }
                } else if key_is(k, "rawActions") {
                    match as_point_vec(val) {
                        Some(x) => {
                            cur.raw_actions = x;
                        },
                        None => {
                            return Err(k.clone());
                        },
                    }
                } else if key_is(k, "metadata") {
                    match metadata_from_json(val) {
                        Some(x) => {
                            cur.metadata = x;
                        },
                        None => {
                            return Err(k.clone());
                        },
                    }
                } else {
                    return Err(k.clone());
                }
                i = i + 1;
            }
            Ok(cur)
        },
        _ => Err("the funscript document is not a JSON object".to_owned()),
    }
}


// ------------------------------------------------------------------
// Rendering a document into a JSON tree.
// ------------------------------------------------------------------

pub open spec fn i32s_json(s: Seq<i32>) -> Seq<JsonV> {
    Seq::new(s.len(), |i: int| JsonV::Int(s[i] as i64))
}

pub open spec fn strs_json(s: Seq<Seq<char>>) -> Seq<JsonV> {
    Seq::new(s.len(), |i: int| JsonV::Str(s[i]))
}

pub open spec fn points_json(s: Seq<FSPoint>) -> Seq<JsonV> {
    Seq::new(s.len(), |i: int| json_of_point(s[i]))
}

pub open spec fn presets_json(s: Seq<PresetV>) -> Seq<JsonV> {
    Seq::new(s.len(), |i: int| json_of_preset(s[i]))
}

/// The JSON object a preset serializes to: every recognized key, in
/// declaration order.
pub open spec fn json_of_preset(p: PresetV) -> JsonV {
    JsonV::Obj(
        seq![
            ("name"@, JsonV::Str(p.name)),
            ("fullRange"@, JsonV::Bool(p.full_range)),
            ("direction"@, JsonV::Int(p.direction as i64)),
            ("rotation"@, p.rotation),
            ("length"@, p.length),
            ("width"@, p.width),
            ("offset"@, JsonV::Str(p.offset)),
            ("color"@, JsonV::Str(p.color))
        ],
    )
}

/// The JSON object a metadata serializes to: every recognized key, in
/// declaration order.
pub open spec fn json_of_metadata(m: MetadataV) -> JsonV {
    JsonV::Obj(
        seq![
            ("bookmarks"@, JsonV::Arr(i32s_json(m.bookmarks))),
            ("chapters"@, JsonV::Arr(strs_json(m.chapters))),
            ("creator"@, JsonV::Str(m.creator)),
            ("description"@, JsonV::Str(m.description)),
            ("duration"@, JsonV::Int(m.duration as i64)),
            ("license"@, JsonV::Str(m.license)),
            ("notes"@, JsonV::Str(m.notes)),
            ("performers"@, JsonV::Arr(strs_json(m.performers))),
            ("scriptUrl"@, JsonV::Str(m.script_url)),
            ("tags"@, JsonV::Arr(strs_json(m.tags))),
            ("title"@, JsonV::Str(m.title)),
            ("type"@, JsonV::Str(m.ofs_type)),
            ("videoUrl"@, JsonV::Str(m.video_url))
        ],
    )
}

/// The JSON object a document serializes to: every recognized key, in
/// declaration order.
pub open spec fn json_of_doc(d: FScriptV) -> JsonV {
    JsonV::Obj(
        seq![
            ("version"@, JsonV::Str(d.version)),
            ("inverted"@, JsonV::Bool(d.inverted)),
            ("range"@, JsonV::Int(d.range as i64)),
            ("bookmark"@, JsonV::Int(d.bookmark as i64)),
            ("lastPosition"@, JsonV::Int(d.last_position)),
            ("graphDuration"@, JsonV::Int(d.graph_duration as i64)),
            ("speedRatio"@, d.speed_ratio),
            ("injectionSpeed"@, JsonV::Int(d.injection_speed as i64)),
            ("injectionBias"@, d.injection_bias),
            ("scriptingMode"@, JsonV::Int(d.scripting_mode as i64)),
            ("simulatorPresets"@, JsonV::Arr(presets_json(d.simulator_presets))),
            ("activeSimulator"@, JsonV::Int(d.active_simulator as i64)),
            ("reductionTolerance"@, d.reduction_tolerance),
            ("reductionStretch"@, d.reduction_stretch),
            ("clips"@, JsonV::Arr(d.clips)),
            ("actions"@, JsonV::Arr(points_json(d.actions))),
            ("rawActions"@, JsonV::Arr(points_json(d.raw_actions))),
            ("metadata"@, json_of_metadata(d.metadata))
        ],
    )
}

#[verifier::loop_isolation(false)]
pub fn i32s_to_json(v: &Vec<i32>) -> (r: Json)
    ensures
        r@ == JsonV::Arr(i32s_json(v@)),
{
    let mut out: Vec<Json> = Vec::new();
    let mut i: usize = 0;
    while i < v.len()
        invariant
            i <= v.len(),
            out@.len() == i as int,
            forall|j: int| 0 <= j < i as int ==> (#[trigger] out@[j])@ == JsonV::Int(v@[j] as i64),
        decreases v.len() - i,
    {
        out.push(Json::Int(v[i] as i64));
        i = i + 1;
    }
    let r = Json::Arr(out);
    proof {
        lemma_jview_seq(out@);
        assert(jview_seq(out@) =~= i32s_json(v@));
    }
    r
}

#[verifier::loop_isolation(false)]
pub fn strs_to_json(v: &Vec<String>) -> (r: Json)
    ensures
        r@ == JsonV::Arr(strs_json(v.deep_view())),
{
    let mut out: Vec<Json> = Vec::new();
    let mut i: usize = 0;
    while i < v.len()
        invariant
            i <= v.len(),
            out@.len() == i as int,
            forall|j: int| 0 <= j < i as int ==> (#[trigger] out@[j])@ == JsonV::Str(v@[j]@),
        decreases v.len() - i,
    {
        out.push(Json::Str(v[i].clone()));
        i = i + 1;
    }
    let r = Json::Arr(out);
    proof {
        lemma_jview_seq(out@);
        assert(jview_seq(out@) =~= strs_json(v.deep_view()));
    }
    r
}

#[verifier::loop_isolation(false)]
pub fn points_to_json(v: &Vec<FSPoint>) -> (r: Json)
    ensures
        r@ == JsonV::Arr(points_json(v@)),
{
    let mut out: Vec<Json> = Vec::new();
    let mut i: usize = 0;
    while i < v.len()
        invariant
            i <= v.len(),
            out@.len() == i as int,
            forall|j: int| 0 <= j < i as int ==> (#[trigger] out@[j])@ == json_of_point(v@[j]),
        decreases v.len() - i,
    {
        out.push(point_to_json(&v[i]));
        i = i + 1;
    }
    let r = Json::Arr(out);
    proof {
        lemma_jview_seq(out@);
        assert(jview_seq(out@) =~= points_json(v@));
    }
    r
}

#[verifier::loop_isolation(false)]
pub fn presets_to_json(v: &Vec<SimulatorPresets>) -> (r: Json)
    ensures
        r@ == JsonV::Arr(presets_json(v.deep_view())),
{
    let mut out: Vec<Json> = Vec::new();
    let mut i: usize = 0;
    while i < v.len()
        invariant
            i <= v.len(),
            out@.len() == i as int,
            forall|j: int| 0 <= j < i as int ==> (#[trigger] out@[j])@ == json_of_preset(v@[j]@),
        decreases v.len() - i,
    {
        out.push(preset_to_json(&v[i]));
        i = i + 1;
    }
    let r = Json::Arr(out);
    proof {
        lemma_jview_seq(out@);
        assert(jview_seq(out@) =~= presets_json(v.deep_view()));
    }
    r
}

#[verifier::loop_isolation(false)]
pub fn clips_to_json(v: &Vec<Json>) -> (r: Json)
    ensures
        r@ == JsonV::Arr(v.deep_view()),
{
    let mut out: Vec<Json> = Vec::new();
    let mut i: usize = 0;
    while i < v.len()
        invariant
            i <= v.len(),
            out@.len() == i as int,
            forall|j: int| 0 <= j < i as int ==> (#[trigger] out@[j])@ == v@[j]@,
        decreases v.len() - i,
    {
        out.push(crate::json::json_clone(&v[i]));
        i = i + 1;
    }
    let r = Json::Arr(out);
    proof {
        lemma_jview_seq(out@);
        assert(jview_seq(out@) =~= v.deep_view());
    }
    r
}

pub fn preset_to_json(p: &SimulatorPresets) -> (r: Json)
    ensures
        r@ == json_of_preset(p@),
{
    let mut out: Vec<(String, Json)> = Vec::new();
    out.push(("name".to_owned(), Json::Str(p.name.clone())));
    out.push(("fullRange".to_owned(), Json::Bool(p.full_range)));
    out.push(("direction".to_owned(), Json::Int(p.direction as i64)));
    out.push(("rotation".to_owned(), crate::json::json_clone(&p.rotation)));
    out.push(("length".to_owned(), crate::json::json_clone(&p.length)));
    out.push(("width".to_owned(), crate::json::json_clone(&p.width)));
    out.push(("offset".to_owned(), Json::Str(p.offset.clone())));
    out.push(("color".to_owned(), Json::Str(p.color.clone())));
    let r = Json::Obj(out);
    proof {
        lemma_jview_entries(out@);
        assert(jview_entries(out@) =~= json_of_preset(p@)->Obj_0);
    }
    r
}

pub fn metadata_to_json(m: &OFSMetadata) -> (r: Json)
    ensures
        r@ == json_of_metadata(m@),
{
    let mut out: Vec<(String, Json)> = Vec::new();
    out.push(("bookmarks".to_owned(), i32s_to_json(&m.bookmarks)));
    out.push(("chapters".to_owned(), strs_to_json(&m.chapters)));
    out.push(("creator".to_owned(), Json::Str(m.creator.clone())));
    out.push(("description".to_owned(), Json::Str(m.description.clone())));
    out.push(("duration".to_owned(), Json::Int(m.duration as i64)));
    out.push(("license".to_owned(), Json::Str(m.license.clone())));
    out.push(("notes".to_owned(), Json::Str(m.notes.clone())));
    out.push(("performers".to_owned(), strs_to_json(&m.performers)));
    out.push(("scriptUrl".to_owned(), Json::Str(m.script_url.clone())));
    out.push(("tags".to_owned(), strs_to_json(&m.tags)));
    out.push(("title".to_owned(), Json::Str(m.title.clone())));
    out.push(("type".to_owned(), Json::Str(m.ofs_type.clone())));
    out.push(("videoUrl".to_owned(), Json::Str(m.video_url.clone())));
    let r = Json::Obj(out);
    proof {
        lemma_jview_entries(out@);
        assert(jview_entries(out@) =~= json_of_metadata(m@)->Obj_0);
    }
    r
}

pub fn doc_to_json(d: &FScript) -> (r: Json)
    ensures
        r@ == json_of_doc(d@),
{
    let mut out: Vec<(String, Json)> = Vec::new();
    out.push(("version".to_owned(), Json::Str(d.version.clone())));
    out.push(("inverted".to_owned(), Json::Bool(d.inverted)));
    out.push(("range".to_owned(), Json::Int(d.range as i64)));
    out.push(("bookmark".to_owned(), Json::Int(d.bookmark as i64)));
    out.push(("lastPosition".to_owned(), Json::Int(d.last_position)));
    out.push(("graphDuration".to_owned(), Json::Int(d.graph_duration as i64)));
    out.push(("speedRatio".to_owned(), crate::json::json_clone(&d.speed_ratio)));
    out.push(("injectionSpeed".to_owned(), Json::Int(d.injection_speed as i64)));
    out.push(("injectionBias".to_owned(), crate::json::json_clone(&d.injection_bias)));
    out.push(("scriptingMode".to_owned(), Json::Int(d.scripting_mode as i64)));
    out.push(("simulatorPresets".to_owned(), presets_to_json(&d.simulator_presets)));
    out.push(("activeSimulator".to_owned(), Json::Int(d.active_simulator as i64)));
    out.push(("reductionTolerance".to_owned(), crate::json::json_clone(&d.reduction_tolerance)));
    out.push(("reductionStretch".to_owned(), crate::json::json_clone(&d.reduction_stretch)));
    out.push(("clips".to_owned(), clips_to_json(&d.clips)));
    out.push(("actions".to_owned(), points_to_json(&d.actions)));
    out.push(("rawActions".to_owned(), points_to_json(&d.raw_actions)));
    out.push(("metadata".to_owned(), metadata_to_json(&d.metadata)));
    let r = Json::Obj(out);
    proof {
        lemma_jview_entries(out@);
        assert(jview_entries(out@) =~= json_of_doc(d@)->Obj_0);
    }
    r
}


// ------------------------------------------------------------------
// Round-trip and well-formedness lemmas.
// ------------------------------------------------------------------

/// An integer array reads back as the sequence it was rendered from.
pub proof fn lemma_i32s_round_trip(x: Seq<i32>)
    ensures
        as_i32_seq(JsonV::Arr(i32s_json(x))) == Some(x),
{
    assert(i32_items_ok(i32s_json(x)));
    assert(i32_items(i32s_json(x)) =~= x);
}

/// A string array reads back as the sequence it was rendered from.
pub proof fn lemma_strs_round_trip(x: Seq<Seq<char>>)
    ensures
        as_str_seq(JsonV::Arr(strs_json(x))) == Some(x),
{
    assert(str_items_ok(strs_json(x)));
    assert(str_items(strs_json(x)) =~= x);
}

/// A point array reads back as the sequence it was rendered from.
pub proof fn lemma_points_round_trip(x: Seq<FSPoint>)
    ensures
        as_point_seq(JsonV::Arr(points_json(x))) == Some(x),
{
    assert forall|i: int| 0 <= i < points_json(x).len() implies point_of_json(
        #[trigger] points_json(x)[i],
    ) == Some(x[i]) by {
        lemma_point_round_trip(x[i]);
    }
    assert(point_items_ok(points_json(x)));
    assert(point_items(points_json(x)) =~= x);
}

/// A preset array of well-formed presets reads back unchanged.
pub proof fn lemma_presets_round_trip(x: Seq<PresetV>)
    requires
        forall|i: int| 0 <= i < x.len() ==> preset_wf(#[trigger] x[i]),
    ensures
        as_preset_seq(JsonV::Arr(presets_json(x))) == Some(x),
{
    assert forall|i: int| 0 <= i < presets_json(x).len() implies preset_of_json(
        #[trigger] presets_json(x)[i],
    ) == Some(x[i]) by {
        lemma_preset_round_trip(x[i]);
    }
    assert(preset_items_ok(presets_json(x)));
    assert(preset_items(presets_json(x)) =~= x);
}

pub proof fn lemma_i32s_json_wf(x: Seq<i32>)
    ensures
        json_wf(JsonV::Arr(i32s_json(x))),
{
    assert(forall|i: int| 0 <= i < i32s_json(x).len() ==> json_wf(#[trigger] i32s_json(x)[i]));
}

pub proof fn lemma_strs_json_wf(x: Seq<Seq<char>>)
    ensures
        json_wf(JsonV::Arr(strs_json(x))),
{
    assert(forall|i: int| 0 <= i < strs_json(x).len() ==> json_wf(#[trigger] strs_json(x)[i]));
}

pub proof fn lemma_points_json_wf(x: Seq<FSPoint>)
    ensures
        json_wf(JsonV::Arr(points_json(x))),
{
    assert forall|i: int| 0 <= i < points_json(x).len() implies json_wf(
        #[trigger] points_json(x)[i],
    ) by {
        lemma_point_json_wf(x[i]);
    }
}

pub proof fn lemma_presets_json_wf(x: Seq<PresetV>)
    requires
        forall|i: int| 0 <= i < x.len() ==> preset_wf(#[trigger] x[i]),
    ensures
        json_wf(JsonV::Arr(presets_json(x))),
{
    assert forall|i: int| 0 <= i < presets_json(x).len() implies json_wf(
        #[trigger] presets_json(x)[i],
    ) by {
        lemma_preset_json_wf(x[i]);
    }
}
/// The eight preset keys are pairwise distinct.
proof fn lemma_preset_keys_distinct()
    ensures
        "fullRange"@ != "name"@,
        "direction"@ != "name"@,
        "direction"@ != "fullRange"@,
        "rotation"@ != "name"@,
        "rotation"@ != "fullRange"@,
        "rotation"@ != "direction"@,
        "length"@ != "name"@,
        "length"@ != "fullRange"@,
        "length"@ != "direction"@,
        "length"@ != "rotation"@,
        "width"@ != "name"@,
        "width"@ != "fullRange"@,
        "width"@ != "direction"@,
        "width"@ != "rotation"@,
        "width"@ != "length"@,
        "offset"@ != "name"@,
        "offset"@ != "fullRange"@,
        "offset"@ != "direction"@,
        "offset"@ != "rotation"@,
        "offset"@ != "length"@,
        "offset"@ != "width"@,
        "color"@ != "name"@,
        "color"@ != "fullRange"@,
        "color"@ != "direction"@,
        "color"@ != "rotation"@,
        "color"@ != "length"@,
        "color"@ != "width"@,
        "color"@ != "offset"@,
{
    reveal_strlit("name");
    reveal_strlit("fullRange");
    reveal_strlit("direction");
    reveal_strlit("rotation");
    reveal_strlit("length");
    reveal_strlit("width");
    reveal_strlit("offset");
    reveal_strlit("color");
    assert(("name"@).len() == 4);
    assert(("fullRange"@).len() == 9);
    assert(("direction"@).len() == 9);
    assert(("rotation"@).len() == 8);
    assert(("length"@).len() == 6);
    assert(("width"@).len() == 5);
    assert(("offset"@).len() == 6);
    assert(("color"@).len() == 5);
    assert("fullRange"@ != "name"@);
    assert("direction"@ != "name"@);
    assert(("direction"@)[0] == 'd');
    assert(("fullRange"@)[0] == 'f');
    assert("direction"@ != "fullRange"@);
    assert("rotation"@ != "name"@);
    assert("rotation"@ != "fullRange"@);
    assert("rotation"@ != "direction"@);
    assert("length"@ != "name"@);
    assert("length"@ != "fullRange"@);
    assert("length"@ != "direction"@);
    assert("length"@ != "rotation"@);
    assert("width"@ != "name"@);
    assert("width"@ != "fullRange"@);
    assert("width"@ != "direction"@);
    assert("width"@ != "rotation"@);
    assert("width"@ != "length"@);
    assert("offset"@ != "name"@);
    assert("offset"@ != "fullRange"@);
    assert("offset"@ != "direction"@);
    assert("offset"@ != "rotation"@);
    assert(("offset"@)[0] == 'o');
    assert(("length"@)[0] == 'l');
    assert("offset"@ != "length"@);
    assert("offset"@ != "width"@);
    assert("color"@ != "name"@);
    assert("color"@ != "fullRange"@);
    assert("color"@ != "direction"@);
    assert("color"@ != "rotation"@);
    assert("color"@ != "length"@);
    assert(("color"@)[0] == 'c');
    assert(("width"@)[0] == 'w');
    assert("color"@ != "width"@);
    assert("color"@ != "offset"@);
}

/// The thirteen metadata keys are pairwise distinct.
proof fn lemma_md_keys_distinct()
    ensures
        "chapters"@ != "bookmarks"@,
        "creator"@ != "bookmarks"@,
        "creator"@ != "chapters"@,
        "description"@ != "bookmarks"@,
        "description"@ != "chapters"@,
        "description"@ != "creator"@,
        "duration"@ != "bookmarks"@,
        "duration"@ != "chapters"@,
        "duration"@ != "creator"@,
        "duration"@ != "description"@,
        "license"@ != "bookmarks"@,
        "license"@ != "chapters"@,
        "license"@ != "creator"@,
        "license"@ != "description"@,
        "license"@ != "duration"@,
        "notes"@ != "bookmarks"@,
        "notes"@ != "chapters"@,
        "notes"@ != "creator"@,
        "notes"@ != "description"@,
        "notes"@ != "duration"@,
        "notes"@ != "license"@,
        "performers"@ != "bookmarks"@,
        "performers"@ != "chapters"@,
        "performers"@ != "creator"@,
        "performers"@ != "description"@,
        "performers"@ != "duration"@,
        "performers"@ != "license"@,
        "performers"@ != "notes"@,
        "scriptUrl"@ != "bookmarks"@,
        "scriptUrl"@ != "chapters"@,
        "scriptUrl"@ != "creator"@,
        "scriptUrl"@ != "description"@,
        "scriptUrl"@ != "duration"@,
        "scriptUrl"@ != "license"@,
        "scriptUrl"@ != "notes"@,
        "scriptUrl"@ != "performers"@,
        "tags"@ != "bookmarks"@,
        "tags"@ != "chapters"@,
        "tags"@ != "creator"@,
        "tags"@ != "description"@,
        "tags"@ != "duration"@,
        "tags"@ != "license"@,
        "tags"@ != "notes"@,
        "tags"@ != "performers"@,
        "tags"@ != "scriptUrl"@,
        "title"@ != "bookmarks"@,
        "title"@ != "chapters"@,
        "title"@ != "creator"@,
        "title"@ != "description"@,
        "title"@ != "duration"@,
        "title"@ != "license"@,
        "title"@ != "notes"@,
        "title"@ != "performers"@,
        "title"@ != "scriptUrl"@,
        "title"@ != "tags"@,
        "type"@ != "bookmarks"@,
        "type"@ != "chapters"@,
        "type"@ != "creator"@,
        "type"@ != "description"@,
        "type"@ != "duration"@,
        "type"@ != "license"@,
        "type"@ != "notes"@,
        "type"@ != "performers"@,
        "type"@ != "scriptUrl"@,
        "type"@ != "tags"@,
        "type"@ != "title"@,
        "videoUrl"@ != "bookmarks"@,
        "videoUrl"@ != "chapters"@,
        "videoUrl"@ != "creator"@,
        "videoUrl"@ != "description"@,
        "videoUrl"@ != "duration"@,
        "videoUrl"@ != "license"@,
        "videoUrl"@ != "notes"@,
        "videoUrl"@ != "performers"@,
        "videoUrl"@ != "scriptUrl"@,
        "videoUrl"@ != "tags"@,
        "videoUrl"@ != "title"@,
        "videoUrl"@ != "type"@,
{
    reveal_strlit("bookmarks");
    reveal_strlit("chapters");
    reveal_strlit("creator");
    reveal_strlit("description");
    reveal_strlit("duration");
    reveal_strlit("license");
    reveal_strlit("notes");
    reveal_strlit("performers");
    reveal_strlit("scriptUrl");
    reveal_strlit("tags");
    reveal_strlit("title");
    reveal_strlit("type");
    reveal_strlit("videoUrl");
    assert(("bookmarks"@).len() == 9);
    assert(("chapters"@).len() == 8);
    assert(("creator"@).len() == 7);
    assert(("description"@).len() == 11);
    assert(("duration"@).len() == 8);
    assert(("license"@).len() == 7);
    assert(("notes"@).len() == 5);
    assert(("performers"@).len() == 10);
    assert(("scriptUrl"@).len() == 9);
    assert(("tags"@).len() == 4);
    assert(("title"@).len() == 5);
    assert(("type"@).len() == 4);
    assert(("videoUrl"@).len() == 8);
    assert("chapters"@ != "bookmarks"@);
    assert("creator"@ != "bookmarks"@);
    assert("creator"@ != "chapters"@);
    assert("description"@ != "bookmarks"@);
    assert("description"@ != "chapters"@);
    assert("description"@ != "creator"@);
    assert("duration"@ != "bookmarks"@);
    assert(("duration"@)[0] == 'd');
    assert(("chapters"@)[0] == 'c');
    assert("duration"@ != "chapters"@);
    assert("duration"@ != "creator"@);
    assert("duration"@ != "description"@);
    assert("license"@ != "bookmarks"@);
    assert("license"@ != "chapters"@);
    assert(("license"@)[0] == 'l');
    assert(("creator"@)[0] == 'c');
    assert("license"@ != "creator"@);
    assert("license"@ != "description"@);
    assert("license"@ != "duration"@);
    assert("notes"@ != "bookmarks"@);
    assert("notes"@ != "chapters"@);
    assert("notes"@ != "creator"@);
    assert("notes"@ != "description"@);
    assert("notes"@ != "duration"@);
    assert("notes"@ != "license"@);
    assert("performers"@ != "bookmarks"@);
    assert("performers"@ != "chapters"@);
    assert("performers"@ != "creator"@);
    assert("performers"@ != "description"@);
    assert("performers"@ != "duration"@);
    assert("performers"@ != "license"@);
    assert("performers"@ != "notes"@);
    assert(("scriptUrl"@)[0] == 's');
    assert(("bookmarks"@)[0] == 'b');
    assert("scriptUrl"@ != "bookmarks"@);
    assert("scriptUrl"@ != "chapters"@);
    assert("scriptUrl"@ != "creator"@);
    assert("scriptUrl"@ != "description"@);
    assert("scriptUrl"@ != "duration"@);
    assert("scriptUrl"@ != "license"@);
    assert("scriptUrl"@ != "notes"@);
    assert("scriptUrl"@ != "performers"@);
    assert("tags"@ != "bookmarks"@);
    assert("tags"@ != "chapters"@);
    assert("tags"@ != "creator"@);
    assert("tags"@ != "description"@);
    assert("tags"@ != "duration"@);
    assert("tags"@ != "license"@);
    assert("tags"@ != "notes"@);
    assert("tags"@ != "performers"@);
    assert("tags"@ != "scriptUrl"@);
    assert("title"@ != "bookmarks"@);
    assert("title"@ != "chapters"@);
    assert("title"@ != "creator"@);
    assert("title"@ != "description"@);
    assert("title"@ != "duration"@);
    assert("title"@ != "license"@);
    assert(("title"@)[0] == 't');
    assert(("notes"@)[0] == 'n');
    assert("title"@ != "notes"@);
    assert("title"@ != "performers"@);
    assert("title"@ != "scriptUrl"@);
    assert("title"@ != "tags"@);
    assert("type"@ != "bookmarks"@);
    assert("type"@ != "chapters"@);
    assert("type"@ != "creator"@);
    assert("type"@ != "description"@);
    assert("type"@ != "duration"@);
    assert("type"@ != "license"@);
    assert("type"@ != "notes"@);
    assert("type"@ != "performers"@);
    assert("type"@ != "scriptUrl"@);
    assert(("type"@)[1] == 'y');
    assert(("tags"@)[1] == 'a');
    assert("type"@ != "tags"@);
    assert("type"@ != "title"@);
    assert("videoUrl"@ != "bookmarks"@);
    assert(("videoUrl"@)[0] == 'v');
    assert(("chapters"@)[0] == 'c');
    assert("videoUrl"@ != "chapters"@);
    assert("videoUrl"@ != "creator"@);
    assert("videoUrl"@ != "description"@);
    assert(("videoUrl"@)[0] == 'v');
    assert(("duration"@)[0] == 'd');
    assert("videoUrl"@ != "duration"@);
    assert("videoUrl"@ != "license"@);
    assert("videoUrl"@ != "notes"@);
    assert("videoUrl"@ != "performers"@);
    assert("videoUrl"@ != "scriptUrl"@);
    assert("videoUrl"@ != "tags"@);
    assert("videoUrl"@ != "title"@);
    assert("videoUrl"@ != "type"@);
}

/// The eighteen document keys are pairwise distinct.
proof fn lemma_doc_keys_distinct()
    ensures
        "inverted"@ != "version"@,
        "range"@ != "version"@,
        "range"@ != "inverted"@,
        "bookmark"@ != "version"@,
        "bookmark"@ != "inverted"@,
        "bookmark"@ != "range"@,
        "lastPosition"@ != "version"@,
        "lastPosition"@ != "inverted"@,
        "lastPosition"@ != "range"@,
        "lastPosition"@ != "bookmark"@,
        "graphDuration"@ != "version"@,
        "graphDuration"@ != "inverted"@,
        "graphDuration"@ != "range"@,
        "graphDuration"@ != "bookmark"@,
        "graphDuration"@ != "lastPosition"@,
        "speedRatio"@ != "version"@,
        "speedRatio"@ != "inverted"@,
        "speedRatio"@ != "range"@,
        "speedRatio"@ != "bookmark"@,
        "speedRatio"@ != "lastPosition"@,
        "speedRatio"@ != "graphDuration"@,
        "injectionSpeed"@ != "version"@,
        "injectionSpeed"@ != "inverted"@,
        "injectionSpeed"@ != "range"@,
        "injectionSpeed"@ != "bookmark"@,
        "injectionSpeed"@ != "lastPosition"@,
        "injectionSpeed"@ != "graphDuration"@,
        "injectionSpeed"@ != "speedRatio"@,
        "injectionBias"@ != "version"@,
        "injectionBias"@ != "inverted"@,
        "injectionBias"@ != "range"@,
        "injectionBias"@ != "bookmark"@,
        "injectionBias"@ != "lastPosition"@,
        "injectionBias"@ != "graphDuration"@,
        "injectionBias"@ != "speedRatio"@,
        "injectionBias"@ != "injectionSpeed"@,
        "scriptingMode"@ != "version"@,
        "scriptingMode"@ != "inverted"@,
        "scriptingMode"@ != "range"@,
        "scriptingMode"@ != "bookmark"@,
        "scriptingMode"@ != "lastPosition"@,
        "scriptingMode"@ != "graphDuration"@,
        "scriptingMode"@ != "speedRatio"@,
        "scriptingMode"@ != "injectionSpeed"@,
        "scriptingMode"@ != "injectionBias"@,
        "simulatorPresets"@ != "version"@,
        "simulatorPresets"@ != "inverted"@,
        "simulatorPresets"@ != "range"@,
        "simulatorPresets"@ != "bookmark"@,
        "simulatorPresets"@ != "lastPosition"@,
        "simulatorPresets"@ != "graphDuration"@,
        "simulatorPresets"@ != "speedRatio"@,
        "simulatorPresets"@ != "injectionSpeed"@,
        "simulatorPresets"@ != "injectionBias"@,
        "simulatorPresets"@ != "scriptingMode"@,
        "activeSimulator"@ != "version"@,
        "activeSimulator"@ != "inverted"@,
        "activeSimulator"@ != "range"@,
        "activeSimulator"@ != "bookmark"@,
        "activeSimulator"@ != "lastPosition"@,
        "activeSimulator"@ != "graphDuration"@,
        "activeSimulator"@ != "speedRatio"@,
        "activeSimulator"@ != "injectionSpeed"@,
        "activeSimulator"@ != "injectionBias"@,
        "activeSimulator"@ != "scriptingMode"@,
        "activeSimulator"@ != "simulatorPresets"@,
        "reductionTolerance"@ != "version"@,
        "reductionTolerance"@ != "inverted"@,
        "reductionTolerance"@ != "range"@,
        "reductionTolerance"@ != "bookmark"@,
        "reductionTolerance"@ != "lastPosition"@,
        "reductionTolerance"@ != "graphDuration"@,
        "reductionTolerance"@ != "speedRatio"@,
        "reductionTolerance"@ != "injectionSpeed"@,
        "reductionTolerance"@ != "injectionBias"@,
        "reductionTolerance"@ != "scriptingMode"@,
        "reductionTolerance"@ != "simulatorPresets"@,
        "reductionTolerance"@ != "activeSimulator"@,
        "reductionStretch"@ != "version"@,
        "reductionStretch"@ != "inverted"@,
        "reductionStretch"@ != "range"@,
        "reductionStretch"@ != "bookmark"@,
        "reductionStretch"@ != "lastPosition"@,
        "reductionStretch"@ != "graphDuration"@,
        "reductionStretch"@ != "speedRatio"@,
        "reductionStretch"@ != "injectionSpeed"@,
        "reductionStretch"@ != "injectionBias"@,
        "reductionStretch"@ != "scriptingMode"@,
        "reductionStretch"@ != "simulatorPresets"@,
        "reductionStretch"@ != "activeSimulator"@,
        "reductionStretch"@ != "reductionTolerance"@,
        "clips"@ != "version"@,
        "clips"@ != "inverted"@,
        "clips"@ != "range"@,
        "clips"@ != "bookmark"@,
        "clips"@ != "lastPosition"@,
        "clips"@ != "graphDuration"@,
        "clips"@ != "speedRatio"@,
        "clips"@ != "injectionSpeed"@,
        "clips"@ != "injectionBias"@,
        "clips"@ != "scriptingMode"@,
        "clips"@ != "simulatorPresets"@,
        "clips"@ != "activeSimulator"@,
        "clips"@ != "reductionTolerance"@,
        "clips"@ != "reductionStretch"@,
        "actions"@ != "version"@,
        "actions"@ != "inverted"@,
        "actions"@ != "range"@,
        "actions"@ != "bookmark"@,
        "actions"@ != "lastPosition"@,
        "actions"@ != "graphDuration"@,
        "actions"@ != "speedRatio"@,
        "actions"@ != "injectionSpeed"@,
        "actions"@ != "injectionBias"@,
        "actions"@ != "scriptingMode"@,
        "actions"@ != "simulatorPresets"@,
        "actions"@ != "activeSimulator"@,
        "actions"@ != "reductionTolerance"@,
        "actions"@ != "reductionStretch"@,
        "actions"@ != "clips"@,
        "rawActions"@ != "version"@,
        "rawActions"@ != "inverted"@,
        "rawActions"@ != "range"@,
        "rawActions"@ != "bookmark"@,
        "rawActions"@ != "lastPosition"@,
        "rawActions"@ != "graphDuration"@,
        "rawActions"@ != "speedRatio"@,
        "rawActions"@ != "injectionSpeed"@,
        "rawActions"@ != "injectionBias"@,
        "rawActions"@ != "scriptingMode"@,
        "rawActions"@ != "simulatorPresets"@,
        "rawActions"@ != "activeSimulator"@,
        "rawActions"@ != "reductionTolerance"@,
        "rawActions"@ != "reductionStretch"@,
        "rawActions"@ != "clips"@,
        "rawActions"@ != "actions"@,
        "metadata"@ != "version"@,
        "metadata"@ != "inverted"@,
        "metadata"@ != "range"@,
        "metadata"@ != "bookmark"@,
        "metadata"@ != "lastPosition"@,
        "metadata"@ != "graphDuration"@,
        "metadata"@ != "speedRatio"@,
        "metadata"@ != "injectionSpeed"@,
        "metadata"@ != "injectionBias"@,
        "metadata"@ != "scriptingMode"@,
        "metadata"@ != "simulatorPresets"@,
        "metadata"@ != "activeSimulator"@,
        "metadata"@ != "reductionTolerance"@,
        "metadata"@ != "reductionStretch"@,
        "metadata"@ != "clips"@,
        "metadata"@ != "actions"@,
        "metadata"@ != "rawActions"@,
{
    reveal_strlit("version");
    reveal_strlit("inverted");
    reveal_strlit("range");
    reveal_strlit("bookmark");
    reveal_strlit("lastPosition");
    reveal_strlit("graphDuration");
    reveal_strlit("speedRatio");
    reveal_strlit("injectionSpeed");
    reveal_strlit("injectionBias");
    reveal_strlit("scriptingMode");
    reveal_strlit("simulatorPresets");
    reveal_strlit("activeSimulator");
    reveal_strlit("reductionTolerance");
    reveal_strlit("reductionStretch");
    reveal_strlit("clips");
    reveal_strlit("actions");
    reveal_strlit("rawActions");
    reveal_strlit("metadata");
    assert(("version"@).len() == 7);
    assert(("inverted"@).len() == 8);
    assert(("range"@).len() == 5);
    assert(("bookmark"@).len() == 8);
    assert(("lastPosition"@).len() == 12);
    assert(("graphDuration"@).len() == 13);
    assert(("speedRatio"@).len() == 10);
    assert(("injectionSpeed"@).len() == 14);
    assert(("injectionBias"@).len() == 13);
    assert(("scriptingMode"@).len() == 13);
    assert(("simulatorPresets"@).len() == 16);
    assert(("activeSimulator"@).len() == 15);
    assert(("reductionTolerance"@).len() == 18);
    assert(("reductionStretch"@).len() == 16);
    assert(("clips"@).len() == 5);
    assert(("actions"@).len() == 7);
    assert(("rawActions"@).len() == 10);
    assert(("metadata"@).len() == 8);
    assert("inverted"@ != "version"@);
    assert("range"@ != "version"@);
    assert("range"@ != "inverted"@);
    assert("bookmark"@ != "version"@);
    assert(("bookmark"@)[0] == 'b');
    assert(("inverted"@)[0] == 'i');
    assert("bookmark"@ != "inverted"@);
    assert("bookmark"@ != "range"@);
    assert("lastPosition"@ != "version"@);
    assert("lastPosition"@ != "inverted"@);
    assert("lastPosition"@ != "range"@);
    assert("lastPosition"@ != "bookmark"@);
    assert("graphDuration"@ != "version"@);
    assert("graphDuration"@ != "inverted"@);
    assert("graphDuration"@ != "range"@);
    assert("graphDuration"@ != "bookmark"@);
    assert("graphDuration"@ != "lastPosition"@);
    assert("speedRatio"@ != "version"@);
    assert("speedRatio"@ != "inverted"@);
    assert("speedRatio"@ != "range"@);
    assert("speedRatio"@ != "bookmark"@);
    assert("speedRatio"@ != "lastPosition"@);
    assert("speedRatio"@ != "graphDuration"@);
    assert("injectionSpeed"@ != "version"@);
    assert("injectionSpeed"@ != "inverted"@);
    assert("injectionSpeed"@ != "range"@);
    assert("injectionSpeed"@ != "bookmark"@);
    assert("injectionSpeed"@ != "lastPosition"@);
    assert("injectionSpeed"@ != "graphDuration"@);
    assert("injectionSpeed"@ != "speedRatio"@);
    assert("injectionBias"@ != "version"@);
    assert("injectionBias"@ != "inverted"@);
    assert("injectionBias"@ != "range"@);
    assert("injectionBias"@ != "bookmark"@);
    assert("injectionBias"@ != "lastPosition"@);
    assert(("injectionBias"@)[0] == 'i');
    assert(("graphDuration"@)[0] == 'g');
    assert("injectionBias"@ != "graphDuration"@);
    assert("injectionBias"@ != "speedRatio"@);
    assert("injectionBias"@ != "injectionSpeed"@);
    assert("scriptingMode"@ != "version"@);
    assert("scriptingMode"@ != "inverted"@);
    assert("scriptingMode"@ != "range"@);
    assert("scriptingMode"@ != "bookmark"@);
    assert("scriptingMode"@ != "lastPosition"@);
    assert(("scriptingMode"@)[0] == 's');
    assert(("graphDuration"@)[0] == 'g');
    assert("scriptingMode"@ != "graphDuration"@);
    assert("scriptingMode"@ != "speedRatio"@);
    assert("scriptingMode"@ != "injectionSpeed"@);
    assert(("scriptingMode"@)[0] == 's');
    assert(("injectionBias"@)[0] == 'i');
    assert("scriptingMode"@ != "injectionBias"@);
    assert("simulatorPresets"@ != "version"@);
    assert("simulatorPresets"@ != "inverted"@);
    assert("simulatorPresets"@ != "range"@);
    assert("simulatorPresets"@ != "bookmark"@);
    assert("simulatorPresets"@ != "lastPosition"@);
    assert("simulatorPresets"@ != "graphDuration"@);
    assert("simulatorPresets"@ != "speedRatio"@);
    assert("simulatorPresets"@ != "injectionSpeed"@);
    assert("simulatorPresets"@ != "injectionBias"@);
    assert("simulatorPresets"@ != "scriptingMode"@);
    assert("activeSimulator"@ != "version"@);
    assert("activeSimulator"@ != "inverted"@);
    assert("activeSimulator"@ != "range"@);
    assert("activeSimulator"@ != "bookmark"@);
    assert("activeSimulator"@ != "lastPosition"@);
    assert("activeSimulator"@ != "graphDuration"@);
    assert("activeSimulator"@ != "speedRatio"@);
    assert("activeSimulator"@ != "injectionSpeed"@);
    assert("activeSimulator"@ != "injectionBias"@);
    assert("activeSimulator"@ != "scriptingMode"@);
    assert("activeSimulator"@ != "simulatorPresets"@);
    assert("reductionTolerance"@ != "version"@);
    assert("reductionTolerance"@ != "inverted"@);
    assert("reductionTolerance"@ != "range"@);
    assert("reductionTolerance"@ != "bookmark"@);
    assert("reductionTolerance"@ != "lastPosition"@);
    assert("reductionTolerance"@ != "graphDuration"@);
    assert("reductionTolerance"@ != "speedRatio"@);
    assert("reductionTolerance"@ != "injectionSpeed"@);
    assert("reductionTolerance"@ != "injectionBias"@);
    assert("reductionTolerance"@ != "scriptingMode"@);
    assert("reductionTolerance"@ != "simulatorPresets"@);
    assert("reductionTolerance"@ != "activeSimulator"@);
    assert("reductionStretch"@ != "version"@);
    assert("reductionStretch"@ != "inverted"@);
    assert("reductionStretch"@ != "range"@);
    assert("reductionStretch"@ != "bookmark"@);
    assert("reductionStretch"@ != "lastPosition"@);
    assert("reductionStretch"@ != "graphDuration"@);
    assert("reductionStretch"@ != "speedRatio"@);
    assert("reductionStretch"@ != "injectionSpeed"@);
    assert("reductionStretch"@ != "injectionBias"@);
    assert("reductionStretch"@ != "scriptingMode"@);
    assert(("reductionStretch"@)[0] == 'r');
    assert(("simulatorPresets"@)[0] == 's');
    assert("reductionStretch"@ != "simulatorPresets"@);
    assert("reductionStretch"@ != "activeSimulator"@);
    assert("reductionStretch"@ != "reductionTolerance"@);
    assert("clips"@ != "version"@);
    assert("clips"@ != "inverted"@);
    assert(("clips"@)[0] == 'c');
    assert(("range"@)[0] == 'r');
    assert("clips"@ != "range"@);
    assert("clips"@ != "bookmark"@);
    assert("clips"@ != "lastPosition"@);
    assert("clips"@ != "graphDuration"@);
    assert("clips"@ != "speedRatio"@);
    assert("clips"@ != "injectionSpeed"@);
    assert("clips"@ != "injectionBias"@);
    assert("clips"@ != "scriptingMode"@);
    assert("clips"@ != "simulatorPresets"@);
    assert("clips"@ != "activeSimulator"@);
    assert("clips"@ != "reductionTolerance"@);
    assert("clips"@ != "reductionStretch"@);
    assert(("actions"@)[0] == 'a');
    assert(("version"@)[0] == 'v');
    assert("actions"@ != "version"@);
    assert("actions"@ != "inverted"@);
    assert("actions"@ != "range"@);
    assert("actions"@ != "bookmark"@);
    assert("actions"@ != "lastPosition"@);
    assert("actions"@ != "graphDuration"@);
    assert("actions"@ != "speedRatio"@);
    assert("actions"@ != "injectionSpeed"@);
    assert("actions"@ != "injectionBias"@);
    assert("actions"@ != "scriptingMode"@);
    assert("actions"@ != "simulatorPresets"@);
    assert("actions"@ != "activeSimulator"@);
    assert("actions"@ != "reductionTolerance"@);
    assert("actions"@ != "reductionStretch"@);
    assert("actions"@ != "clips"@);
    assert("rawActions"@ != "version"@);
    assert("rawActions"@ != "inverted"@);
    assert("rawActions"@ != "range"@);
    assert("rawActions"@ != "bookmark"@);
    assert("rawActions"@ != "lastPosition"@);
    assert("rawActions"@ != "graphDuration"@);
    assert(("rawActions"@)[0] == 'r');
    assert(("speedRatio"@)[0] == 's');
    assert("rawActions"@ != "speedRatio"@);
    assert("rawActions"@ != "injectionSpeed"@);
    assert("rawActions"@ != "injectionBias"@);
    assert("rawActions"@ != "scriptingMode"@);
    assert("rawActions"@ != "simulatorPresets"@);
    assert("rawActions"@ != "activeSimulator"@);
    assert("rawActions"@ != "reductionTolerance"@);
    assert("rawActions"@ != "reductionStretch"@);
    assert("rawActions"@ != "clips"@);
    assert("rawActions"@ != "actions"@);
    assert("metadata"@ != "version"@);
    assert(("metadata"@)[0] == 'm');
    assert(("inverted"@)[0] == 'i');
    assert("metadata"@ != "inverted"@);
    assert("metadata"@ != "range"@);
    assert(("metadata"@)[0] == 'm');
    assert(("bookmark"@)[0] == 'b');
    assert("metadata"@ != "bookmark"@);
    assert("metadata"@ != "lastPosition"@);
    assert("metadata"@ != "graphDuration"@);
    assert("metadata"@ != "speedRatio"@);
    assert("metadata"@ != "injectionSpeed"@);
    assert("metadata"@ != "injectionBias"@);
    assert("metadata"@ != "scriptingMode"@);
    assert("metadata"@ != "simulatorPresets"@);
    assert("metadata"@ != "activeSimulator"@);
    assert("metadata"@ != "reductionTolerance"@);
    assert("metadata"@ != "reductionStretch"@);
    assert("metadata"@ != "clips"@);
    assert("metadata"@ != "actions"@);
    assert("metadata"@ != "rawActions"@);
}

/// A well-formed preset reads back from its own rendering.
pub proof fn lemma_preset_round_trip(p: PresetV)
    requires
        preset_wf(p),
    ensures
        preset_of_json(json_of_preset(p)) == Some(p),
{
    lemma_preset_keys_distinct();
    let es = json_of_preset(p)->Obj_0;
    assert(es[0] == ("name"@, JsonV::Str(p.name)));
    assert(es[1] == ("fullRange"@, JsonV::Bool(p.full_range)));
    assert(es[2] == ("direction"@, JsonV::Int(p.direction as i64)));
    assert(es[3] == ("rotation"@, p.rotation));
    assert(es[4] == ("length"@, p.length));
    assert(es[5] == ("width"@, p.width));
    assert(es[6] == ("offset"@, JsonV::Str(p.offset)));
    assert(es[7] == ("color"@, JsonV::Str(p.color)));
    let a0 = default_preset_v();
    let a1 = PresetV { name: p.name, ..a0 };
    let a2 = PresetV { full_range: p.full_range, ..a1 };
    let a3 = PresetV { direction: p.direction, ..a2 };
    let a4 = PresetV { rotation: p.rotation, ..a3 };
    let a5 = PresetV { length: p.length, ..a4 };
    let a6 = PresetV { width: p.width, ..a5 };
    let a7 = PresetV { offset: p.offset, ..a6 };
    let a8 = PresetV { color: p.color, ..a7 };
    assert(preset_field(a0, es[0].0, es[0].1) == Some(a1));
    assert(preset_field(a1, es[1].0, es[1].1) == Some(a2));
    assert(preset_field(a2, es[2].0, es[2].1) == Some(a3));
    assert(preset_field(a3, es[3].0, es[3].1) == Some(a4));
    assert(preset_field(a4, es[4].0, es[4].1) == Some(a5));
    assert(preset_field(a5, es[5].0, es[5].1) == Some(a6));
    assert(preset_field(a6, es[6].0, es[6].1) == Some(a7));
    assert(preset_field(a7, es[7].0, es[7].1) == Some(a8));
    assert(a8 =~= p);
    assert(preset_fold(es, 8, a8) == Some(a8));
    assert(preset_fold(es, 7, a7) == preset_fold(es, 8, a8));
    assert(preset_fold(es, 6, a6) == preset_fold(es, 7, a7));
    assert(preset_fold(es, 5, a5) == preset_fold(es, 6, a6));
    assert(preset_fold(es, 4, a4) == preset_fold(es, 5, a5));
    assert(preset_fold(es, 3, a3) == preset_fold(es, 4, a4));
    assert(preset_fold(es, 2, a2) == preset_fold(es, 3, a3));
    assert(preset_fold(es, 1, a1) == preset_fold(es, 2, a2));
    assert(preset_fold(es, 0, a0) == preset_fold(es, 1, a1));
}
/// A well-formed preset renders to a well-formed JSON object.
pub proof fn lemma_preset_json_wf(p: PresetV)
    requires
        preset_wf(p),
    ensures
        json_wf(json_of_preset(p)),
{
    lemma_preset_keys_distinct();
    let es = json_of_preset(p)->Obj_0;
    assert(es[0] == ("name"@, JsonV::Str(p.name)));
    assert(es[1] == ("fullRange"@, JsonV::Bool(p.full_range)));
    assert(es[2] == ("direction"@, JsonV::Int(p.direction as i64)));
    assert(es[3] == ("rotation"@, p.rotation));
    assert(es[4] == ("length"@, p.length));
    assert(es[5] == ("width"@, p.width));
    assert(es[6] == ("offset"@, JsonV::Str(p.offset)));
    assert(es[7] == ("color"@, JsonV::Str(p.color)));
    assert(json_wf(es[0].1));
    assert(json_wf(es[1].1));
    assert(json_wf(es[2].1));
    assert(json_wf(es[3].1));
    assert(json_wf(es[4].1));
    assert(json_wf(es[5].1));
    assert(json_wf(es[6].1));
    assert(json_wf(es[7].1));
    assert(forall|i: int| 0 <= i < es.len() ==> json_wf(#[trigger] es[i].1));
    assert(forall|i: int, k: int| 0 <= i < k < es.len() ==> (#[trigger] es[i].0) != (#[trigger] es[k].0));
}
/// Metadata reads back from its own rendering.
pub proof fn lemma_md_round_trip(m: MetadataV)
    ensures
        md_of_json(json_of_metadata(m)) == Some(m),
{
    lemma_md_keys_distinct();
    let es = json_of_metadata(m)->Obj_0;
    assert(es[0] == ("bookmarks"@, JsonV::Arr(i32s_json(m.bookmarks))));
    assert(es[1] == ("chapters"@, JsonV::Arr(strs_json(m.chapters))));
    assert(es[2] == ("creator"@, JsonV::Str(m.creator)));
    assert(es[3] == ("description"@, JsonV::Str(m.description)));
    assert(es[4] == ("duration"@, JsonV::Int(m.duration as i64)));
    assert(es[5] == ("license"@, JsonV::Str(m.license)));
    assert(es[6] == ("notes"@, JsonV::Str(m.notes)));
    assert(es[7] == ("performers"@, JsonV::Arr(strs_json(m.performers))));
    assert(es[8] == ("scriptUrl"@, JsonV::Str(m.script_url)));
    assert(es[9] == ("tags"@, JsonV::Arr(strs_json(m.tags))));
    assert(es[10] == ("title"@, JsonV::Str(m.title)));
    assert(es[11] == ("type"@, JsonV::Str(m.ofs_type)));
    assert(es[12] == ("videoUrl"@, JsonV::Str(m.video_url)));
    lemma_i32s_round_trip(m.bookmarks);
    lemma_strs_round_trip(m.chapters);
    lemma_strs_round_trip(m.performers);
    lemma_strs_round_trip(m.tags);
    let a0 = default_metadata_v();
    let a1 = MetadataV { bookmarks: m.bookmarks, ..a0 };
    let a2 = MetadataV { chapters: m.chapters, ..a1 };
    let a3 = MetadataV { creator: m.creator, ..a2 };
    let a4 = MetadataV { description: m.description, ..a3 };
    let a5 = MetadataV { duration: m.duration, ..a4 };
    let a6 = MetadataV { license: m.license, ..a5 };
    let a7 = MetadataV { notes: m.notes, ..a6 };
    let a8 = MetadataV { performers: m.performers, ..a7 };
    let a9 = MetadataV { script_url: m.script_url, ..a8 };
    let a10 = MetadataV { tags: m.tags, ..a9 };
    let a11 = MetadataV { title: m.title, ..a10 };
    let a12 = MetadataV { ofs_type: m.ofs_type, ..a11 };
    let a13 = MetadataV { video_url: m.video_url, ..a12 };
    assert(md_field(a0, es[0].0, es[0].1) == Some(a1));
    assert(md_field(a1, es[1].0, es[1].1) == Some(a2));
    assert(md_field(a2, es[2].0, es[2].1) == Some(a3));
    assert(md_field(a3, es[3].0, es[3].1) == Some(a4));
    assert(md_field(a4, es[4].0, es[4].1) == Some(a5));
    assert(md_field(a5, es[5].0, es[5].1) == Some(a6));
    assert(md_field(a6, es[6].0, es[6].1) == Some(a7));
    assert(md_field(a7, es[7].0, es[7].1) == Some(a8));
    assert(md_field(a8, es[8].0, es[8].1) == Some(a9));
    assert(md_field(a9, es[9].0, es[9].1) == Some(a10));
    assert(md_field(a10, es[10].0, es[10].1) == Some(a11));
    assert(md_field(a11, es[11].0, es[11].1) == Some(a12));
    assert(md_field(a12, es[12].0, es[12].1) == Some(a13));
    assert(a13 =~= m);
    assert(md_fold(es, 13, a13) == Some(a13));
    assert(md_fold(es, 12, a12) == md_fold(es, 13, a13));
    assert(md_fold(es, 11, a11) == md_fold(es, 12, a12));
    assert(md_fold(es, 10, a10) == md_fold(es, 11, a11));
    assert(md_fold(es, 9, a9) == md_fold(es, 10, a10));
    assert(md_fold(es, 8, a8) == md_fold(es, 9, a9));
    assert(md_fold(es, 7, a7) == md_fold(es, 8, a8));
    assert(md_fold(es, 6, a6) == md_fold(es, 7, a7));
    assert(md_fold(es, 5, a5) == md_fold(es, 6, a6));
    assert(md_fold(es, 4, a4) == md_fold(es, 5, a5));
    assert(md_fold(es, 3, a3) == md_fold(es, 4, a4));
    assert(md_fold(es, 2, a2) == md_fold(es, 3, a3));
    assert(md_fold(es, 1, a1) == md_fold(es, 2, a2));
    assert(md_fold(es, 0, a0) == md_fold(es, 1, a1));
}
/// Metadata renders to a well-formed JSON object.
pub proof fn lemma_metadata_json_wf(m: MetadataV)
    ensures
        json_wf(json_of_metadata(m)),
{
    lemma_md_keys_distinct();
    let es = json_of_metadata(m)->Obj_0;
    assert(es[0] == ("bookmarks"@, JsonV::Arr(i32s_json(m.bookmarks))));
    assert(es[1] == ("chapters"@, JsonV::Arr(strs_json(m.chapters))));
    assert(es[2] == ("creator"@, JsonV::Str(m.creator)));
    assert(es[3] == ("description"@, JsonV::Str(m.description)));
    assert(es[4] == ("duration"@, JsonV::Int(m.duration as i64)));
    assert(es[5] == ("license"@, JsonV::Str(m.license)));
    assert(es[6] == ("notes"@, JsonV::Str(m.notes)));
    assert(es[7] == ("performers"@, JsonV::Arr(strs_json(m.performers))));
    assert(es[8] == ("scriptUrl"@, JsonV::Str(m.script_url)));
    assert(es[9] == ("tags"@, JsonV::Arr(strs_json(m.tags))));
    assert(es[10] == ("title"@, JsonV::Str(m.title)));
    assert(es[11] == ("type"@, JsonV::Str(m.ofs_type)));
    assert(es[12] == ("videoUrl"@, JsonV::Str(m.video_url)));
    lemma_i32s_json_wf(m.bookmarks);
    lemma_strs_json_wf(m.chapters);
    lemma_strs_json_wf(m.performers);
    lemma_strs_json_wf(m.tags);
    assert(json_wf(es[0].1));
    assert(json_wf(es[1].1));
    assert(json_wf(es[2].1));
    assert(json_wf(es[3].1));
    assert(json_wf(es[4].1));
    assert(json_wf(es[5].1));
    assert(json_wf(es[6].1));
    assert(json_wf(es[7].1));
    assert(json_wf(es[8].1));
    assert(json_wf(es[9].1));
    assert(json_wf(es[10].1));
    assert(json_wf(es[11].1));
    assert(json_wf(es[12].1));
    assert(forall|i: int| 0 <= i < es.len() ==> json_wf(#[trigger] es[i].1));
    assert(forall|i: int, k: int| 0 <= i < k < es.len() ==> (#[trigger] es[i].0) != (#[trigger] es[k].0));
}
/// Round trip: a well-formed document reads back, field for field, from the JSON tree it renders to.
pub proof fn lemma_doc_round_trip(d: FScriptV)
    requires
        fscript_wf(d),
    ensures
        doc_of_json(json_of_doc(d)) == Some(d),
{
    lemma_doc_keys_distinct();
    let es = json_of_doc(d)->Obj_0;
    assert(es[0] == ("version"@, JsonV::Str(d.version)));
    assert(es[1] == ("inverted"@, JsonV::Bool(d.inverted)));
    assert(es[2] == ("range"@, JsonV::Int(d.range as i64)));
    assert(es[3] == ("bookmark"@, JsonV::Int(d.bookmark as i64)));
    assert(es[4] == ("lastPosition"@, JsonV::Int(d.last_position)));
    assert(es[5] == ("graphDuration"@, JsonV::Int(d.graph_duration as i64)));
    assert(es[6] == ("speedRatio"@, d.speed_ratio));
    assert(es[7] == ("injectionSpeed"@, JsonV::Int(d.injection_speed as i64)));
    assert(es[8] == ("injectionBias"@, d.injection_bias));
    assert(es[9] == ("scriptingMode"@, JsonV::Int(d.scripting_mode as i64)));
    assert(es[10] == ("simulatorPresets"@, JsonV::Arr(presets_json(d.simulator_presets))));
    assert(es[11] == ("activeSimulator"@, JsonV::Int(d.active_simulator as i64)));
    assert(es[12] == ("reductionTolerance"@, d.reduction_tolerance));
    assert(es[13] == ("reductionStretch"@, d.reduction_stretch));
    assert(es[14] == ("clips"@, JsonV::Arr(d.clips)));
    assert(es[15] == ("actions"@, JsonV::Arr(points_json(d.actions))));
    assert(es[16] == ("rawActions"@, JsonV::Arr(points_json(d.raw_actions))));
    assert(es[17] == ("metadata"@, json_of_metadata(d.metadata)));
    lemma_presets_round_trip(d.simulator_presets);
    lemma_points_round_trip(d.actions);
    lemma_points_round_trip(d.raw_actions);
    lemma_md_round_trip(d.metadata);
    let a0 = default_fscript_v();
    let a1 = FScriptV { version: d.version, ..a0 };
    let a2 = FScriptV { inverted: d.inverted, ..a1 };
    let a3 = FScriptV { range: d.range, ..a2 };
    let a4 = FScriptV { bookmark: d.bookmark, ..a3 };
    let a5 = FScriptV { last_position: d.last_position, ..a4 };
    let a6 = FScriptV { graph_duration: d.graph_duration, ..a5 };
    let a7 = FScriptV { speed_ratio: d.speed_ratio, ..a6 };
    let a8 = FScriptV { injection_speed: d.injection_speed, ..a7 };
    let a9 = FScriptV { injection_bias: d.injection_bias, ..a8 };
    let a10 = FScriptV { scripting_mode: d.scripting_mode, ..a9 };
    let a11 = FScriptV { simulator_presets: d.simulator_presets, ..a10 };
    let a12 = FScriptV { active_simulator: d.active_simulator, ..a11 };
    let a13 = FScriptV { reduction_tolerance: d.reduction_tolerance, ..a12 };
    let a14 = FScriptV { reduction_stretch: d.reduction_stretch, ..a13 };
    let a15 = FScriptV { clips: d.clips, ..a14 };
    let a16 = FScriptV { actions: d.actions, ..a15 };
    let a17 = FScriptV { raw_actions: d.raw_actions, ..a16 };
    let a18 = FScriptV { metadata: d.metadata, ..a17 };
    assert(doc_field(a0, es[0].0, es[0].1) == Some(a1));
    assert(doc_field(a1, es[1].0, es[1].1) == Some(a2));
    assert(doc_field(a2, es[2].0, es[2].1) == Some(a3));
    assert(doc_field(a3, es[3].0, es[3].1) == Some(a4));
    assert(doc_field(a4, es[4].0, es[4].1) == Some(a5));
    assert(doc_field(a5, es[5].0, es[5].1) == Some(a6));
    assert(doc_field(a6, es[6].0, es[6].1) == Some(a7));
    assert(doc_field(a7, es[7].0, es[7].1) == Some(a8));
    assert(doc_field(a8, es[8].0, es[8].1) == Some(a9));
    assert(doc_field(a9, es[9].0, es[9].1) == Some(a10));
    assert(doc_field(a10, es[10].0, es[10].1) == Some(a11));
    assert(doc_field(a11, es[11].0, es[11].1) == Some(a12));
    assert(doc_field(a12, es[12].0, es[12].1) == Some(a13));
    assert(doc_field(a13, es[13].0, es[13].1) == Some(a14));
    assert(doc_field(a14, es[14].0, es[14].1) == Some(a15));
    assert(doc_field(a15, es[15].0, es[15].1) == Some(a16));
    assert(doc_field(a16, es[16].0, es[16].1) == Some(a17));
    assert(doc_field(a17, es[17].0, es[17].1) == Some(a18));
    assert(a18 =~= d);
    assert(doc_fold(es, 18, a18) == Some(a18));
    assert(doc_fold(es, 17, a17) == doc_fold(es, 18, a18));
    assert(doc_fold(es, 16, a16) == doc_fold(es, 17, a17));
    assert(doc_fold(es, 15, a15) == doc_fold(es, 16, a16));
    assert(doc_fold(es, 14, a14) == doc_fold(es, 15, a15));
    assert(doc_fold(es, 13, a13) == doc_fold(es, 14, a14));
    assert(doc_fold(es, 12, a12) == doc_fold(es, 13, a13));
    assert(doc_fold(es, 11, a11) == doc_fold(es, 12, a12));
    assert(doc_fold(es, 10, a10) == doc_fold(es, 11, a11));
    assert(doc_fold(es, 9, a9) == doc_fold(es, 10, a10));
    assert(doc_fold(es, 8, a8) == doc_fold(es, 9, a9));
    assert(doc_fold(es, 7, a7) == doc_fold(es, 8, a8));
    assert(doc_fold(es, 6, a6) == doc_fold(es, 7, a7));
    assert(doc_fold(es, 5, a5) == doc_fold(es, 6, a6));
    assert(doc_fold(es, 4, a4) == doc_fold(es, 5, a5));
    assert(doc_fold(es, 3, a3) == doc_fold(es, 4, a4));
    assert(doc_fold(es, 2, a2) == doc_fold(es, 3, a3));
    assert(doc_fold(es, 1, a1) == doc_fold(es, 2, a2));
    assert(doc_fold(es, 0, a0) == doc_fold(es, 1, a1));
}
/// A well-formed document renders to a well-formed JSON tree.
pub proof fn lemma_doc_json_wf(d: FScriptV)
    requires
        fscript_wf(d),
    ensures
        json_wf(json_of_doc(d)),
{
    lemma_doc_keys_distinct();
    let es = json_of_doc(d)->Obj_0;
    assert(es[0] == ("version"@, JsonV::Str(d.version)));
    assert(es[1] == ("inverted"@, JsonV::Bool(d.inverted)));
    assert(es[2] == ("range"@, JsonV::Int(d.range as i64)));
    assert(es[3] == ("bookmark"@, JsonV::Int(d.bookmark as i64)));
    assert(es[4] == ("lastPosition"@, JsonV::Int(d.last_position)));
    assert(es[5] == ("graphDuration"@, JsonV::Int(d.graph_duration as i64)));
    assert(es[6] == ("speedRatio"@, d.speed_ratio));
    assert(es[7] == ("injectionSpeed"@, JsonV::Int(d.injection_speed as i64)));
    assert(es[8] == ("injectionBias"@, d.injection_bias));
    assert(es[9] == ("scriptingMode"@, JsonV::Int(d.scripting_mode as i64)));
    assert(es[10] == ("simulatorPresets"@, JsonV::Arr(presets_json(d.simulator_presets))));
    assert(es[11] == ("activeSimulator"@, JsonV::Int(d.active_simulator as i64)));
    assert(es[12] == ("reductionTolerance"@, d.reduction_tolerance));
    assert(es[13] == ("reductionStretch"@, d.reduction_stretch));
    assert(es[14] == ("clips"@, JsonV::Arr(d.clips)));
    assert(es[15] == ("actions"@, JsonV::Arr(points_json(d.actions))));
    assert(es[16] == ("rawActions"@, JsonV::Arr(points_json(d.raw_actions))));
    assert(es[17] == ("metadata"@, json_of_metadata(d.metadata)));
    lemma_presets_json_wf(d.simulator_presets);
    lemma_points_json_wf(d.actions);
    lemma_points_json_wf(d.raw_actions);
    lemma_metadata_json_wf(d.metadata);
    assert(json_wf(es[0].1));
    assert(json_wf(es[1].1));
    assert(json_wf(es[2].1));
    assert(json_wf(es[3].1));
    assert(json_wf(es[4].1));
    assert(json_wf(es[5].1));
    assert(json_wf(es[6].1));
    assert(json_wf(es[7].1));
    assert(json_wf(es[8].1));
    assert(json_wf(es[9].1));
    assert(json_wf(es[10].1));
    assert(json_wf(es[11].1));
    assert(json_wf(es[12].1));
    assert(json_wf(es[13].1));
    assert(json_wf(es[14].1));
    assert(json_wf(es[15].1));
    assert(json_wf(es[16].1));
    assert(json_wf(es[17].1));
    assert(forall|i: int| 0 <= i < es.len() ==> json_wf(#[trigger] es[i].1));
    assert(forall|i: int, k: int| 0 <= i < k < es.len() ==> (#[trigger] es[i].0) != (#[trigger] es[k].0));
}


// ------------------------------------------------------------------
// Parsing and rendering whole documents as text.
// ------------------------------------------------------------------

/// Parses funscript JSON text into a document: strict on unknown keys,
/// defaulting on absent ones. Returns a `JsonError` exactly when the text is
/// not valid JSON or the tree breaks the schema; a parsed document is always
/// well-formed.
pub fn parse_script(text: &str) -> (r: Result<FScript, FunscriptError>)
    ensures
        match r {
            Ok(d) => crate::json::json_of_text(text@) is Some && doc_of_json(
                crate::json::json_of_text(text@).unwrap(),
            ) == Some(d@) && fscript_wf(d@),
            Err(e) => (e matches FunscriptError::JsonError(_)) && (crate::json::json_of_text(
                text@,
            ) is None || doc_of_json(crate::json::json_of_text(text@).unwrap()) is None),
        },
{
    match crate::json::json_from_text(text) {
        Ok(j) => match doc_from_json(&j) {
            Ok(d) => Ok(d),
            Err(m) => Err(FunscriptError::JsonError(m)),
        },
        Err(m) => Err(FunscriptError::JsonError(m)),
    }
}

/// Renders a document as pretty-printed JSON text. For a well-formed
/// document the text parses back to exactly the tree the document
/// serializes to, which `lemma_doc_round_trip` maps back to the document.
pub fn render_script(d: &FScript) -> (r: String)
    ensures
        fscript_wf(d@) ==> crate::json::json_of_text(r@) == Some(json_of_doc(d@)),
{
    let j = doc_to_json(d);
    proof {
        if fscript_wf(d@) {
            lemma_doc_json_wf(d@);
        }
    }
    crate::json::text_from_json(&j)
}

/// Everything of a save apart from the filesystem write: the destination
/// must end in `.funscript`, checked before any text is produced, and the
/// rendered text is returned for the caller to write. Returns
/// `ExtensionError` exactly when the extension is wrong.
pub fn prepare_save(path: &str, script: &FScript) -> (r: Result<String, FunscriptError>)
    ensures
        match r {
            Ok(text) => crate::doc::funscript_path(path@) && (fscript_wf(script@)
                ==> crate::json::json_of_text(text@) == Some(json_of_doc(script@))),
            Err(e) => !crate::doc::funscript_path(path@) && (e matches
                FunscriptError::ExtensionError(_)),
        },
{
    if !crate::doc::has_funscript_extension(path) {
        return Err(FunscriptError::ExtensionError("invalid file extension".to_owned()));
    }
    Ok(render_script(script))
}

// ------------------------------------------------------------------
// Laws of the strict schema.
// ------------------------------------------------------------------

proof fn lemma_doc_fold_unknown(es: Seq<(Seq<char>, JsonV)>, i: int, j: int, acc: FScriptV)
    requires
        0 <= j <= i < es.len(),
        !doc_key_recognized(es[i].0),
    ensures
        doc_fold(es, j, acc) is None,
    decreases i - j,
{
    if j == i {
        assert(doc_field(acc, es[i].0, es[i].1) is None);
    } else {
        match doc_field(acc, es[j].0, es[j].1) {
            Some(a2) => lemma_doc_fold_unknown(es, i, j + 1, a2),
            None => {},
        }
    }
}

/// Strict rejection: an object with even one unrecognized key fails to
/// parse, whatever its other entries hold.
pub proof fn lemma_unknown_key_rejected(es: Seq<(Seq<char>, JsonV)>, i: int)
    requires
        0 <= i < es.len(),
        !doc_key_recognized(es[i].0),
    ensures
        doc_of_json(JsonV::Obj(es)) is None,
{
    lemma_doc_fold_unknown(es, i, 0, default_fscript_v());
}

/// Default fill: the empty object parses to the all-defaults document.
pub proof fn lemma_empty_object_defaults()
    ensures
        doc_of_json(JsonV::Obj(Seq::empty())) == Some(default_fscript_v()),
{
    assert(doc_fold(Seq::empty(), 0, default_fscript_v()) == Some(default_fscript_v()));
}

} // verus!


