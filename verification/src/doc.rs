//! The funscript document model: action points, simulator presets, editor
//! metadata and the root document, together with their documented defaults,
//! their mathematical views, and indexed access to action points.

use vstd::prelude::*;

use crate::json::{Json, JsonV, json_wf};

verus! {

/// One sample of the action sequence: the device position `pos` at the
/// timestamp `at`, in milliseconds.
#[derive(Debug, Clone, Copy, PartialEq, Eq, Structural)]
pub struct FSPoint {
    pub pos: i32,
    pub at: i32,
}

/// A named configuration of a pressure simulator. The `rotation`, `length`
/// and `width` fields are free-form JSON numbers, kept verbatim as the
/// number node they were parsed from.
#[derive(Debug, PartialEq)]
pub struct SimulatorPresets {
    pub name: String,
    pub full_range: bool,
    pub direction: i32,
    pub rotation: Json,
    pub length: Json,
    pub width: Json,
    pub offset: String,
    pub color: String,
}

/// Editor metadata, as written by OpenFunscripter.
#[derive(Debug, PartialEq)]
pub struct OFSMetadata {
    pub bookmarks: Vec<i32>,
    pub chapters: Vec<String>,
    pub creator: String,
    pub description: String,
    pub duration: i32,
    pub license: String,
    pub notes: String,
    pub performers: Vec<String>,
    pub script_url: String,
    pub tags: Vec<String>,
    pub title: String,
    pub ofs_type: String,
    pub video_url: String,
}

/// A funscript document. The four ratio/tolerance fields are free-form JSON
/// numbers kept verbatim; `clips` holds opaque JSON values that survive a
/// load/save round trip unchanged.
#[derive(Debug, PartialEq)]
pub struct FScript {
    pub version: String,
    pub inverted: bool,
    pub range: i32,
    pub bookmark: i32,
    pub last_position: i64,
    pub graph_duration: i32,
    pub speed_ratio: Json,
    pub injection_speed: i32,
    pub injection_bias: Json,
    pub scripting_mode: i32,
    pub simulator_presets: Vec<SimulatorPresets>,
    pub active_simulator: i32,
    pub reduction_tolerance: Json,
    pub reduction_stretch: Json,
    pub clips: Vec<Json>,
    pub actions: Vec<FSPoint>,
    pub raw_actions: Vec<FSPoint>,
    pub metadata: OFSMetadata,
}

#[verifier::ext_equal]
pub ghost struct PresetV {
    pub name: Seq<char>,
    pub full_range: bool,
    pub direction: i32,
    pub rotation: JsonV,
    pub length: JsonV,
    pub width: JsonV,
    pub offset: Seq<char>,
    pub color: Seq<char>,
}

#[verifier::ext_equal]
pub ghost struct MetadataV {
    pub bookmarks: Seq<i32>,
    pub chapters: Seq<Seq<char>>,
    pub creator: Seq<char>,
    pub description: Seq<char>,
    pub duration: i32,
    pub license: Seq<char>,
    pub notes: Seq<char>,
    pub performers: Seq<Seq<char>>,
    pub script_url: Seq<char>,
    pub tags: Seq<Seq<char>>,
    pub title: Seq<char>,
    pub ofs_type: Seq<char>,
    pub video_url: Seq<char>,
}

#[verifier::ext_equal]
pub ghost struct FScriptV {
    pub version: Seq<char>,
    pub inverted: bool,
    pub range: i32,
    pub bookmark: i32,
    pub last_position: i64,
    pub graph_duration: i32,
    pub speed_ratio: JsonV,
    pub injection_speed: i32,
    pub injection_bias: JsonV,
    pub scripting_mode: i32,
    pub simulator_presets: Seq<PresetV>,
    pub active_simulator: i32,
    pub reduction_tolerance: JsonV,
    pub reduction_stretch: JsonV,
    pub clips: Seq<JsonV>,
    pub actions: Seq<FSPoint>,
    pub raw_actions: Seq<FSPoint>,
    pub metadata: MetadataV,
}

impl DeepView for SimulatorPresets {
    type V = PresetV;

    open spec fn deep_view(&self) -> PresetV {
        PresetV {
            name: self.name@,
            full_range: self.full_range,
            direction: self.direction,
            rotation: self.rotation@,
            length: self.length@,
            width: self.width@,
            offset: self.offset@,
            color: self.color@,
        }
    }
}

impl View for SimulatorPresets {
    type V = PresetV;

    open spec fn view(&self) -> PresetV {
        self.deep_view()
    }
}

impl View for OFSMetadata {
    type V = MetadataV;

    open spec fn view(&self) -> MetadataV {
        MetadataV {
            bookmarks: self.bookmarks@,
            chapters: self.chapters.deep_view(),
            creator: self.creator@,
            description: self.description@,
            duration: self.duration,
            license: self.license@,
            notes: self.notes@,
            performers: self.performers.deep_view(),
            script_url: self.script_url@,
            tags: self.tags.deep_view(),
            title: self.title@,
            ofs_type: self.ofs_type@,
            video_url: self.video_url@,
        }
    }
}

impl View for FScript {
    type V = FScriptV;

    open spec fn view(&self) -> FScriptV {
        FScriptV {
            version: self.version@,
            inverted: self.inverted,
            range: self.range,
            bookmark: self.bookmark,
            last_position: self.last_position,
            graph_duration: self.graph_duration,
            speed_ratio: self.speed_ratio@,
            injection_speed: self.injection_speed,
            injection_bias: self.injection_bias@,
            scripting_mode: self.scripting_mode,
            simulator_presets: self.simulator_presets.deep_view(),
            active_simulator: self.active_simulator,
            reduction_tolerance: self.reduction_tolerance@,
            reduction_stretch: self.reduction_stretch@,
            clips: self.clips.deep_view(),
            actions: self.actions@,
            raw_actions: self.raw_actions@,
            metadata: self.metadata@,
        }
    }
}

/// A JSON node that denotes a number.
pub open spec fn is_num(v: JsonV) -> bool {
    ||| v matches JsonV::Int(_)
    ||| v matches JsonV::UInt(_)
    ||| v matches JsonV::Flt(_, _)
}

/// The free-form number fields hold well-formed number nodes and the opaque
/// clip values are well-formed trees, so the document serializes to a text
/// that parses back to the same values.
pub open spec fn fscript_wf(d: FScriptV) -> bool {
    &&& is_num(d.speed_ratio) && json_wf(d.speed_ratio)
    &&& is_num(d.injection_bias) && json_wf(d.injection_bias)
    &&& is_num(d.reduction_tolerance) && json_wf(d.reduction_tolerance)
    &&& is_num(d.reduction_stretch) && json_wf(d.reduction_stretch)
    &&& forall|i: int| 0 <= i < d.simulator_presets.len() ==> preset_wf(#[trigger] d.simulator_presets[i])
    &&& forall|i: int| 0 <= i < d.clips.len() ==> json_wf(#[trigger] d.clips[i])
}

pub open spec fn preset_wf(p: PresetV) -> bool {
    &&& is_num(p.rotation) && json_wf(p.rotation)
    &&& is_num(p.length) && json_wf(p.length)
    &&& is_num(p.width) && json_wf(p.width)
}

pub open spec fn default_point_v() -> FSPoint {
    FSPoint { pos: 0i32, at: 0i32 }
}

pub open spec fn default_preset_v() -> PresetV {
    PresetV {
        name: Seq::empty(),
        full_range: false,
        direction: 0i32,
        rotation: JsonV::Int(0i64),
        length: JsonV::Int(0i64),
        width: JsonV::Int(0i64),
        offset: Seq::empty(),
        color: Seq::empty(),
    }
}

pub open spec fn default_metadata_v() -> MetadataV {
    MetadataV {
        bookmarks: Seq::empty(),
        chapters: Seq::empty(),
        creator: Seq::empty(),
        description: Seq::empty(),
        duration: -1i32,
        license: Seq::empty(),
        notes: Seq::empty(),
        performers: Seq::empty(),
        script_url: Seq::empty(),
        tags: Seq::empty(),
        title: Seq::empty(),
        ofs_type: Seq::empty(),
        video_url: Seq::empty(),
    }
}

pub open spec fn default_fscript_v() -> FScriptV {
    FScriptV {
        version: Seq::empty(),
        inverted: false,
        range: -1i32,
        bookmark: -1i32,
        last_position: -1i64,
        graph_duration: -1i32,
        speed_ratio: JsonV::Int(-1i64),
        injection_speed: -1i32,
        injection_bias: JsonV::Int(-1i64),
        scripting_mode: -1i32,
        simulator_presets: Seq::empty(),
        active_simulator: -1i32,
        reduction_tolerance: JsonV::Int(-1i64),
        reduction_stretch: JsonV::Int(-1i64),
        clips: Seq::empty(),
        actions: Seq::empty(),
        raw_actions: Seq::empty(),
        metadata: default_metadata_v(),
    }
}

impl Default for OFSMetadata {
    /// The metadata an absent `metadata` key materializes as.
    fn default() -> (m: OFSMetadata)
        ensures
            m@ == default_metadata_v(),
    {
        let m = OFSMetadata {
            bookmarks: Vec::new(),
            chapters: Vec::new(),
            creator: String::new(),
            description: String::new(),
            duration: -1,
            license: String::new(),
            notes: String::new(),
            performers: Vec::new(),
            script_url: String::new(),
            tags: Vec::new(),
            title: String::new(),
            ofs_type: String::new(),
            video_url: String::new(),
        };
        proof {
            assert(m@ =~= default_metadata_v());
        }
        m
    }
}

impl Default for SimulatorPresets {
    /// The preset whose fields fill in for keys absent from a preset object.
    fn default() -> (p: SimulatorPresets)
        ensures
            p@ == default_preset_v(),
    {
        let p = SimulatorPresets {
            name: String::new(),
            full_range: false,
            direction: 0,
            rotation: Json::Int(0),
            length: Json::Int(0),
            width: Json::Int(0),
            offset: String::new(),
            color: String::new(),
        };
        proof {
            assert(p@ =~= default_preset_v());
        }
        p
    }
}

impl Default for FSPoint {
    fn default() -> (p: FSPoint)
        ensures
            p == default_point_v(),
    {
        FSPoint { pos: 0, at: 0 }
    }
}

impl Default for FScript {
    /// The document that `{}` parses to: every field at its documented
    /// default.
    fn default() -> (d: FScript)
        ensures
            d@ == default_fscript_v(),
            fscript_wf(d@),
    {
        let d = FScript {
            version: String::new(),
            inverted: false,
            range: -1,
            bookmark: -1,
            last_position: -1,
            graph_duration: -1,
            speed_ratio: Json::Int(-1),
            injection_speed: -1,
            injection_bias: Json::Int(-1),
            scripting_mode: -1,
            simulator_presets: Vec::new(),
            active_simulator: -1,
            reduction_tolerance: Json::Int(-1),
            reduction_stretch: Json::Int(-1),
            clips: Vec::new(),
            actions: Vec::new(),
            raw_actions: Vec::new(),
            metadata: OFSMetadata::default(),
        };
        proof {
            assert(d@ =~= default_fscript_v());
        }
        d
    }
}

/// The errors of the funscript operations.
#[derive(Debug, PartialEq)]
pub enum FunscriptError {
    /// A filesystem failure while loading or saving, with its description.
    FileReadError(String),
    /// Malformed JSON text or a document that breaks the schema, with a
    /// description of the offence.
    JsonError(String),
    /// A save path that does not end in `.funscript`.
    ExtensionError(String),
    /// A point access out of range: the operation's name and the requested
    /// index.
    PointError(String, usize),
}

/// Reads the action point at `idx`, or reports the out-of-range index.
pub fn get_pt(script: &FScript, idx: usize) -> (r: Result<FSPoint, FunscriptError>)
    ensures
        match r {
            Ok(p) => idx < script@.actions.len() && p == script@.actions[idx as int],
            Err(e) => idx >= script@.actions.len() && (e matches FunscriptError::PointError(
                op,
                i,
            ) && op@ == "get"@ && i == idx),
        },
{
    if idx >= script.actions.len() {
        return Err(FunscriptError::PointError("get".to_owned(), idx));
    }
    Ok(script.actions[idx])
}

/// Writes the action point at `idx`, or reports the out-of-range index and
/// leaves the document unchanged. Nothing besides `actions[idx]` moves; in
/// particular `raw_actions` is untouched.
pub fn set_pt(script: &mut FScript, idx: usize, pt: FSPoint) -> (r: Result<(), FunscriptError>)
    ensures
        match r {
            Ok(_) => idx < old(script)@.actions.len() && final(script)@ == (FScriptV {
                actions: old(script)@.actions.update(idx as int, pt),
                ..old(script)@
            }),
            Err(e) => idx >= old(script)@.actions.len() && *final(script) == *old(script) && (
            e matches FunscriptError::PointError(op, i) && op@ == "set"@ && i == idx),
        },
{
    if idx >= script.actions.len() {
        return Err(FunscriptError::PointError("set".to_owned(), idx));
    }
    script.actions[idx] = pt;
    proof {
        assert(script@ =~= (FScriptV {
            actions: old(script)@.actions.update(idx as int, pt),
            ..old(script)@
        }));
    }
    Ok(())
}

/// The path ends with the literal extension `.funscript`.
pub open spec fn funscript_path(p: Seq<char>) -> bool {
    p.len() >= 10 && p.subrange(p.len() - 10, p.len() as int) == ".funscript"@
}

/// Decides whether a save path carries the mandatory `.funscript` extension.
pub fn has_funscript_extension(path: &str) -> (r: bool)
    ensures
        r == funscript_path(path@),
{
    let n = path.unicode_len();
    if n < 10 {
        return false;
    }
    let tail = path.substring_char(n - 10, n);
    tail.to_owned() == String::from_str(".funscript")
}

} // verus!
