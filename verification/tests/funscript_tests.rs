use funscript::doc::{FSPoint, FScript, FunscriptError, get_pt, has_funscript_extension, set_pt};
use funscript::json::Json;
use funscript::schema::{parse_script, prepare_save, render_script};
use funscript::simplify::apply_rdp;

fn parse(text: &str) -> FScript {
    parse_script(text).expect("the document should parse")
}

#[test]
fn test_round_trip_default() {
    let d = FScript::default();
    let text = render_script(&d);
    let back = parse(&text);
    assert_eq!(back, FScript::default());
}

#[test]
fn test_round_trip_rich_document() {
    let text = r##"{
        "version": "1.0",
        "inverted": true,
        "range": 90,
        "lastPosition": 6388388382,
        "speedRatio": 1.5,
        "reductionTolerance": 8.0,
        "simulatorPresets": [
            {"name": "soft", "fullRange": true, "direction": 2,
             "rotation": 0.25, "length": 3.5, "width": 1.0,
             "offset": "+10", "color": "#fff"}
        ],
        "clips": [{"start": 1, "tags": ["a", "b"], "meta": null}, 7, "x"],
        "actions": [{"pos": 0, "at": 0}, {"pos": 100, "at": 500}],
        "rawActions": [{"pos": 0, "at": 0}],
        "metadata": {"duration": 2610, "creator": "me", "type": "basic",
                     "scriptUrl": "https://example.test/s", "videoUrl": "https://example.test/v"}
    }"##;
    let d = parse(text);
    assert_eq!(d.version, "1.0");
    assert!(d.inverted);
    assert_eq!(d.range, 90);
    assert_eq!(d.last_position, 6388388382);
    assert_eq!(d.simulator_presets.len(), 1);
    assert_eq!(d.simulator_presets[0].name, "soft");
    assert_eq!(d.clips.len(), 3);
    assert_eq!(d.actions, vec![FSPoint { pos: 0, at: 0 }, FSPoint { pos: 100, at: 500 }]);
    assert_eq!(d.metadata.duration, 2610);
    assert_eq!(d.metadata.creator, "me");
    assert_eq!(d.metadata.ofs_type, "basic");
    assert_eq!(d.metadata.script_url, "https://example.test/s");
    assert_eq!(d.metadata.video_url, "https://example.test/v");
    // defaults fill everything the text omitted
    assert_eq!(d.bookmark, -1);
    assert_eq!(d.metadata.title, "");
    // an edited document still round-trips, clips included
    let mut d = d;
    d.bookmark = 100000;
    let back = parse(&render_script(&d));
    assert_eq!(back.bookmark, 100000);
    assert_eq!(back, d);
}

#[test]
fn test_round_trip_keeps_float_text() {
    let d = parse(r#"{"speedRatio": 1.5, "injectionBias": -0.25}"#);
    let text = render_script(&d);
    assert!(text.contains("1.5"));
    assert!(text.contains("-0.25"));
    let back = parse(&text);
    assert_eq!(back, d);
}

#[test]
fn test_strict_field_rejection() {
    let bad = r#"{"version": "1.0", "surpriseKey": 1}"#;
    match parse_script(bad) {
        Err(FunscriptError::JsonError(_)) => {},
        other => panic!("an unknown key must fail the parse, got {:?}", other),
    }
    // the same document without the key parses
    let d = parse(r#"{"version": "1.0"}"#);
    assert_eq!(d.version, "1.0");
}

#[test]
fn test_strict_field_rejection_nested() {
    let bad = r#"{"actions": [{"pos": 1, "at": 2, "extra": 3}]}"#;
    assert!(parse_script(bad).is_err());
    let bad_md = r#"{"metadata": {"durationX": 5}}"#;
    assert!(parse_script(bad_md).is_err());
}

#[test]
fn test_wrong_type_rejected() {
    assert!(parse_script(r#"{"range": "high"}"#).is_err());
    assert!(parse_script(r#"{"range": 2147483648}"#).is_err());
    assert!(parse_script(r#"{"range": 1.5}"#).is_err());
    assert!(parse_script(r#"{"version": 3}"#).is_err());
    assert!(parse_script(r#"{"actions": 7}"#).is_err());
}

#[test]
fn test_syntax_error_rejected() {
    match parse_script("this is not json") {
        Err(FunscriptError::JsonError(_)) => {},
        other => panic!("malformed JSON must fail the parse, got {:?}", other),
    }
}

#[test]
fn test_default_fill_empty_object() {
    let d = parse("{}");
    assert_eq!(d, FScript::default());
    assert_eq!(d.range, -1);
    assert_eq!(d.bookmark, -1);
    assert_eq!(d.last_position, -1);
    assert_eq!(d.speed_ratio, Json::Int(-1));
    assert!(d.actions.is_empty());
    assert!(d.clips.is_empty());
    assert_eq!(d.metadata.duration, -1);
    assert_eq!(d.metadata.creator, "");
}

#[test]
fn test_extension_guard() {
    assert!(has_funscript_extension("a.funscript"));
    assert!(has_funscript_extension("./dir/some.thing.funscript"));
    assert!(!has_funscript_extension("a.txt"));
    assert!(!has_funscript_extension("a.Funscript"));
    assert!(!has_funscript_extension("funscript"));
    assert!(!has_funscript_extension(""));
}

#[test]
fn test_prepare_save_extension() {
    let d = FScript::default();
    match prepare_save("out.txt", &d) {
        Err(FunscriptError::ExtensionError(_)) => {},
        other => panic!("a wrong extension must be rejected, got {:?}", other),
    }
    let text = prepare_save("out.funscript", &d).expect("a .funscript path is accepted");
    assert_eq!(parse(&text), d);
}

#[test]
fn test_get_pt_bounds() {
    let mut d = FScript::default();
    d.actions.push(FSPoint { pos: 10, at: 218703 });
    let p = get_pt(&d, 0).expect("index 0 of a one-point list");
    assert_eq!(p.at, 218703);
    match get_pt(&d, 1) {
        Err(FunscriptError::PointError(op, idx)) => {
            assert_eq!(op, "get");
            assert_eq!(idx, 1);
        },
        other => panic!("index 1 of a one-point list must fail, got {:?}", other),
    }
}

#[test]
fn test_set_pt_visible() {
    let mut d = FScript::default();
    d.actions.push(FSPoint { pos: 10, at: 218703 });
    let mut p = get_pt(&mut d, 0).unwrap();
    p.at = 12345678;
    set_pt(&mut d, 0, p).unwrap();
    assert_eq!(d.actions[0].at, 12345678);
    assert_eq!(d.actions[0].pos, 10);
    match set_pt(&mut d, 5, p) {
        Err(FunscriptError::PointError(op, idx)) => {
            assert_eq!(op, "set");
            assert_eq!(idx, 5);
        },
        other => panic!("an out-of-range write must fail, got {:?}", other),
    }
}

fn pts(v: &[(i32, i32)]) -> Vec<FSPoint> {
    v.iter().map(|&(pos, at)| FSPoint { pos, at }).collect()
}

#[test]
fn test_simplify_collinear() {
    // the concrete scenario: three collinear points, epsilon 1/2
    let mut d = FScript::default();
    d.actions = pts(&[(0, 0), (50, 1), (100, 2)]);
    d.raw_actions = pts(&[(0, 0), (50, 1), (100, 2)]);
    apply_rdp(&mut d, 1, 2);
    assert_eq!(d.actions, pts(&[(0, 0), (100, 2)]));
    assert_eq!(d.raw_actions, pts(&[(0, 0), (50, 1), (100, 2)]));
}

#[test]
fn test_simplify_keeps_sharp_corner() {
    let mut d = FScript::default();
    d.actions = pts(&[(0, 0), (100, 50), (0, 100)]);
    apply_rdp(&mut d, 1, 2);
    assert_eq!(d.actions, pts(&[(0, 0), (100, 50), (0, 100)]));
}

#[test]
fn test_simplify_endpoints_and_raw_untouched() {
    let original = pts(&[(0, 0), (80, 10), (20, 20), (90, 30), (5, 40), (60, 50)]);
    let mut d = FScript::default();
    d.actions = original.clone();
    d.raw_actions = original.clone();
    apply_rdp(&mut d, 30, 1);
    assert!(d.actions.len() >= 2);
    assert_eq!(d.actions.first(), original.first());
    assert_eq!(d.actions.last(), original.last());
    assert_eq!(d.raw_actions, original);
}

#[test]
fn test_simplify_monotone_in_epsilon() {
    let original = pts(&[(0, 0), (80, 10), (20, 20), (90, 30), (5, 40), (60, 50), (0, 60)]);
    let mut lens: Vec<usize> = Vec::new();
    for eps in [0u16, 5, 20, 40, 100, 1000] {
        let mut d = FScript::default();
        d.actions = original.clone();
        apply_rdp(&mut d, eps, 1);
        lens.push(d.actions.len());
    }
    for w in lens.windows(2) {
        assert!(w[1] <= w[0], "a larger epsilon kept more points: {:?}", lens);
    }
}

#[test]
fn test_simplify_short_inputs() {
    let mut d = FScript::default();
    apply_rdp(&mut d, 1, 1);
    assert!(d.actions.is_empty());
    d.actions = pts(&[(42, 7)]);
    apply_rdp(&mut d, 1, 1);
    assert_eq!(d.actions, pts(&[(42, 7)]));
    d.actions = pts(&[(42, 7), (3, 9)]);
    apply_rdp(&mut d, 1000, 1);
    assert_eq!(d.actions, pts(&[(42, 7), (3, 9)]));
}

#[test]
fn test_clips_preserved_verbatim() {
    let text = r#"{"clips": [{"z": 1, "a": [true, null, 2.5]}, [], "s"]}"#;
    let d = parse(text);
    let back = parse(&render_script(&d));
    assert_eq!(back.clips, d.clips);
    assert_eq!(d.clips.len(), 3);
}

#[test]
fn test_preset_defaults_fill() {
    let d = parse(r#"{"simulatorPresets": [{}, {"name": "only"}]}"#);
    assert_eq!(d.simulator_presets.len(), 2);
    assert_eq!(d.simulator_presets[0].name, "");
    assert_eq!(d.simulator_presets[0].direction, 0);
    assert_eq!(d.simulator_presets[0].full_range, false);
    assert_eq!(d.simulator_presets[1].name, "only");
    let back = parse(&render_script(&d));
    assert_eq!(back, d);
}

#[test]
fn test_metadata_arrays() {
    let d = parse(
        r#"{"metadata": {"bookmarks": [3, -1, 7], "tags": ["a", "b"], "performers": []}}"#,
    );
    assert_eq!(d.metadata.bookmarks, vec![3, -1, 7]);
    assert_eq!(d.metadata.tags, vec!["a".to_string(), "b".to_string()]);
    assert!(d.metadata.performers.is_empty());
    let back = parse(&render_script(&d));
    assert_eq!(back, d);
}

#[test]
fn test_url_keys_are_camel_case() {
    let d = parse(r#"{"metadata": {"scriptUrl": "s", "videoUrl": "v"}}"#);
    assert_eq!(d.metadata.script_url, "s");
    assert_eq!(d.metadata.video_url, "v");
    let text = render_script(&d);
    assert!(text.contains("scriptUrl"));
    assert!(text.contains("videoUrl"));
    // the snake-case spellings are not recognized keys
    assert!(parse_script(r#"{"metadata": {"script_url": "s"}}"#).is_err());
    assert!(parse_script(r#"{"metadata": {"video_url": "v"}}"#).is_err());
}

#[test]
fn test_i64_width_enforced() {
    assert!(parse_script(r#"{"lastPosition": 18446744073709551615}"#).is_err());
    assert!(parse_script(r#"{"lastPosition": 2.5}"#).is_err());
    assert!(parse_script(r#"{"metadata": {"bookmarks": [2147483648]}}"#).is_err());
}

#[test]
fn test_large_integers() {
    let d = parse(r#"{"lastPosition": 6388388382, "clips": [18446744073709551615]}"#);
    assert_eq!(d.last_position, 6388388382);
    assert_eq!(d.clips[0], Json::UInt(18446744073709551615));
    let back = parse(&render_script(&d));
    assert_eq!(back, d);
}
