use rosu_pp_js::args::beatmap::{BeatmapAttributesArgs, BeatmapContent, BuilderStep};
use rosu_pp_js::args::performance::{
    effective_generator, effective_generators, JsHitResultGenerator, JsHitResultPriority,
    MapOrAttrs, MapOrAttrsError, PerformanceArgs, PerformanceArgsError, PerformanceStep,
};
use rosu_pp_js::attributes::beatmap::JsBeatmapAttributesBuilder;

#[test]
fn content_from_str_is_utf8_bytes() {
    let content = BeatmapContent::from_str("osu file format v14");
    assert_eq!(content.bytes, b"osu file format v14".to_vec());
    let content = BeatmapContent::from_string(String::from("é★"));
    assert_eq!(content.bytes, vec![0xC3, 0xA9, 0xE2, 0x98, 0x85]);
    assert_eq!(String::from_utf8(content.bytes).unwrap(), "é★");
}

#[test]
fn content_from_bytes_is_kept() {
    let content = BeatmapContent::from_bytes(vec![0, 255, 17]);
    assert_eq!(content.bytes, vec![0, 255, 17]);
    assert!(BeatmapContent::from_str("").bytes.is_empty());
}

#[test]
fn priority_codes() {
    assert_eq!(JsHitResultPriority::deserialize(Some(0)), Ok(JsHitResultPriority::BestCase));
    assert_eq!(JsHitResultPriority::deserialize(Some(1)), Ok(JsHitResultPriority::WorstCase));
    assert_eq!(
        JsHitResultPriority::deserialize(Some(2)),
        Err(PerformanceArgsError::InvalidHitResultPriority)
    );
    assert_eq!(
        JsHitResultPriority::deserialize(None),
        Err(PerformanceArgsError::InvalidHitResultPriority)
    );
    assert_eq!(
        PerformanceArgsError::InvalidHitResultPriority.message(),
        "invalid HitResultPriority"
    );
    assert_eq!(JsHitResultPriority::default_priority(), JsHitResultPriority::BestCase);
}

#[test]
fn priority_code_round_trips() {
    for p in [JsHitResultPriority::BestCase, JsHitResultPriority::WorstCase] {
        assert_eq!(JsHitResultPriority::deserialize(Some(p.code())), Ok(p));
    }
    assert_eq!(JsHitResultPriority::WorstCase.code(), 1);
}

#[test]
fn generator_codes() {
    assert_eq!(JsHitResultGenerator::from_code(0), Some(JsHitResultGenerator::Fast));
    assert_eq!(JsHitResultGenerator::from_code(1), Some(JsHitResultGenerator::Closest));
    assert_eq!(JsHitResultGenerator::from_code(7), None);
    for g in [JsHitResultGenerator::Fast, JsHitResultGenerator::Closest] {
        assert_eq!(JsHitResultGenerator::from_code(g.code()), Some(g));
    }
}

#[test]
fn generator_list_null_is_no_generators() {
    assert_eq!(JsHitResultGenerator::deserialize(None), Ok([None, None, None, None]));
}

#[test]
fn generator_list_is_read_entry_by_entry() {
    let gens = JsHitResultGenerator::deserialize(Some(vec![Some(1), None, Some(0), Some(1)]));
    assert_eq!(
        gens,
        Ok([
            Some(JsHitResultGenerator::Closest),
            None,
            Some(JsHitResultGenerator::Fast),
            Some(JsHitResultGenerator::Closest),
        ])
    );
}

#[test]
fn generator_list_round_trips() {
    let gens = [None, Some(JsHitResultGenerator::Closest), Some(JsHitResultGenerator::Fast), None];
    let codes: Vec<Option<u8>> = gens.iter().map(|g| g.map(|g| g.code())).collect();
    assert_eq!(JsHitResultGenerator::deserialize(Some(codes)), Ok(gens));
}

#[test]
fn generator_list_errors() {
    let err = Err(PerformanceArgsError::InvalidHitResultGenerators);
    assert_eq!(JsHitResultGenerator::deserialize(Some(vec![Some(0), Some(1), None])), err);
    assert_eq!(JsHitResultGenerator::deserialize(Some(vec![None; 5])), err);
    assert_eq!(JsHitResultGenerator::deserialize(Some(vec![])), err);
    assert_eq!(JsHitResultGenerator::deserialize(Some(vec![None, None, None, Some(2)])), err);
    assert_eq!(
        PerformanceArgsError::InvalidHitResultGenerators.message(),
        "invalid hitresult generators, expected list of four optional generators"
    );
}

#[test]
fn missing_generators_are_fast() {
    assert_eq!(effective_generator(None), JsHitResultGenerator::Fast);
    assert_eq!(effective_generator(Some(JsHitResultGenerator::Closest)), JsHitResultGenerator::Closest);
    let gens = [None, Some(JsHitResultGenerator::Closest), None, Some(JsHitResultGenerator::Fast)];
    assert_eq!(
        effective_generators(&gens),
        [
            JsHitResultGenerator::Fast,
            JsHitResultGenerator::Closest,
            JsHitResultGenerator::Fast,
            JsHitResultGenerator::Fast,
        ]
    );
}

#[test]
fn default_performance_args_make_three_steps() {
    let args: PerformanceArgs<Vec<u8>> = PerformanceArgs::default();
    assert!(args.mods.is_empty());
    assert_eq!(args.hitresult_priority, JsHitResultPriority::BestCase);
    assert_eq!(args.hitresult_generators, [None, None, None, None]);
    let steps = args.apply();
    assert_eq!(steps.len(), 3);
    assert!(matches!(steps[0], PerformanceStep::HitResultGenerator(
        [JsHitResultGenerator::Fast, JsHitResultGenerator::Fast, JsHitResultGenerator::Fast, JsHitResultGenerator::Fast]
    )));
    assert!(matches!(steps[1], PerformanceStep::HitResultPriority(JsHitResultPriority::BestCase)));
    match &steps[2] {
        PerformanceStep::Difficulty(d) => {
            assert!(d.mods.is_empty());
            assert_eq!(d.clock_rate, None);
            assert!(!d.fixed_ar);
        }
        other => panic!("unexpected step {other:?}"),
    }
}

#[test]
fn performance_steps_follow_the_settings_in_order() {
    let mut args: PerformanceArgs<Vec<u8>> = PerformanceArgs::default();
    args.mods = vec![8, 16];
    args.misses = Some(2);
    args.accuracy = Some(99.5f64.to_bits());
    args.n300 = Some(400);
    args.combo = Some(1200);
    args.ar = Some(9.3f32.to_bits());
    args.fixed_ar = true;
    args.lazer = Some(false);
    args.hitresult_priority = JsHitResultPriority::WorstCase;
    args.hitresult_generators = [Some(JsHitResultGenerator::Closest), None, None, None];
    let steps = args.apply();
    assert_eq!(steps.len(), 7);
    assert!(matches!(steps[0], PerformanceStep::Accuracy(bits) if f64::from_bits(bits) == 99.5));
    assert!(matches!(steps[1], PerformanceStep::Combo(1200)));
    assert!(matches!(steps[2], PerformanceStep::N300(400)));
    assert!(matches!(steps[3], PerformanceStep::Misses(2)));
    assert!(matches!(
        steps[4],
        PerformanceStep::HitResultGenerator([
            JsHitResultGenerator::Closest,
            JsHitResultGenerator::Fast,
            JsHitResultGenerator::Fast,
            JsHitResultGenerator::Fast,
        ])
    ));
    assert!(matches!(steps[5], PerformanceStep::HitResultPriority(JsHitResultPriority::WorstCase)));
    match &steps[6] {
        PerformanceStep::Difficulty(d) => {
            assert_eq!(d.mods, vec![8, 16]);
            assert_eq!(d.ar.map(f32::from_bits), Some(9.3));
            assert!(d.fixed_ar);
            assert_eq!(d.lazer, Some(false));
            assert_eq!(d.passed_objects, None);
        }
        other => panic!("unexpected step {other:?}"),
    }
    // applying does not change the arguments
    assert_eq!(args.mods, vec![8, 16]);
}

#[test]
fn every_score_setting_makes_one_step() {
    let mut args: PerformanceArgs<()> = PerformanceArgs::default();
    args.accuracy = Some(1);
    args.combo = Some(2);
    args.large_tick_hits = Some(3);
    args.small_tick_hits = Some(4);
    args.slider_end_hits = Some(5);
    args.n_geki = Some(6);
    args.n_katu = Some(7);
    args.n300 = Some(8);
    args.n100 = Some(9);
    args.n50 = Some(10);
    args.misses = Some(11);
    args.legacy_total_score = Some(12);
    let steps = args.score_steps();
    assert_eq!(steps.len(), 12);
    assert!(matches!(steps[2], PerformanceStep::LargeTickHits(3)));
    assert!(matches!(steps[3], PerformanceStep::SmallTickHits(4)));
    assert!(matches!(steps[4], PerformanceStep::SliderEndHits(5)));
    assert!(matches!(steps[5], PerformanceStep::NGeki(6)));
    assert!(matches!(steps[6], PerformanceStep::NKatu(7)));
    assert!(matches!(steps[8], PerformanceStep::N100(9)));
    assert!(matches!(steps[9], PerformanceStep::N50(10)));
    assert!(matches!(steps[11], PerformanceStep::LegacyTotalScore(12)));
    assert_eq!(args.apply().len(), 15);
}

type Args = BeatmapAttributesArgs<u32, u8, &'static str>;

#[test]
fn default_builder_steps_are_only_mods() {
    let args = Args::default();
    assert_eq!(args.mods, 0);
    assert!(!args.fixed_cs && args.map.is_none());
    let steps = args.into_builder();
    assert_eq!(steps.len(), 1);
    assert!(matches!(steps[0], BuilderStep::Mods(0)));
}

#[test]
fn map_comes_before_explicit_settings() {
    let mut args = Args::default();
    args.mods = 64;
    args.od = Some(8.0f32.to_bits());
    args.ar = Some(10.5f32.to_bits());
    args.fixed_ar = true;
    args.mode = Some(3);
    args.is_convert = true;
    args.map = Some("map");
    args.clock_rate = Some(1.25f64.to_bits());
    let steps = args.into_builder();
    assert_eq!(steps.len(), 6);
    assert!(matches!(steps[0], BuilderStep::Mods(64)));
    assert!(matches!(steps[1], BuilderStep::Beatmap("map")));
    assert!(matches!(steps[2], BuilderStep::Mode(3, true)));
    assert!(matches!(steps[3], BuilderStep::ClockRate(c) if f64::from_bits(c) == 1.25));
    assert!(matches!(steps[4], BuilderStep::Ar(v, true) if f32::from_bits(v) == 10.5));
    assert!(matches!(steps[5], BuilderStep::Od(v, false) if f32::from_bits(v) == 8.0));
}

#[test]
fn builder_setters_and_build() {
    let mut builder: JsBeatmapAttributesBuilder<u32, u8, &'static str> =
        JsBeatmapAttributesBuilder::new(None);
    assert_eq!(builder.args().mods, 0);
    builder.set_mods(Some(16));
    builder.set_cs(Some(4.0f32.to_bits()));
    builder.set_fixed_cs(Some(true));
    builder.set_hp(Some(2.0f32.to_bits()));
    builder.set_fixed_hp(None);
    builder.set_mode(Some(1));
    builder.set_is_convert(None);
    builder.set_map(Some("m"));
    builder.set_map(None);
    assert_eq!(builder.args().mods, 16);
    assert!(builder.args().fixed_cs);
    assert!(!builder.args().fixed_hp);
    assert!(builder.args().map.is_none());
    builder.set_mods(None);
    assert_eq!(builder.args().mods, 0);
    let steps = builder.build();
    assert_eq!(steps.len(), 4);
    assert!(matches!(steps[1], BuilderStep::Mode(1, false)));
    assert!(matches!(steps[2], BuilderStep::Cs(v, true) if f32::from_bits(v) == 4.0));
    assert!(matches!(steps[3], BuilderStep::Hp(v, false) if f32::from_bits(v) == 2.0));
}

#[test]
fn builder_from_given_args() {
    let mut args = Args::default();
    args.od = Some(5);
    args.fixed_od = true;
    let mut builder = JsBeatmapAttributesBuilder::new(Some(args));
    assert_eq!(builder.args().od, Some(5));
    builder.set_fixed_od(Some(false));
    builder.set_od(None);
    builder.set_ar(Some(7));
    builder.set_fixed_ar(Some(true));
    builder.set_clock_rate(Some(9));
    let steps = builder.build();
    assert_eq!(steps.len(), 3);
    assert!(matches!(steps[1], BuilderStep::ClockRate(9)));
    assert!(matches!(steps[2], BuilderStep::Ar(7, true)));
}

type Mo = MapOrAttrs<&'static str, u32>;

#[test]
fn map_or_attrs_prefers_performance_attributes() {
    let res = Mo::from_value::<String>(Some(Ok(1)), Some(Ok(2)), Some("map"));
    assert!(matches!(res, Ok(MapOrAttrs::Attrs(1))));
    let res = Mo::from_value::<String>(None, Some(Ok(2)), Some("map"));
    assert!(matches!(res, Ok(MapOrAttrs::Attrs(2))));
    let res = Mo::from_value::<String>(None, None, Some("map"));
    assert!(matches!(res, Ok(MapOrAttrs::Beatmap("map"))));
}

#[test]
fn map_or_attrs_errors() {
    let res = Mo::from_value(Some(Err("bad")), Some(Ok(2)), Some("map"));
    assert!(matches!(res, Err(MapOrAttrsError::Conversion("bad"))));
    let res = Mo::from_value(None, Some(Err("worse")), Some("map"));
    assert!(matches!(res, Err(MapOrAttrsError::Conversion("worse"))));
    let res = Mo::from_value::<&str>(None, None, None);
    match res {
        Err(e) => assert_eq!(
            e.message(),
            Some("Expected either previously calculated attributes or a beatmap")
        ),
        Ok(v) => panic!("unexpected {v:?}"),
    }
    assert_eq!(MapOrAttrsError::Conversion(3).message(), None);
}

#[test]
fn applying_twice_lists_the_same_steps() {
    let mut args: PerformanceArgs<Vec<u8>> = PerformanceArgs::default();
    args.mods = vec![1];
    args.n100 = Some(3);
    args.hitresult_priority = JsHitResultPriority::WorstCase;
    let first = format!("{:?}", args.apply());
    let second = format!("{:?}", args.apply());
    assert_eq!(first, second);
    assert!(first.ends_with("Difficulty(DifficultyArgs { mods: [1], clock_rate: None, ar: None, fixed_ar: false, cs: None, fixed_cs: false, hp: None, fixed_hp: false, od: None, fixed_od: false, passed_objects: None, hardrock_offsets: None, lazer: None })]"));
}

#[test]
fn content_from_string_decodes_back() {
    for text in ["abc", "", "ÄÖÜ ♪ 譜面"] {
        let content = BeatmapContent::from_string(String::from(text));
        assert_eq!(content.bytes, text.as_bytes().to_vec());
        assert_eq!(String::from_utf8(content.bytes).unwrap(), text);
    }
}
