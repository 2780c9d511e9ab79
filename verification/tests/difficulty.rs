use rosu_pp_js::args::difficulty::{DifficultyArgs, DifficultyStep};

fn unset(mods: u32) -> DifficultyArgs<u32> {
    DifficultyArgs {
        mods,
        clock_rate: None,
        ar: None,
        fixed_ar: false,
        cs: None,
        fixed_cs: false,
        hp: None,
        fixed_hp: false,
        od: None,
        fixed_od: false,
        passed_objects: None,
        hardrock_offsets: None,
        lazer: None,
    }
}

#[test]
fn unset_difficulty_is_only_mods() {
    let steps = unset(72).to_difficulty();
    assert_eq!(steps.len(), 1);
    assert!(matches!(steps[0], DifficultyStep::Mods(72)));
}

#[test]
fn difficulty_settings_in_order() {
    let mut args = unset(0);
    args.lazer = Some(true);
    args.hp = Some(6.5f32.to_bits());
    args.fixed_hp = true;
    args.clock_rate = Some(1.5f64.to_bits());
    args.passed_objects = Some(100);
    args.cs = Some(4.0f32.to_bits());
    args.hardrock_offsets = Some(false);
    let steps = args.to_difficulty();
    assert_eq!(steps.len(), 7);
    assert!(matches!(steps[0], DifficultyStep::Mods(0)));
    assert!(matches!(steps[1], DifficultyStep::ClockRate(c) if f64::from_bits(c) == 1.5));
    assert!(matches!(steps[2], DifficultyStep::Cs(v, false) if f32::from_bits(v) == 4.0));
    assert!(matches!(steps[3], DifficultyStep::Hp(v, true) if f32::from_bits(v) == 6.5));
    assert!(matches!(steps[4], DifficultyStep::PassedObjects(100)));
    assert!(matches!(steps[5], DifficultyStep::HardrockOffsets(false)));
    assert!(matches!(steps[6], DifficultyStep::Lazer(true)));
}

#[test]
fn difficulty_ar_and_od_keep_their_flags() {
    let mut args = unset(0);
    args.ar = Some(1);
    args.fixed_ar = true;
    args.od = Some(2);
    let steps = args.to_difficulty();
    assert_eq!(steps.len(), 3);
    assert!(matches!(steps[1], DifficultyStep::Ar(1, true)));
    assert!(matches!(steps[2], DifficultyStep::Od(2, false)));
}
