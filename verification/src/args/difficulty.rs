use vstd::prelude::*;

use crate::steps::{push_step, step_seq, step_seq_contains};
use vstd::seq_lib::lemma_seq_concat_contains_all_elements;

verus! {

/// The bit pattern of an IEEE-754 single-precision number (`f32`).
pub type F32Bits = u32;

/// The bit pattern of an IEEE-754 double-precision number (`f64`).
pub type F64Bits = u64;

/// The settings of a difficulty calculation.
///
/// Floating-point settings are held as their bit patterns.
#[derive(Debug)]
pub struct DifficultyArgs<Mods> {
    pub mods: Mods,
    pub clock_rate: Option<F64Bits>,
    pub ar: Option<F32Bits>,
    pub fixed_ar: bool,
    pub cs: Option<F32Bits>,
    pub fixed_cs: bool,
    pub hp: Option<F32Bits>,
    pub fixed_hp: bool,
    pub od: Option<F32Bits>,
    pub fixed_od: bool,
    pub passed_objects: Option<u32>,
    pub hardrock_offsets: Option<bool>,
    pub lazer: Option<bool>,
}

/// One setting of a difficulty calculation, in the order in which
/// [`DifficultyArgs::to_difficulty`] lists them.
#[derive(Debug)]
pub enum DifficultyStep<Mods> {
    Mods(Mods),
    ClockRate(F64Bits),
    /// The approach rate, and whether it is used as is.
    Ar(F32Bits, bool),
    /// The circle size, and whether it is used as is.
    Cs(F32Bits, bool),
    /// The drain rate, and whether it is used as is.
    Hp(F32Bits, bool),
    /// The overall difficulty, and whether it is used as is.
    Od(F32Bits, bool),
    PassedObjects(u32),
    HardrockOffsets(bool),
    Lazer(bool),
}

impl<Mods> DifficultyArgs<Mods> {
    /// The settings after the mods, each where it is given, in order: clock
    /// rate, approach rate, circle size, drain rate, overall difficulty (each
    /// of these four with its `fixed` flag), passed objects, hardrock offsets,
    /// lazer.
    pub open spec fn spec_setting_steps(self) -> Seq<DifficultyStep<Mods>> {
        step_seq(match self.clock_rate { Some(c) => Some(DifficultyStep::<Mods>::ClockRate(c)), None => None })
            + step_seq(match self.ar { Some(v) => Some(DifficultyStep::<Mods>::Ar(v, self.fixed_ar)), None => None })
            + step_seq(match self.cs { Some(v) => Some(DifficultyStep::<Mods>::Cs(v, self.fixed_cs)), None => None })
            + step_seq(match self.hp { Some(v) => Some(DifficultyStep::<Mods>::Hp(v, self.fixed_hp)), None => None })
            + step_seq(match self.od { Some(v) => Some(DifficultyStep::<Mods>::Od(v, self.fixed_od)), None => None })
            + step_seq(match self.passed_objects { Some(n) => Some(DifficultyStep::<Mods>::PassedObjects(n)), None => None })
            + step_seq(match self.hardrock_offsets { Some(b) => Some(DifficultyStep::<Mods>::HardrockOffsets(b)), None => None })
            + step_seq(match self.lazer { Some(b) => Some(DifficultyStep::<Mods>::Lazer(b)), None => None })
    }

    /// The settings that make up a difficulty calculation: the mods first,
    /// then each setting that is given (see
    /// [`DifficultyArgs::spec_setting_steps`]).
    pub fn to_difficulty(self) -> (steps: Vec<DifficultyStep<Mods>>)
        ensures
            steps@ == seq![DifficultyStep::<Mods>::Mods(self.mods)] + self.spec_setting_steps(),
    {
        let ghost args = self;
        let DifficultyArgs {
            mods,
            clock_rate,
            ar,
            fixed_ar,
            cs,
            fixed_cs,
            hp,
            fixed_hp,
            od,
            fixed_od,
            passed_objects,
            hardrock_offsets,
            lazer,
        } = self;
        let mut settings: Vec<DifficultyStep<Mods>> = Vec::new();
        push_step(&mut settings, match clock_rate { Some(c) => Some(DifficultyStep::ClockRate(c)), None => None });
        push_step(&mut settings, match ar { Some(v) => Some(DifficultyStep::Ar(v, fixed_ar)), None => None });
        push_step(&mut settings, match cs { Some(v) => Some(DifficultyStep::Cs(v, fixed_cs)), None => None });
        push_step(&mut settings, match hp { Some(v) => Some(DifficultyStep::Hp(v, fixed_hp)), None => None });
        push_step(&mut settings, match od { Some(v) => Some(DifficultyStep::Od(v, fixed_od)), None => None });
        push_step(&mut settings, match passed_objects { Some(n) => Some(DifficultyStep::PassedObjects(n)), None => None });
        push_step(&mut settings, match hardrock_offsets { Some(b) => Some(DifficultyStep::HardrockOffsets(b)), None => None });
        push_step(&mut settings, match lazer { Some(b) => Some(DifficultyStep::Lazer(b)), None => None });
        assert(settings@ =~= args.spec_setting_steps());
        let mut steps: Vec<DifficultyStep<Mods>> = Vec::new();
        steps.push(DifficultyStep::Mods(mods));
        steps.append(&mut settings);
        steps
    }
}

} // verus!

verus! {

/// A step is among the setting steps exactly when it is the step of one of
/// the given settings.
proof fn setting_steps_contain<Mods>(args: DifficultyArgs<Mods>, x: DifficultyStep<Mods>)
    ensures
        args.spec_setting_steps().contains(x) <==> (
(match args.clock_rate { Some(c) => Some(DifficultyStep::<Mods>::ClockRate(c)), None => None }) == Some(x)
            || (match args.ar { Some(v) => Some(DifficultyStep::<Mods>::Ar(v, args.fixed_ar)), None => None }) == Some(x)
            || (match args.cs { Some(v) => Some(DifficultyStep::<Mods>::Cs(v, args.fixed_cs)), None => None }) == Some(x)
            || (match args.hp { Some(v) => Some(DifficultyStep::<Mods>::Hp(v, args.fixed_hp)), None => None }) == Some(x)
            || (match args.od { Some(v) => Some(DifficultyStep::<Mods>::Od(v, args.fixed_od)), None => None }) == Some(x)
            || (match args.passed_objects { Some(n) => Some(DifficultyStep::<Mods>::PassedObjects(n)), None => None }) == Some(x)
            || (match args.hardrock_offsets { Some(b) => Some(DifficultyStep::<Mods>::HardrockOffsets(b)), None => None }) == Some(x)
            || (match args.lazer { Some(b) => Some(DifficultyStep::<Mods>::Lazer(b)), None => None }) == Some(x)
        ),
{
    let o0 = match args.clock_rate { Some(c) => Some(DifficultyStep::<Mods>::ClockRate(c)), None => None };
    step_seq_contains(o0, x);
    let o1 = match args.ar { Some(v) => Some(DifficultyStep::<Mods>::Ar(v, args.fixed_ar)), None => None };
    step_seq_contains(o1, x);
    let o2 = match args.cs { Some(v) => Some(DifficultyStep::<Mods>::Cs(v, args.fixed_cs)), None => None };
    step_seq_contains(o2, x);
    let o3 = match args.hp { Some(v) => Some(DifficultyStep::<Mods>::Hp(v, args.fixed_hp)), None => None };
    step_seq_contains(o3, x);
    let o4 = match args.od { Some(v) => Some(DifficultyStep::<Mods>::Od(v, args.fixed_od)), None => None };
    step_seq_contains(o4, x);
    let o5 = match args.passed_objects { Some(n) => Some(DifficultyStep::<Mods>::PassedObjects(n)), None => None };
    step_seq_contains(o5, x);
    let o6 = match args.hardrock_offsets { Some(b) => Some(DifficultyStep::<Mods>::HardrockOffsets(b)), None => None };
    step_seq_contains(o6, x);
    let o7 = match args.lazer { Some(b) => Some(DifficultyStep::<Mods>::Lazer(b)), None => None };
    step_seq_contains(o7, x);
    let p0 = step_seq(o0);
    let p1 = p0 + step_seq(o1);
    lemma_seq_concat_contains_all_elements(p0, step_seq(o1), x);
    let p2 = p1 + step_seq(o2);
    lemma_seq_concat_contains_all_elements(p1, step_seq(o2), x);
    let p3 = p2 + step_seq(o3);
    lemma_seq_concat_contains_all_elements(p2, step_seq(o3), x);
    let p4 = p3 + step_seq(o4);
    lemma_seq_concat_contains_all_elements(p3, step_seq(o4), x);
    let p5 = p4 + step_seq(o5);
    lemma_seq_concat_contains_all_elements(p4, step_seq(o5), x);
    let p6 = p5 + step_seq(o6);
    lemma_seq_concat_contains_all_elements(p5, step_seq(o6), x);
    let p7 = p6 + step_seq(o7);
    lemma_seq_concat_contains_all_elements(p6, step_seq(o7), x);
    assert(p7 == args.spec_setting_steps());
}

/// Each difficulty setting that is given reaches the calculation with
/// its own value and, for approach rate, circle size, drain rate, and overall
/// difficulty, its own `fixed` flag; a setting that is not given does not
/// reach it, and no setting step sets the mods.
pub proof fn difficulty_settings_reach_the_calculation<Mods>(args: DifficultyArgs<Mods>)
    ensures
        forall|v: F32Bits, fixed: bool|
            #![trigger args.spec_setting_steps().contains(DifficultyStep::Ar(v, fixed))]
            args.spec_setting_steps().contains(DifficultyStep::Ar(v, fixed)) <==> (args.ar == Some(v) && fixed == args.fixed_ar),
        forall|v: F32Bits, fixed: bool|
            #![trigger args.spec_setting_steps().contains(DifficultyStep::Cs(v, fixed))]
            args.spec_setting_steps().contains(DifficultyStep::Cs(v, fixed)) <==> (args.cs == Some(v) && fixed == args.fixed_cs),
        forall|v: F32Bits, fixed: bool|
            #![trigger args.spec_setting_steps().contains(DifficultyStep::Hp(v, fixed))]
            args.spec_setting_steps().contains(DifficultyStep::Hp(v, fixed)) <==> (args.hp == Some(v) && fixed == args.fixed_hp),
        forall|v: F32Bits, fixed: bool|
            #![trigger args.spec_setting_steps().contains(DifficultyStep::Od(v, fixed))]
            args.spec_setting_steps().contains(DifficultyStep::Od(v, fixed)) <==> (args.od == Some(v) && fixed == args.fixed_od),
        forall|c: F64Bits|
            #![trigger args.spec_setting_steps().contains(DifficultyStep::ClockRate(c))]
            args.spec_setting_steps().contains(DifficultyStep::ClockRate(c)) <==> (args.clock_rate == Some(c)),
        forall|n: u32|
            #![trigger args.spec_setting_steps().contains(DifficultyStep::PassedObjects(n))]
            args.spec_setting_steps().contains(DifficultyStep::PassedObjects(n)) <==> (args.passed_objects == Some(n)),
        forall|b: bool|
            #![trigger args.spec_setting_steps().contains(DifficultyStep::HardrockOffsets(b))]
            args.spec_setting_steps().contains(DifficultyStep::HardrockOffsets(b)) <==> (args.hardrock_offsets == Some(b)),
        forall|b: bool|
            #![trigger args.spec_setting_steps().contains(DifficultyStep::Lazer(b))]
            args.spec_setting_steps().contains(DifficultyStep::Lazer(b)) <==> (args.lazer == Some(b)),
        forall|m: Mods| !#[trigger] args.spec_setting_steps().contains(DifficultyStep::Mods(m)),
{
    assert forall|c: F64Bits| #[trigger] args.spec_setting_steps().contains(DifficultyStep::ClockRate(c)) <==> (args.clock_rate == Some(c)) by {
        setting_steps_contain(args, DifficultyStep::ClockRate(c));
    }
    assert forall|v: F32Bits, fixed: bool| #[trigger] args.spec_setting_steps().contains(DifficultyStep::Ar(v, fixed)) <==> (args.ar == Some(v) && fixed == args.fixed_ar) by {
        setting_steps_contain(args, DifficultyStep::Ar(v, fixed));
    }
    assert forall|v: F32Bits, fixed: bool| #[trigger] args.spec_setting_steps().contains(DifficultyStep::Cs(v, fixed)) <==> (args.cs == Some(v) && fixed == args.fixed_cs) by {
        setting_steps_contain(args, DifficultyStep::Cs(v, fixed));
    }
    assert forall|v: F32Bits, fixed: bool| #[trigger] args.spec_setting_steps().contains(DifficultyStep::Hp(v, fixed)) <==> (args.hp == Some(v) && fixed == args.fixed_hp) by {
        setting_steps_contain(args, DifficultyStep::Hp(v, fixed));
    }
    assert forall|v: F32Bits, fixed: bool| #[trigger] args.spec_setting_steps().contains(DifficultyStep::Od(v, fixed)) <==> (args.od == Some(v) && fixed == args.fixed_od) by {
        setting_steps_contain(args, DifficultyStep::Od(v, fixed));
    }
    assert forall|n: u32| #[trigger] args.spec_setting_steps().contains(DifficultyStep::PassedObjects(n)) <==> (args.passed_objects == Some(n)) by {
        setting_steps_contain(args, DifficultyStep::PassedObjects(n));
    }
    assert forall|b: bool| #[trigger] args.spec_setting_steps().contains(DifficultyStep::HardrockOffsets(b)) <==> (args.hardrock_offsets == Some(b)) by {
        setting_steps_contain(args, DifficultyStep::HardrockOffsets(b));
    }
    assert forall|b: bool| #[trigger] args.spec_setting_steps().contains(DifficultyStep::Lazer(b)) <==> (args.lazer == Some(b)) by {
        setting_steps_contain(args, DifficultyStep::Lazer(b));
    }
    assert forall|m: Mods| !#[trigger] args.spec_setting_steps().contains(DifficultyStep::Mods(m)) by {
        setting_steps_contain(args, DifficultyStep::Mods(m));
    }
}

} // verus!
