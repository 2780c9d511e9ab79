use vstd::prelude::*;

use super::difficulty::{DifficultyArgs, F32Bits, F64Bits};
use crate::steps::{given_steps, given_steps_of_nothing, push_step};

verus! {

/// Why a performance argument could not be taken from its JavaScript value.
#[derive(PartialEq, Eq, Structural, Clone, Copy, Debug)]
pub enum PerformanceArgsError {
    /// The hitresult priority was not one of the codes `0` or `1`.
    InvalidHitResultPriority,
    /// The hitresult generators were not a list of four optional generator codes.
    InvalidHitResultGenerators,
}

impl PerformanceArgsError {
    /// The message that is reported for the error.
    pub fn message(&self) -> (msg: &'static str)
        ensures
            *self == PerformanceArgsError::InvalidHitResultPriority ==> msg@
                == "invalid HitResultPriority"@,
            *self == PerformanceArgsError::InvalidHitResultGenerators ==> msg@
                == "invalid hitresult generators, expected list of four optional generators"@,
    {
        match self {
            PerformanceArgsError::InvalidHitResultPriority => "invalid HitResultPriority",
            PerformanceArgsError::InvalidHitResultGenerators =>
                "invalid hitresult generators, expected list of four optional generators",
        }
    }
}

/// While generating remaining hitresults, decide how they should be distributed.
#[derive(PartialEq, Eq, Structural, Clone, Copy, Debug)]
pub enum JsHitResultPriority {
    /// Prioritize good hitresults over bad ones
    BestCase,
    /// Prioritize bad hitresults over good ones
    WorstCase,
}

impl JsHitResultPriority {
    /// The priority that a code stands for, if any.
    pub open spec fn spec_from_code(code: u8) -> Option<JsHitResultPriority> {
        if code == 0 {
            Some(JsHitResultPriority::BestCase)
        } else if code == 1 {
            Some(JsHitResultPriority::WorstCase)
        } else {
            None
        }
    }

    /// The code of a priority.
    pub open spec fn spec_code(self) -> u8 {
        match self {
            JsHitResultPriority::BestCase => 0,
            JsHitResultPriority::WorstCase => 1,
        }
    }

    /// The code of this priority: `0` for `BestCase`, `1` for `WorstCase`.
    pub fn code(self) -> (code: u8)
        ensures
            code == self.spec_code(),
    {
        match self {
            JsHitResultPriority::BestCase => 0,
            JsHitResultPriority::WorstCase => 1,
        }
    }

    /// Takes a priority from a JavaScript value: `value` is the value read as a
    /// `u8`, or `None` where it is not one. The codes `0` and `1` are accepted,
    /// anything else is an error.
    pub fn deserialize(value: Option<u8>) -> (res: Result<JsHitResultPriority, PerformanceArgsError>)
        ensures
            match value {
                Some(code) => match Self::spec_from_code(code) {
                    Some(p) => res == Ok::<JsHitResultPriority, PerformanceArgsError>(p),
                    None => res == Err::<JsHitResultPriority, PerformanceArgsError>(
                        PerformanceArgsError::InvalidHitResultPriority,
                    ),
                },
                None => res == Err::<JsHitResultPriority, PerformanceArgsError>(
                    PerformanceArgsError::InvalidHitResultPriority,
                ),
            },
    {
        match value {
            Some(0) => Ok(JsHitResultPriority::BestCase),
            Some(1) => Ok(JsHitResultPriority::WorstCase),
            _ => Err(PerformanceArgsError::InvalidHitResultPriority),
        }
    }

    /// The priority that is used where none is given.
    pub fn default_priority() -> (p: JsHitResultPriority)
        ensures
            p == JsHitResultPriority::BestCase,
    {
        JsHitResultPriority::BestCase
    }
}

/// A specific implementation of hitresult generation.
#[derive(PartialEq, Eq, Structural, Clone, Copy, Debug)]
pub enum JsHitResultGenerator {
    /// Prioritize generating hitresults quickly.
    Fast,
    /// Find the hitresults that match the given accuracy the closest.
    Closest,
}

/// One entry of a generator list read from JavaScript: `None` where the entry
/// is null, else the entry's code.
pub open spec fn spec_decode_generator_entry(entry: Option<u8>) -> Option<Option<JsHitResultGenerator>> {
    match entry {
        None => Some(None),
        Some(code) => match JsHitResultGenerator::spec_from_code(code) {
            Some(g) => Some(Some(g)),
            None => None,
        },
    }
}

/// Whether a generator list read from JavaScript is acceptable: four entries,
/// each null or a generator code.
pub open spec fn spec_valid_generator_list(list: Seq<Option<u8>>) -> bool {
    &&& list.len() == 4
    &&& forall|i: int| 0 <= i < 4 ==> (#[trigger] spec_decode_generator_entry(list[i])) is Some
}

impl JsHitResultGenerator {
    /// The generator that a code stands for, if any.
    pub open spec fn spec_from_code(code: u8) -> Option<JsHitResultGenerator> {
        if code == 0 {
            Some(JsHitResultGenerator::Fast)
        } else if code == 1 {
            Some(JsHitResultGenerator::Closest)
        } else {
            None
        }
    }

    /// The code of a generator.
    pub open spec fn spec_code(self) -> u8 {
        match self {
            JsHitResultGenerator::Fast => 0,
            JsHitResultGenerator::Closest => 1,
        }
    }

    /// The code of this generator: `0` for `Fast`, `1` for `Closest`.
    pub fn code(self) -> (code: u8)
        ensures
            code == self.spec_code(),
    {
        match self {
            JsHitResultGenerator::Fast => 0,
            JsHitResultGenerator::Closest => 1,
        }
    }

    /// The generator that a code stands for: `0` is `Fast`, `1` is `Closest`.
    pub fn from_code(code: u8) -> (g: Option<JsHitResultGenerator>)
        ensures
            g == Self::spec_from_code(code),
    {
        if code == 0 {
            Some(JsHitResultGenerator::Fast)
        } else if code == 1 {
            Some(JsHitResultGenerator::Closest)
        } else {
            None
        }
    }

    fn decode_entry(entry: Option<u8>) -> (res: Option<Option<JsHitResultGenerator>>)
        ensures
            res == spec_decode_generator_entry(entry),
    {
        match entry {
            None => Some(None),
            Some(code) => match Self::from_code(code) {
                Some(g) => Some(Some(g)),
                None => None,
            },
        }
    }

    /// Takes the four optional generators (one for osu!, taiko, catch, and
    /// mania, in that order) from a JavaScript value: `value` is `None` where
    /// the value is null, else the list of its entries, each `None` where the
    /// entry is null and else the entry's code. A null value gives no
    /// generators; a list is accepted if it has four entries, each null or a
    /// generator code.
    pub fn deserialize(value: Option<Vec<Option<u8>>>) -> (res: Result<
        [Option<JsHitResultGenerator>; 4],
        PerformanceArgsError,
    >)
        ensures
            match value {
                None => res matches Ok(gens) && gens@ == seq![
                    None::<JsHitResultGenerator>,
                    None,
                    None,
                    None,
                ],
                Some(list) => if spec_valid_generator_list(list@) {
                    res matches Ok(gens) && gens@.len() == 4 && forall|i: int|
                        0 <= i < 4 ==> Some(#[trigger] gens@[i]) == spec_decode_generator_entry(
                            list@[i],
                        )
                } else {
                    res == Err::<[Option<JsHitResultGenerator>; 4], PerformanceArgsError>(
                        PerformanceArgsError::InvalidHitResultGenerators,
                    )
                },
            },
    {
        match value {
            None => Ok([None, None, None, None]),
            Some(list) => {
                if list.len() != 4 {
                    return Err(PerformanceArgsError::InvalidHitResultGenerators);
                }
                let e0 = Self::decode_entry(list[0]);
                let e1 = Self::decode_entry(list[1]);
                let e2 = Self::decode_entry(list[2]);
                let e3 = Self::decode_entry(list[3]);
                match (e0, e1, e2, e3) {
                    (Some(g0), Some(g1), Some(g2), Some(g3)) => {
                        let gens = [g0, g1, g2, g3];
                        assert(gens@ == seq![g0, g1, g2, g3]);
                        Ok(gens)
                    },
                    _ => {
                        assert(!spec_valid_generator_list(list@)) by {
                            if e0 is None {
                                assert(spec_decode_generator_entry(list@[0]) is None);
                            } else if e1 is None {
                                assert(spec_decode_generator_entry(list@[1]) is None);
                            } else if e2 is None {
                                assert(spec_decode_generator_entry(list@[2]) is None);
                            } else {
                                assert(spec_decode_generator_entry(list@[3]) is None);
                            }
                        }
                        Err(PerformanceArgsError::InvalidHitResultGenerators)
                    },
                }
            },
        }
    }
}

} // verus!

verus! {

/// The generator that is used for a mode: the given one, or `Fast` where none
/// is given.
pub open spec fn spec_effective_generator(g: Option<JsHitResultGenerator>) -> JsHitResultGenerator {
    match g {
        Some(g) => g,
        None => JsHitResultGenerator::Fast,
    }
}

/// The generator that is used for a mode: the given one, or `Fast` where none
/// is given.
pub fn effective_generator(g: Option<JsHitResultGenerator>) -> (res: JsHitResultGenerator)
    ensures
        res == spec_effective_generator(g),
{
    match g {
        Some(g) => g,
        None => JsHitResultGenerator::Fast,
    }
}

/// The generators used for osu!, taiko, catch, and mania, in that order.
pub fn effective_generators(gens: &[Option<JsHitResultGenerator>; 4]) -> (res: [JsHitResultGenerator; 4])
    ensures
        res@.len() == 4,
        forall|i: int| 0 <= i < 4 ==> #[trigger] res@[i] == spec_effective_generator(gens@[i]),
{
    let res = [
        effective_generator(gens[0]),
        effective_generator(gens[1]),
        effective_generator(gens[2]),
        effective_generator(gens[3]),
    ];
    assert(res@ == seq![
        spec_effective_generator(gens@[0]),
        spec_effective_generator(gens@[1]),
        spec_effective_generator(gens@[2]),
        spec_effective_generator(gens@[3]),
    ]);
    res
}

} // verus!

verus! {

/// Arguments of a performance calculation.
///
/// Floating-point settings are held as their bit patterns.
#[derive(Debug)]
pub struct PerformanceArgs<Mods> {
    pub mods: Mods,
    pub clock_rate: Option<F64Bits>,
    pub ar: Option<F32Bits>,
    pub fixed_ar: bool,
    pub cs: Option<F32Bits>,
    pub fixed_cs: bool,
    pub hp: Option<F32Bits>,
    pub fixed_hp: bool,
    pub od: Option<F32Bits>,
    pub fixed_od: bool,
    pub passed_objects: Option<u32>,
    pub hardrock_offsets: Option<bool>,
    pub lazer: Option<bool>,
    pub accuracy: Option<F64Bits>,
    pub combo: Option<u32>,
    pub large_tick_hits: Option<u32>,
    pub small_tick_hits: Option<u32>,
    pub slider_end_hits: Option<u32>,
    pub n_geki: Option<u32>,
    pub n_katu: Option<u32>,
    pub n300: Option<u32>,
    pub n100: Option<u32>,
    pub n50: Option<u32>,
    pub misses: Option<u32>,
    pub legacy_total_score: Option<u32>,
    pub hitresult_priority: JsHitResultPriority,
    pub hitresult_generators: [Option<JsHitResultGenerator>; 4],
}

/// One adjustment of a performance calculator, in the order in which
/// [`PerformanceArgs::apply`] lists them.
#[derive(Debug)]
pub enum PerformanceStep<Mods> {
    Accuracy(F64Bits),
    Combo(u32),
    LargeTickHits(u32),
    SmallTickHits(u32),
    SliderEndHits(u32),
    NGeki(u32),
    NKatu(u32),
    N300(u32),
    N100(u32),
    N50(u32),
    Misses(u32),
    LegacyTotalScore(u32),
    /// The generators for osu!, taiko, catch, and mania.
    HitResultGenerator([JsHitResultGenerator; 4]),
    HitResultPriority(JsHitResultPriority),
    Difficulty(DifficultyArgs<Mods>),
}

impl<Mods> PerformanceArgs<Mods> {
    /// The step for each score setting, or `None` where it is not given, in
    /// order: accuracy, combo, large tick hits, small tick hits, slider end
    /// hits, gekis, katus, 300s, 100s, 50s, misses, legacy total score.
    pub open spec fn spec_score_candidates(&self) -> Seq<Option<PerformanceStep<Mods>>> {
        seq![
            match self.accuracy { Some(v) => Some(PerformanceStep::<Mods>::Accuracy(v)), None => None },
            match self.combo { Some(v) => Some(PerformanceStep::<Mods>::Combo(v)), None => None },
            match self.large_tick_hits { Some(v) => Some(PerformanceStep::<Mods>::LargeTickHits(v)), None => None },
            match self.small_tick_hits { Some(v) => Some(PerformanceStep::<Mods>::SmallTickHits(v)), None => None },
            match self.slider_end_hits { Some(v) => Some(PerformanceStep::<Mods>::SliderEndHits(v)), None => None },
            match self.n_geki { Some(v) => Some(PerformanceStep::<Mods>::NGeki(v)), None => None },
            match self.n_katu { Some(v) => Some(PerformanceStep::<Mods>::NKatu(v)), None => None },
            match self.n300 { Some(v) => Some(PerformanceStep::<Mods>::N300(v)), None => None },
            match self.n100 { Some(v) => Some(PerformanceStep::<Mods>::N100(v)), None => None },
            match self.n50 { Some(v) => Some(PerformanceStep::<Mods>::N50(v)), None => None },
            match self.misses { Some(v) => Some(PerformanceStep::<Mods>::Misses(v)), None => None },
            match self.legacy_total_score { Some(v) => Some(PerformanceStep::<Mods>::LegacyTotalScore(v)), None => None },
        ]
    }

    /// The steps for the score settings that are given, in the order of
    /// [`PerformanceArgs::spec_score_candidates`].
    pub open spec fn spec_score_steps(&self) -> Seq<PerformanceStep<Mods>> {
        given_steps(self.spec_score_candidates())
    }

    /// Whether `d` holds these arguments' difficulty settings other than the
    /// mods.
    pub open spec fn spec_difficulty_is(&self, d: DifficultyArgs<Mods>) -> bool {
        &&& d.clock_rate == self.clock_rate
        &&& d.ar == self.ar
        &&& d.fixed_ar == self.fixed_ar
        &&& d.cs == self.cs
        &&& d.fixed_cs == self.fixed_cs
        &&& d.hp == self.hp
        &&& d.fixed_hp == self.fixed_hp
        &&& d.od == self.od
        &&& d.fixed_od == self.fixed_od
        &&& d.passed_objects == self.passed_objects
        &&& d.hardrock_offsets == self.hardrock_offsets
        &&& d.lazer == self.lazer
    }

    /// The adjustments for the score settings that are given (see
    /// [`PerformanceArgs::spec_score_steps`]).
    pub fn score_steps(&self) -> (steps: Vec<PerformanceStep<Mods>>)
        ensures
            steps@ == self.spec_score_steps(),
    {
        let mut candidates: Vec<Option<PerformanceStep<Mods>>> = Vec::new();
        candidates.push(match self.accuracy { Some(v) => Some(PerformanceStep::Accuracy(v)), None => None });
        candidates.push(match self.combo { Some(v) => Some(PerformanceStep::Combo(v)), None => None });
        candidates.push(match self.large_tick_hits { Some(v) => Some(PerformanceStep::LargeTickHits(v)), None => None });
        candidates.push(match self.small_tick_hits { Some(v) => Some(PerformanceStep::SmallTickHits(v)), None => None });
        candidates.push(match self.slider_end_hits { Some(v) => Some(PerformanceStep::SliderEndHits(v)), None => None });
        candidates.push(match self.n_geki { Some(v) => Some(PerformanceStep::NGeki(v)), None => None });
        candidates.push(match self.n_katu { Some(v) => Some(PerformanceStep::NKatu(v)), None => None });
        candidates.push(match self.n300 { Some(v) => Some(PerformanceStep::N300(v)), None => None });
        candidates.push(match self.n100 { Some(v) => Some(PerformanceStep::N100(v)), None => None });
        candidates.push(match self.n50 { Some(v) => Some(PerformanceStep::N50(v)), None => None });
        candidates.push(match self.misses { Some(v) => Some(PerformanceStep::Misses(v)), None => None });
        candidates.push(match self.legacy_total_score { Some(v) => Some(PerformanceStep::LegacyTotalScore(v)), None => None });
        assert(candidates@ =~= self.spec_score_candidates());
        let ghost cands = self.spec_score_candidates();
        let mut steps: Vec<PerformanceStep<Mods>> = Vec::new();
        let n = candidates.len();
        let mut i: usize = 0;
        while i < n
            invariant
                n == cands.len(),
                i <= n,
                candidates@ == cands.skip(i as int),
                steps@ == given_steps(cands.take(i as int)),
            decreases n - i,
        {
            let candidate = candidates.remove(0);
            assert(candidate == cands[i as int]);
            push_step(&mut steps, candidate);
            assert(cands.take(i + 1).drop_last() =~= cands.take(i as int));
            i = i + 1;
            assert(candidates@ =~= cands.skip(i as int));
        }
        assert(cands.take(n as int) =~= cands);
        steps
    }
}

impl<Mods: Clone> PerformanceArgs<Mods> {
    /// Whether `steps` is what applying these arguments lists: the steps for
    /// the given score settings (see [`PerformanceArgs::spec_score_steps`]),
    /// then the three closing steps (see [`PerformanceArgs::spec_final_steps`]).
    pub open spec fn spec_is_plan(&self, steps: Seq<PerformanceStep<Mods>>) -> bool {
        &&& steps.len() >= 3
        &&& steps.subrange(0, steps.len() - 3) == self.spec_score_steps()
        &&& self.spec_final_steps(steps.subrange(steps.len() - 3, steps.len() as int))
    }

    /// Whether `last` holds the three steps that close every application of
    /// these arguments, in order: the hitresult generators (the given one for
    /// each mode, `Fast` where none is given), the hitresult priority, and the
    /// difficulty settings with a clone of the mods.
    pub open spec fn spec_final_steps(&self, last: Seq<PerformanceStep<Mods>>) -> bool {
        &&& last.len() == 3
        &&& last[0] matches PerformanceStep::HitResultGenerator(gens) && gens@.len() == 4
            && forall|i: int|
            0 <= i < 4 ==> #[trigger] gens@[i] == spec_effective_generator(
                self.hitresult_generators@[i],
            )
        &&& last[1] == PerformanceStep::<Mods>::HitResultPriority(self.hitresult_priority)
        &&& last[2] matches PerformanceStep::Difficulty(d) && cloned(self.mods, d.mods)
            && self.spec_difficulty_is(d)
    }

    /// The difficulty settings of these arguments, with a clone of the mods.
    fn difficulty_args(&self) -> (d: DifficultyArgs<Mods>)
        ensures
            cloned(self.mods, d.mods),
            self.spec_difficulty_is(d),
    {
        DifficultyArgs {
            mods: self.mods.clone(),
            clock_rate: self.clock_rate,
            ar: self.ar,
            fixed_ar: self.fixed_ar,
            cs: self.cs,
            fixed_cs: self.fixed_cs,
            hp: self.hp,
            fixed_hp: self.fixed_hp,
            od: self.od,
            fixed_od: self.fixed_od,
            passed_objects: self.passed_objects,
            hardrock_offsets: self.hardrock_offsets,
            lazer: self.lazer,
        }
    }

    /// The adjustments that these arguments make to a performance calculator,
    /// in order: one for each score setting that is given (see
    /// [`PerformanceArgs::spec_score_steps`]), then the hitresult generators
    /// (`Fast` for each mode without one), the hitresult priority, and last
    /// the difficulty settings.
    pub fn apply(&self) -> (steps: Vec<PerformanceStep<Mods>>)
        ensures
            self.spec_is_plan(steps@),
    {
        let mut steps = self.score_steps();
        let ghost score = steps@;
        let gens = effective_generators(&self.hitresult_generators);
        let difficulty = self.difficulty_args();
        let ghost g_step = PerformanceStep::<Mods>::HitResultGenerator(gens);
        let ghost p_step = PerformanceStep::<Mods>::HitResultPriority(self.hitresult_priority);
        let ghost d_step = PerformanceStep::<Mods>::Difficulty(difficulty);
        steps.push(PerformanceStep::HitResultGenerator(gens));
        steps.push(PerformanceStep::HitResultPriority(self.hitresult_priority));
        steps.push(PerformanceStep::Difficulty(difficulty));
        assert(steps@ =~= score + seq![g_step, p_step, d_step]);
        assert(steps@.subrange(0, steps@.len() - 3) =~= score);
        assert(steps@.subrange(steps@.len() - 3, steps@.len() as int) =~= seq![g_step, p_step, d_step]);
        steps
    }
}

} // verus!

verus! {

impl<Mods> PerformanceArgs<Mods> {
    /// Whether every setting but the mods is unset: no difficulty or score
    /// setting, every flag `false`, the hitresult priority `BestCase`, and no
    /// hitresult generator.
    pub open spec fn spec_is_unset_but_mods(self) -> bool {
        &&& self.clock_rate is None
        &&& self.ar is None
        &&& !self.fixed_ar
        &&& self.cs is None
        &&& !self.fixed_cs
        &&& self.hp is None
        &&& !self.fixed_hp
        &&& self.od is None
        &&& !self.fixed_od
        &&& self.passed_objects is None
        &&& self.hardrock_offsets is None
        &&& self.lazer is None
        &&& self.accuracy is None
        &&& self.combo is None
        &&& self.large_tick_hits is None
        &&& self.small_tick_hits is None
        &&& self.slider_end_hits is None
        &&& self.n_geki is None
        &&& self.n_katu is None
        &&& self.n300 is None
        &&& self.n100 is None
        &&& self.n50 is None
        &&& self.misses is None
        &&& self.legacy_total_score is None
        &&& self.hitresult_priority == JsHitResultPriority::BestCase
        &&& self.hitresult_generators@ == seq![
            None::<JsHitResultGenerator>,
            None,
            None,
            None,
        ]
    }
}

impl<Mods: Default> Default for PerformanceArgs<Mods> {
    /// Default mods and nothing else set.
    fn default() -> (args: Self)
        ensures
            call_ensures(Mods::default, (), args.mods),
            args.spec_is_unset_but_mods(),
            !args.fixed_ar,
            !args.fixed_cs,
            !args.fixed_hp,
            !args.fixed_od,
            args.hitresult_priority == JsHitResultPriority::BestCase,
    {
        let gens: [Option<JsHitResultGenerator>; 4] = [None, None, None, None];
        assert(gens@ == seq![None::<JsHitResultGenerator>, None, None, None]);
        PerformanceArgs {
            mods: Mods::default(),
            clock_rate: None,
            ar: None,
            fixed_ar: false,
            cs: None,
            fixed_cs: false,
            hp: None,
            fixed_hp: false,
            od: None,
            fixed_od: false,
            passed_objects: None,
            hardrock_offsets: None,
            lazer: None,
            accuracy: None,
            combo: None,
            large_tick_hits: None,
            small_tick_hits: None,
            slider_end_hits: None,
            n_geki: None,
            n_katu: None,
            n300: None,
            n100: None,
            n50: None,
            misses: None,
            legacy_total_score: None,
            hitresult_priority: JsHitResultPriority::default_priority(),
            hitresult_generators: gens,
        }
    }
}

} // verus!

verus! {

/// Either previously calculated attributes or a beatmap.
#[derive(Debug)]
pub enum MapOrAttrs<Bm, Attrs> {
    Beatmap(Bm),
    Attrs(Attrs),
}

/// Why a value was taken neither as attributes nor as a beatmap.
#[derive(Debug)]
pub enum MapOrAttrsError<E> {
    /// The value read as attributes, but they could not be converted.
    Conversion(E),
    /// The value read neither as attributes nor as a beatmap.
    NotMapOrAttributes,
}

impl<E> MapOrAttrsError<E> {
    /// The message of an error other than a conversion error.
    pub fn message(&self) -> (msg: Option<&'static str>)
        ensures
            self is Conversion ==> msg is None,
            self is NotMapOrAttributes ==> (msg matches Some(m) && m@
                == "Expected either previously calculated attributes or a beatmap"@),
    {
        match self {
            MapOrAttrsError::Conversion(_) => None,
            MapOrAttrsError::NotMapOrAttributes => Some(
                "Expected either previously calculated attributes or a beatmap",
            ),
        }
    }
}

/// What a value is taken as, given what it reads as: the first of the
/// performance attributes, the difficulty attributes, and the beatmap that it
/// reads as. Attributes that it reads as are converted, and a failed conversion
/// is the answer.
pub open spec fn spec_map_or_attrs<Bm, Attrs, E>(
    performance_attrs: Option<Result<Attrs, E>>,
    difficulty_attrs: Option<Result<Attrs, E>>,
    map: Option<Bm>,
) -> Result<MapOrAttrs<Bm, Attrs>, MapOrAttrsError<E>> {
    match performance_attrs {
        Some(Ok(a)) => Ok(MapOrAttrs::Attrs(a)),
        Some(Err(e)) => Err(MapOrAttrsError::Conversion(e)),
        None => match difficulty_attrs {
            Some(Ok(a)) => Ok(MapOrAttrs::Attrs(a)),
            Some(Err(e)) => Err(MapOrAttrsError::Conversion(e)),
            None => match map {
                Some(m) => Ok(MapOrAttrs::Beatmap(m)),
                None => Err(MapOrAttrsError::NotMapOrAttributes),
            },
        },
    }
}

impl<Bm, Attrs> MapOrAttrs<Bm, Attrs> {
    /// Takes a value as previously calculated attributes or as a beatmap.
    ///
    /// `performance_attrs` and `difficulty_attrs` are `None` where the value
    /// does not read as performance or difficulty attributes, and else the
    /// result of converting what it reads as; `map` is `None` where the value
    /// does not read as a beatmap, else the beatmap. See
    /// [`spec_map_or_attrs`].
    pub fn from_value<E>(
        performance_attrs: Option<Result<Attrs, E>>,
        difficulty_attrs: Option<Result<Attrs, E>>,
        map: Option<Bm>,
    ) -> (res: Result<Self, MapOrAttrsError<E>>)
        ensures
            res == spec_map_or_attrs(performance_attrs, difficulty_attrs, map),
    {
        if let Some(converted) = performance_attrs {
            return match converted {
                Ok(a) => Ok(MapOrAttrs::Attrs(a)),
                Err(e) => Err(MapOrAttrsError::Conversion(e)),
            };
        }
        if let Some(converted) = difficulty_attrs {
            return match converted {
                Ok(a) => Ok(MapOrAttrs::Attrs(a)),
                Err(e) => Err(MapOrAttrsError::Conversion(e)),
            };
        }
        if let Some(m) = map {
            return Ok(MapOrAttrs::Beatmap(m));
        }
        Err(MapOrAttrsError::NotMapOrAttributes)
    }
}

} // verus!

verus! {

/// A priority's code is read back as that priority.
pub proof fn priority_code_round_trip(p: JsHitResultPriority)
    ensures
        JsHitResultPriority::spec_from_code(p.spec_code()) == Some(p),
{
}

/// A code that is read as a priority is that priority's code.
pub proof fn priority_code_is_unique(code: u8, p: JsHitResultPriority)
    requires
        JsHitResultPriority::spec_from_code(code) == Some(p),
    ensures
        p.spec_code() == code,
{
}

/// A generator's code is read back as that generator.
pub proof fn generator_code_round_trip(g: JsHitResultGenerator)
    ensures
        JsHitResultGenerator::spec_from_code(g.spec_code()) == Some(g),
{
}

/// A code that is read as a generator is that generator's code.
pub proof fn generator_code_is_unique(code: u8, g: JsHitResultGenerator)
    requires
        JsHitResultGenerator::spec_from_code(code) == Some(g),
    ensures
        g.spec_code() == code,
{
}

/// The list of codes of four optional generators (null where there is none).
pub open spec fn spec_generator_codes(gens: Seq<Option<JsHitResultGenerator>>) -> Seq<Option<u8>> {
    gens.map_values(
        |g: Option<JsHitResultGenerator>|
            match g {
                Some(g) => Some(g.spec_code()),
                None => None,
            },
    )
}

/// Writing four optional generators as their codes gives a list that is
/// accepted and read back, entry by entry, as those generators.
pub proof fn generator_list_round_trip(gens: [Option<JsHitResultGenerator>; 4])
    ensures
        spec_valid_generator_list(spec_generator_codes(gens@)),
        forall|i: int|
            0 <= i < 4 ==> spec_decode_generator_entry(#[trigger] spec_generator_codes(gens@)[i])
                == Some(gens@[i]),
{
    let codes = spec_generator_codes(gens@);
    assert forall|i: int| 0 <= i < 4 implies spec_decode_generator_entry(#[trigger] codes[i])
        == Some(gens@[i]) by {
        match gens@[i] {
            Some(g) => generator_code_round_trip(g),
            None => {},
        }
    }
}

/// Arguments with nothing set but the mods make no score adjustment: applying
/// them sets only the generators (`Fast` for every mode), the priority
/// (`BestCase`), and the difficulty.
pub proof fn unset_performance_args_make_no_score_steps<Mods>(args: PerformanceArgs<Mods>)
    requires
        args.spec_is_unset_but_mods(),
    ensures
        args.spec_score_steps().len() == 0,
        forall|i: int|
            0 <= i < 4 ==> spec_effective_generator(#[trigger] args.hitresult_generators@[i])
                == JsHitResultGenerator::Fast,
        args.hitresult_priority == JsHitResultPriority::BestCase,
{
    given_steps_of_nothing(args.spec_score_candidates());
}

/// Attributes are preferred over a beatmap: where the value reads as
/// attributes of either kind, it is never taken as a beatmap, and where it
/// reads as performance attributes, it is taken as those.
pub proof fn attributes_are_preferred_over_a_map<Bm, Attrs, E>(
    performance_attrs: Option<Result<Attrs, E>>,
    difficulty_attrs: Option<Result<Attrs, E>>,
    map: Option<Bm>,
)
    ensures
        (performance_attrs is Some || difficulty_attrs is Some) ==> !(spec_map_or_attrs(
            performance_attrs,
            difficulty_attrs,
            map,
        ) matches Ok(MapOrAttrs::Beatmap(_))),
        performance_attrs matches Some(Ok(a)) ==> spec_map_or_attrs(
            performance_attrs,
            difficulty_attrs,
            map,
        ) == Ok::<MapOrAttrs<Bm, Attrs>, MapOrAttrsError<E>>(MapOrAttrs::Attrs(a)),
{
}

/// A value is refused as neither attributes nor a beatmap exactly when it
/// reads as none of them.
pub proof fn refused_exactly_when_nothing_reads<Bm, Attrs, E>(
    performance_attrs: Option<Result<Attrs, E>>,
    difficulty_attrs: Option<Result<Attrs, E>>,
    map: Option<Bm>,
)
    ensures
        (spec_map_or_attrs(performance_attrs, difficulty_attrs, map) matches Err(
            MapOrAttrsError::NotMapOrAttributes,
        )) <==> (performance_attrs is None && difficulty_attrs is None && map is None),
{
}

} // verus!

verus! {

/// The difficulty that closes every application of `args` holds the
/// arguments' own difficulty settings, each in its own field, and a clone of
/// the mods.
pub proof fn closing_difficulty_holds_the_args_settings<Mods: Clone>(
    args: PerformanceArgs<Mods>,
    plan: Seq<PerformanceStep<Mods>>,
)
    requires
        args.spec_is_plan(plan),
    ensures
        plan[plan.len() - 1] matches PerformanceStep::Difficulty(d) && cloned(args.mods, d.mods)
            && d.clock_rate == args.clock_rate
            && d.ar == args.ar
            && d.fixed_ar == args.fixed_ar
            && d.cs == args.cs
            && d.fixed_cs == args.fixed_cs
            && d.hp == args.hp
            && d.fixed_hp == args.fixed_hp
            && d.od == args.od
            && d.fixed_od == args.fixed_od
            && d.passed_objects == args.passed_objects
            && d.hardrock_offsets == args.hardrock_offsets
            && d.lazer == args.lazer,
{
    let n = plan.len() as int;
    let last = plan.subrange(n - 3, n);
    assert(last[2] == plan[n - 1]);
}

} // verus!

verus! {

/// Performance arguments with nothing set but the mods (as the default
/// arguments are) have no flag set, no difficulty or score setting, the
/// priority `BestCase`, and no generator for any mode.
pub proof fn unset_performance_args_have_no_settings<Mods>(args: PerformanceArgs<Mods>)
    requires
        args.spec_is_unset_but_mods(),
    ensures
        args.fixed_ar == false,
        args.fixed_cs == false,
        args.fixed_hp == false,
        args.fixed_od == false,
        args.clock_rate == None::<F64Bits>,
        args.ar == None::<F32Bits>,
        args.cs == None::<F32Bits>,
        args.hp == None::<F32Bits>,
        args.od == None::<F32Bits>,
        args.passed_objects == None::<u32>,
        args.hardrock_offsets == None::<bool>,
        args.lazer == None::<bool>,
        args.accuracy == None::<F64Bits>,
        args.combo == None::<u32>,
        args.large_tick_hits == None::<u32>,
        args.small_tick_hits == None::<u32>,
        args.slider_end_hits == None::<u32>,
        args.n_geki == None::<u32>,
        args.n_katu == None::<u32>,
        args.n300 == None::<u32>,
        args.n100 == None::<u32>,
        args.n50 == None::<u32>,
        args.misses == None::<u32>,
        args.legacy_total_score == None::<u32>,
        args.hitresult_priority == JsHitResultPriority::BestCase,
        forall|i: int| 0 <= i < 4 ==> (#[trigger] args.hitresult_generators@[i]) is None,
{
}

} // verus!

verus! {

/// The codes follow the numbering of the JavaScript enums: `0` is
/// `BestCase`/`Fast`, `1` is `WorstCase`/`Closest`, and no other code stands
/// for a priority or a generator.
pub proof fn codes_follow_the_enum_numbering(code: u8)
    ensures
        code == 0 ==> JsHitResultPriority::spec_from_code(code) == Some(JsHitResultPriority::BestCase),
        code == 1 ==> JsHitResultPriority::spec_from_code(code) == Some(
            JsHitResultPriority::WorstCase,
        ),
        code >= 2 ==> JsHitResultPriority::spec_from_code(code) is None,
        code == 0 ==> JsHitResultGenerator::spec_from_code(code) == Some(JsHitResultGenerator::Fast),
        code == 1 ==> JsHitResultGenerator::spec_from_code(code) == Some(
            JsHitResultGenerator::Closest,
        ),
        code >= 2 ==> JsHitResultGenerator::spec_from_code(code) is None,
        spec_decode_generator_entry(None) == Some(None::<JsHitResultGenerator>),
        spec_decode_generator_entry(Some(code)) == match JsHitResultGenerator::spec_from_code(code) {
            Some(g) => Some(Some(g)),
            None => None::<Option<JsHitResultGenerator>>,
        },
{
}

/// A mode without a generator uses `Fast`; a mode with one uses it.
pub proof fn missing_generators_are_fast(g: JsHitResultGenerator)
    ensures
        spec_effective_generator(None) == JsHitResultGenerator::Fast,
        spec_effective_generator(Some(g)) == g,
{
}

} // verus!
