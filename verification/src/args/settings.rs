use vstd::prelude::*;

use super::difficulty::{DifficultyArgs, F64Bits};
use super::performance::{
    spec_effective_generator, JsHitResultGenerator, JsHitResultPriority, PerformanceArgs,
    PerformanceStep,
};
use crate::steps::{given_steps, step_seq};

verus! {

/// The settings that a performance calculator holds, as far as the steps of
/// [`PerformanceArgs::apply`] set them: each step overwrites the one setting
/// that it is about. `None` is a setting that no step has set.
pub struct PerformanceSettings<Mods> {
    pub accuracy: Option<F64Bits>,
    pub combo: Option<u32>,
    pub large_tick_hits: Option<u32>,
    pub small_tick_hits: Option<u32>,
    pub slider_end_hits: Option<u32>,
    pub n_geki: Option<u32>,
    pub n_katu: Option<u32>,
    pub n300: Option<u32>,
    pub n100: Option<u32>,
    pub n50: Option<u32>,
    pub misses: Option<u32>,
    pub legacy_total_score: Option<u32>,
    pub hitresult_generators: Option<[JsHitResultGenerator; 4]>,
    pub hitresult_priority: Option<JsHitResultPriority>,
    pub difficulty: Option<DifficultyArgs<Mods>>,
}

/// The given setting where there is one, else the held one.
pub open spec fn given_or_held<T>(given: Option<T>, held: Option<T>) -> Option<T> {
    match given {
        Some(v) => Some(v),
        None => held,
    }
}

impl<Mods> PerformanceSettings<Mods> {
    /// The settings after one step.
    pub open spec fn after(self, step: PerformanceStep<Mods>) -> Self {
        match step {
            PerformanceStep::Accuracy(v) => PerformanceSettings { accuracy: Some(v), ..self },
            PerformanceStep::Combo(v) => PerformanceSettings { combo: Some(v), ..self },
            PerformanceStep::LargeTickHits(v) => PerformanceSettings { large_tick_hits: Some(v), ..self },
            PerformanceStep::SmallTickHits(v) => PerformanceSettings { small_tick_hits: Some(v), ..self },
            PerformanceStep::SliderEndHits(v) => PerformanceSettings { slider_end_hits: Some(v), ..self },
            PerformanceStep::NGeki(v) => PerformanceSettings { n_geki: Some(v), ..self },
            PerformanceStep::NKatu(v) => PerformanceSettings { n_katu: Some(v), ..self },
            PerformanceStep::N300(v) => PerformanceSettings { n300: Some(v), ..self },
            PerformanceStep::N100(v) => PerformanceSettings { n100: Some(v), ..self },
            PerformanceStep::N50(v) => PerformanceSettings { n50: Some(v), ..self },
            PerformanceStep::Misses(v) => PerformanceSettings { misses: Some(v), ..self },
            PerformanceStep::LegacyTotalScore(v) => PerformanceSettings { legacy_total_score: Some(v), ..self },
            PerformanceStep::HitResultGenerator(g) => PerformanceSettings {
                hitresult_generators: Some(g),
                ..self
            },
            PerformanceStep::HitResultPriority(p) => PerformanceSettings {
                hitresult_priority: Some(p),
                ..self
            },
            PerformanceStep::Difficulty(d) => PerformanceSettings { difficulty: Some(d), ..self },
        }
    }

    /// The settings after a step where there is one.
    pub open spec fn after_given(self, step: Option<PerformanceStep<Mods>>) -> Self {
        match step {
            Some(s) => self.after(s),
            None => self,
        }
    }

    /// The settings after the steps, in order.
    pub open spec fn after_all(self, steps: Seq<PerformanceStep<Mods>>) -> Self
        decreases steps.len(),
    {
        if steps.len() == 0 {
            self
        } else {
            self.after_all(steps.drop_last()).after(steps.last())
        }
    }

    /// These settings with each score setting that `args` gives in place of
    /// the held one.
    pub open spec fn with_scores(self, args: PerformanceArgs<Mods>) -> Self {
        PerformanceSettings {
            accuracy: given_or_held(args.accuracy, self.accuracy),
            combo: given_or_held(args.combo, self.combo),
            large_tick_hits: given_or_held(args.large_tick_hits, self.large_tick_hits),
            small_tick_hits: given_or_held(args.small_tick_hits, self.small_tick_hits),
            slider_end_hits: given_or_held(args.slider_end_hits, self.slider_end_hits),
            n_geki: given_or_held(args.n_geki, self.n_geki),
            n_katu: given_or_held(args.n_katu, self.n_katu),
            n300: given_or_held(args.n300, self.n300),
            n100: given_or_held(args.n100, self.n100),
            n50: given_or_held(args.n50, self.n50),
            misses: given_or_held(args.misses, self.misses),
            legacy_total_score: given_or_held(args.legacy_total_score, self.legacy_total_score),
            ..self
        }
    }
}

proof fn after_all_concat<Mods>(
    s: PerformanceSettings<Mods>,
    a: Seq<PerformanceStep<Mods>>,
    b: Seq<PerformanceStep<Mods>>,
)
    ensures
        s.after_all(a + b) == s.after_all(a).after_all(b),
    decreases b.len(),
{
    if b.len() == 0 {
        assert(a + b =~= a);
    } else {
        after_all_concat(s, a, b.drop_last());
        assert((a + b).drop_last() =~= a + b.drop_last());
    }
}

proof fn after_all_given_steps<Mods>(
    s: PerformanceSettings<Mods>,
    candidates: Seq<Option<PerformanceStep<Mods>>>,
    k: int,
)
    requires
        0 <= k < candidates.len(),
    ensures
        s.after_all(given_steps(candidates.take(k + 1))) == s.after_all(
            given_steps(candidates.take(k)),
        ).after_given(candidates[k]),
{
    let prefix = candidates.take(k + 1);
    assert(prefix.drop_last() =~= candidates.take(k));
    assert(prefix.last() == candidates[k]);
    assert(given_steps(prefix) == given_steps(candidates.take(k)) + step_seq(candidates[k]));
    let before = given_steps(candidates.take(k));
    after_all_concat(s, before, step_seq(candidates[k]));
    let t = s.after_all(before);
    match candidates[k] {
        Some(step) => {
            let one = step_seq(candidates[k]);
            assert(one.drop_last() =~= Seq::<PerformanceStep<Mods>>::empty());
            assert(one.last() == step);
            assert(t.after_all(one.drop_last()) == t);
            assert(t.after_all(step_seq(candidates[k])) == t.after(step));
        },
        None => {
            assert(t.after_all(step_seq(candidates[k])) == t);
        },
    }
}

/// The score steps of `args` put each score setting that `args` gives in
/// place of the held one, and leave every other setting as it is.
pub proof fn score_steps_set_the_given_scores<Mods>(
    args: PerformanceArgs<Mods>,
    s: PerformanceSettings<Mods>,
)
    ensures
        s.after_all(args.spec_score_steps()) == s.with_scores(args),
{
    let c = args.spec_score_candidates();
    assert(c.take(0) =~= Seq::<Option<PerformanceStep<Mods>>>::empty());
    after_all_given_steps(s, c, 0);
    after_all_given_steps(s, c, 1);
    after_all_given_steps(s, c, 2);
    after_all_given_steps(s, c, 3);
    after_all_given_steps(s, c, 4);
    after_all_given_steps(s, c, 5);
    after_all_given_steps(s, c, 6);
    after_all_given_steps(s, c, 7);
    after_all_given_steps(s, c, 8);
    after_all_given_steps(s, c, 9);
    after_all_given_steps(s, c, 10);
    after_all_given_steps(s, c, 11);
    assert(c.take(12) =~= c);
    assert(s.after_all(args.spec_score_steps()) =~= s.with_scores(args));
}

/// Applying a plan of `args` to held settings puts the score settings that
/// `args` gives in place of the held ones, then makes the plan's three closing
/// steps (generators, priority, difficulty).
pub proof fn plan_settings<Mods: Clone>(
    args: PerformanceArgs<Mods>,
    s: PerformanceSettings<Mods>,
    plan: Seq<PerformanceStep<Mods>>,
)
    requires
        args.spec_is_plan(plan),
    ensures
        s.after_all(plan) == s.with_scores(args).after(plan[plan.len() - 3]).after(
            plan[plan.len() - 2],
        ).after(plan[plan.len() - 1]),
{
    let n = plan.len() as int;
    let score = plan.subrange(0, n - 3);
    let last = plan.subrange(n - 3, n);
    assert(plan =~= score + last);
    after_all_concat(s, score, last);
    score_steps_set_the_given_scores(args, s);
    let t = s.with_scores(args);
    assert(last.drop_last().drop_last().drop_last() =~= Seq::<PerformanceStep<Mods>>::empty());
    assert(t.after_all(last.drop_last().drop_last().drop_last()) == t);
    assert(t.after_all(last.drop_last().drop_last()) == t.after(plan[n - 3]));
    assert(t.after_all(last.drop_last()) == t.after(plan[n - 3]).after(plan[n - 2]));
}

/// Applying the same arguments twice leaves the settings that applying them
/// once leaves, whatever was held before (each application may clone the
/// mods anew, so the two plans may differ in the clone).
pub proof fn applying_twice_is_applying_once<Mods: Clone>(
    args: PerformanceArgs<Mods>,
    s: PerformanceSettings<Mods>,
    first: Seq<PerformanceStep<Mods>>,
    second: Seq<PerformanceStep<Mods>>,
)
    requires
        args.spec_is_plan(first),
        args.spec_is_plan(second),
    ensures
        s.after_all(first).after_all(second) == s.after_all(second),
{
    plan_settings(args, s, first);
    plan_settings(args, s, second);
    plan_settings(args, s.after_all(first), second);
    assert(s.after_all(first).after_all(second) =~= s.after_all(second));
}

/// A difficulty and a priority set before applying `args` make no
/// difference: applying `args` overwrites both.
pub proof fn earlier_priority_and_difficulty_are_overwritten<Mods: Clone>(
    args: PerformanceArgs<Mods>,
    s: PerformanceSettings<Mods>,
    difficulty: DifficultyArgs<Mods>,
    priority: JsHitResultPriority,
    plan: Seq<PerformanceStep<Mods>>,
)
    requires
        args.spec_is_plan(plan),
    ensures
        s.after(PerformanceStep::Difficulty(difficulty)).after(
            PerformanceStep::HitResultPriority(priority),
        ).after_all(plan) == s.after_all(plan),
{
    let s1 = s.after(PerformanceStep::Difficulty(difficulty)).after(
        PerformanceStep::HitResultPriority(priority),
    );
    plan_settings(args, s, plan);
    plan_settings(args, s1, plan);
    assert(s1.after_all(plan) =~= s.after_all(plan));
}

/// The generators, priority, and difficulty that applying `args` leaves come
/// from `args` alone: the priority is that of `args`, the generators are
/// those of `args` (`Fast` for a mode without one), and the difficulty holds
/// the difficulty settings of `args` with a clone of its mods.
pub proof fn closing_settings_come_from_args<Mods: Clone>(
    args: PerformanceArgs<Mods>,
    s: PerformanceSettings<Mods>,
    plan: Seq<PerformanceStep<Mods>>,
)
    requires
        args.spec_is_plan(plan),
    ensures
        s.after_all(plan).hitresult_priority == Some(args.hitresult_priority),
        s.after_all(plan).hitresult_generators matches Some(gens) && gens@.len() == 4 && forall|
            i: int,
        |
            0 <= i < 4 ==> #[trigger] gens@[i] == spec_effective_generator(
                args.hitresult_generators@[i],
            ),
        s.after_all(plan).difficulty matches Some(d) && cloned(args.mods, d.mods)
            && d.clock_rate == args.clock_rate
            && d.ar == args.ar
            && d.fixed_ar == args.fixed_ar
            && d.cs == args.cs
            && d.fixed_cs == args.fixed_cs
            && d.hp == args.hp
            && d.fixed_hp == args.fixed_hp
            && d.od == args.od
            && d.fixed_od == args.fixed_od
            && d.passed_objects == args.passed_objects
            && d.hardrock_offsets == args.hardrock_offsets
            && d.lazer == args.lazer,
{
    plan_settings(args, s, plan);
    let n = plan.len() as int;
    let last = plan.subrange(n - 3, n);
    assert(last[0] == plan[n - 3] && last[1] == plan[n - 2] && last[2] == plan[n - 1]);
}

/// Each score setting that `args` gives reaches the calculator's setting of
/// the same name; a score setting that `args` does not give leaves the held
/// one, and the score steps touch neither generators, priority, nor
/// difficulty.
pub proof fn score_settings_reach_the_calculator<Mods>(
    args: PerformanceArgs<Mods>,
    s: PerformanceSettings<Mods>,
)
    ensures
        args.accuracy is Some ==> s.after_all(args.spec_score_steps()).accuracy == args.accuracy,
        args.accuracy is None ==> s.after_all(args.spec_score_steps()).accuracy == s.accuracy,
        args.combo is Some ==> s.after_all(args.spec_score_steps()).combo == args.combo,
        args.combo is None ==> s.after_all(args.spec_score_steps()).combo == s.combo,
        args.large_tick_hits is Some ==> s.after_all(args.spec_score_steps()).large_tick_hits == args.large_tick_hits,
        args.large_tick_hits is None ==> s.after_all(args.spec_score_steps()).large_tick_hits == s.large_tick_hits,
        args.small_tick_hits is Some ==> s.after_all(args.spec_score_steps()).small_tick_hits == args.small_tick_hits,
        args.small_tick_hits is None ==> s.after_all(args.spec_score_steps()).small_tick_hits == s.small_tick_hits,
        args.slider_end_hits is Some ==> s.after_all(args.spec_score_steps()).slider_end_hits == args.slider_end_hits,
        args.slider_end_hits is None ==> s.after_all(args.spec_score_steps()).slider_end_hits == s.slider_end_hits,
        args.n_geki is Some ==> s.after_all(args.spec_score_steps()).n_geki == args.n_geki,
        args.n_geki is None ==> s.after_all(args.spec_score_steps()).n_geki == s.n_geki,
        args.n_katu is Some ==> s.after_all(args.spec_score_steps()).n_katu == args.n_katu,
        args.n_katu is None ==> s.after_all(args.spec_score_steps()).n_katu == s.n_katu,
        args.n300 is Some ==> s.after_all(args.spec_score_steps()).n300 == args.n300,
        args.n300 is None ==> s.after_all(args.spec_score_steps()).n300 == s.n300,
        args.n100 is Some ==> s.after_all(args.spec_score_steps()).n100 == args.n100,
        args.n100 is None ==> s.after_all(args.spec_score_steps()).n100 == s.n100,
        args.n50 is Some ==> s.after_all(args.spec_score_steps()).n50 == args.n50,
        args.n50 is None ==> s.after_all(args.spec_score_steps()).n50 == s.n50,
        args.misses is Some ==> s.after_all(args.spec_score_steps()).misses == args.misses,
        args.misses is None ==> s.after_all(args.spec_score_steps()).misses == s.misses,
        args.legacy_total_score is Some ==> s.after_all(args.spec_score_steps()).legacy_total_score == args.legacy_total_score,
        args.legacy_total_score is None ==> s.after_all(args.spec_score_steps()).legacy_total_score == s.legacy_total_score,
        s.after_all(args.spec_score_steps()).hitresult_generators == s.hitresult_generators,
        s.after_all(args.spec_score_steps()).hitresult_priority == s.hitresult_priority,
        s.after_all(args.spec_score_steps()).difficulty == s.difficulty,
{
    score_steps_set_the_given_scores(args, s);
}

} // verus!
