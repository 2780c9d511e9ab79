use vstd::prelude::*;
use vstd::string::*;
use vstd::utf8::*;

use super::difficulty::{F32Bits, F64Bits};
use crate::steps::{push_step, step_seq};

verus! {

/// The content of a `.osu` file, given either as bytes or as a string.
#[derive(Debug)]
pub struct BeatmapContent {
    pub bytes: Vec<u8>,
}

impl BeatmapContent {
    /// Content given as bytes is kept as it is.
    pub fn from_bytes(bytes: Vec<u8>) -> (content: BeatmapContent)
        ensures
            content.bytes@ == bytes@,
    {
        BeatmapContent { bytes }
    }

    /// Content given as a string slice becomes the string's UTF-8 bytes.
    /// The bytes are valid UTF-8 and decode back to the string.
    pub fn from_str(text: &str) -> (content: BeatmapContent)
        ensures
            content.bytes@ == encode_utf8(text@),
            valid_utf8(content.bytes@),
            decode_utf8(content.bytes@) == text@,
    {
        let content = BeatmapContent { bytes: text.as_bytes_vec() };
        proof {
            text_content_round_trips(text@, content);
        }
        content
    }

    /// Content given as an owned string becomes the string's UTF-8 bytes.
    /// The bytes are valid UTF-8 and decode back to the string.
    pub fn from_string(text: String) -> (content: BeatmapContent)
        ensures
            content.bytes@ == encode_utf8(text@),
            valid_utf8(content.bytes@),
            decode_utf8(content.bytes@) == text@,
    {
        Self::from_str(text.as_str())
    }
}

/// Content made from a string is valid UTF-8 and decodes back to that string.
pub proof fn text_content_round_trips(text: Seq<char>, content: BeatmapContent)
    requires
        content.bytes@ == encode_utf8(text),
    ensures
        valid_utf8(content.bytes@),
        decode_utf8(content.bytes@) == text,
{
    encode_utf8_valid_utf8(text);
    encode_utf8_decode_utf8(text);
}

} // verus!

verus! {

/// Arguments of a `BeatmapAttributesBuilder`.
///
/// Floating-point settings are held as their bit patterns.
#[derive(Debug)]
pub struct BeatmapAttributesArgs<Mods, Mode, Bm> {
    pub mods: Mods,
    pub clock_rate: Option<F64Bits>,
    pub ar: Option<F32Bits>,
    pub fixed_ar: bool,
    pub cs: Option<F32Bits>,
    pub fixed_cs: bool,
    pub hp: Option<F32Bits>,
    pub fixed_hp: bool,
    pub od: Option<F32Bits>,
    pub fixed_od: bool,
    pub mode: Option<Mode>,
    pub is_convert: bool,
    pub map: Option<Bm>,
}

/// One call on a beatmap attributes builder, in the order in which
/// [`BeatmapAttributesArgs::into_builder`] lists them.
#[derive(Debug)]
pub enum BuilderStep<Mods, Mode, Bm> {
    /// Specify the mods.
    Mods(Mods),
    /// Start off with the beatmap's attributes, mode, and convert status.
    Beatmap(Bm),
    /// Specify the mode and whether the map is a convert.
    Mode(Mode, bool),
    /// Specify a custom clock rate.
    ClockRate(F64Bits),
    /// Specify the approach rate, and whether it is used as is.
    Ar(F32Bits, bool),
    /// Specify the circle size, and whether it is used as is.
    Cs(F32Bits, bool),
    /// Specify the drain rate, and whether it is used as is.
    Hp(F32Bits, bool),
    /// Specify the overall difficulty, and whether it is used as is.
    Od(F32Bits, bool),
}

impl<Mods, Mode, Bm> BuilderStep<Mods, Mode, Bm> {
    /// Whether the step sets something that a map also sets: the mode, the
    /// clock rate, or one of the four difficulty values.
    pub open spec fn is_override(self) -> bool {
        !(self is Mods) && !(self is Beatmap)
    }
}

impl<Mods, Mode, Bm> BeatmapAttributesArgs<Mods, Mode, Bm> {
    /// The calls that set up a builder from these arguments, in order: the
    /// mods; the map, if one is given; the mode with the convert status, if a
    /// mode is given; then the clock rate, approach rate, circle size, drain
    /// rate, and overall difficulty, each if it is given, with its `fixed`
    /// flag.
    pub open spec fn spec_builder_steps(self) -> Seq<BuilderStep<Mods, Mode, Bm>> {
        seq![BuilderStep::<Mods, Mode, Bm>::Mods(self.mods)]
            + step_seq(match self.map { Some(m) => Some(BuilderStep::<Mods, Mode, Bm>::Beatmap(m)), None => None })
            + self.spec_override_steps()
    }

    /// The calls after the mods and the map (see
    /// [`BeatmapAttributesArgs::spec_builder_steps`]).
    pub open spec fn spec_override_steps(self) -> Seq<BuilderStep<Mods, Mode, Bm>> {
        step_seq(match self.mode { Some(m) => Some(BuilderStep::<Mods, Mode, Bm>::Mode(m, self.is_convert)), None => None })
            + step_seq(match self.clock_rate { Some(c) => Some(BuilderStep::<Mods, Mode, Bm>::ClockRate(c)), None => None })
            + step_seq(match self.ar { Some(v) => Some(BuilderStep::<Mods, Mode, Bm>::Ar(v, self.fixed_ar)), None => None })
            + step_seq(match self.cs { Some(v) => Some(BuilderStep::<Mods, Mode, Bm>::Cs(v, self.fixed_cs)), None => None })
            + step_seq(match self.hp { Some(v) => Some(BuilderStep::<Mods, Mode, Bm>::Hp(v, self.fixed_hp)), None => None })
            + step_seq(match self.od { Some(v) => Some(BuilderStep::<Mods, Mode, Bm>::Od(v, self.fixed_od)), None => None })
    }

    /// The calls that set up a beatmap attributes builder from these
    /// arguments (see [`BeatmapAttributesArgs::spec_builder_steps`]).
    pub fn into_builder(self) -> (steps: Vec<BuilderStep<Mods, Mode, Bm>>)
        ensures
            steps@ == self.spec_builder_steps(),
    {
        let ghost args = self;
        let BeatmapAttributesArgs {
            mods,
            clock_rate,
            ar,
            fixed_ar,
            cs,
            fixed_cs,
            hp,
            fixed_hp,
            od,
            fixed_od,
            mode,
            is_convert,
            map,
        } = self;
        let mut steps: Vec<BuilderStep<Mods, Mode, Bm>> = Vec::new();
        steps.push(BuilderStep::Mods(mods));
        push_step(&mut steps, match map { Some(m) => Some(BuilderStep::Beatmap(m)), None => None });
        let mut overrides: Vec<BuilderStep<Mods, Mode, Bm>> = Vec::new();
        push_step(&mut overrides, match mode { Some(m) => Some(BuilderStep::Mode(m, is_convert)), None => None });
        push_step(&mut overrides, match clock_rate { Some(c) => Some(BuilderStep::ClockRate(c)), None => None });
        push_step(&mut overrides, match ar { Some(v) => Some(BuilderStep::Ar(v, fixed_ar)), None => None });
        push_step(&mut overrides, match cs { Some(v) => Some(BuilderStep::Cs(v, fixed_cs)), None => None });
        push_step(&mut overrides, match hp { Some(v) => Some(BuilderStep::Hp(v, fixed_hp)), None => None });
        push_step(&mut overrides, match od { Some(v) => Some(BuilderStep::Od(v, fixed_od)), None => None });
        assert(overrides@ =~= args.spec_override_steps());
        assert(steps@ =~= seq![BuilderStep::<Mods, Mode, Bm>::Mods(args.mods)] + step_seq(
            match args.map { Some(m) => Some(BuilderStep::<Mods, Mode, Bm>::Beatmap(m)), None => None },
        ));
        steps.append(&mut overrides);
        steps
    }
}

} // verus!

verus! {

impl<Mods, Mode, Bm> BeatmapAttributesArgs<Mods, Mode, Bm> {
    /// Whether every setting but the mods is unset: no clock rate, map, mode,
    /// or difficulty value, and every flag `false`.
    pub open spec fn spec_is_unset_but_mods(self) -> bool {
        &&& self.clock_rate is None
        &&& self.ar is None
        &&& !self.fixed_ar
        &&& self.cs is None
        &&& !self.fixed_cs
        &&& self.hp is None
        &&& !self.fixed_hp
        &&& self.od is None
        &&& !self.fixed_od
        &&& self.mode is None
        &&& !self.is_convert
        &&& self.map is None
    }
}

impl<Mods: Default, Mode, Bm> Default for BeatmapAttributesArgs<Mods, Mode, Bm> {
    /// Default mods and nothing else set.
    fn default() -> (args: Self)
        ensures
            call_ensures(Mods::default, (), args.mods),
            args.spec_is_unset_but_mods(),
            !args.fixed_ar,
            !args.fixed_cs,
            !args.fixed_hp,
            !args.fixed_od,
            !args.is_convert,
    {
        BeatmapAttributesArgs {
            mods: Mods::default(),
            clock_rate: None,
            ar: None,
            fixed_ar: false,
            cs: None,
            fixed_cs: false,
            hp: None,
            fixed_hp: false,
            od: None,
            fixed_od: false,
            mode: None,
            is_convert: false,
            map: None,
        }
    }
}

} // verus!

verus! {

/// The mods are always the first thing handed to the builder.
pub proof fn mods_come_first<Mods, Mode, Bm>(args: BeatmapAttributesArgs<Mods, Mode, Bm>)
    ensures
        args.spec_builder_steps().len() >= 1,
        args.spec_builder_steps()[0] == BuilderStep::<Mods, Mode, Bm>::Mods(args.mods),
{
}

/// Every step after the mods and the map sets something that a map also sets.
proof fn override_steps_are_overrides<Mods, Mode, Bm>(args: BeatmapAttributesArgs<Mods, Mode, Bm>)
    ensures
        forall|k: int|
            0 <= k < args.spec_override_steps().len() ==> (#[trigger] args.spec_override_steps()[k]).is_override(),
{
    broadcast use {
        vstd::seq_lib::lemma_seq_concat_contains_all_elements,
        crate::steps::step_seq_contains,
    };

    let ov = args.spec_override_steps();
    assert forall|k: int| 0 <= k < ov.len() implies (#[trigger] ov[k]).is_override() by {
        assert(ov.contains(ov[k]));
    }
}

/// The builder starts off with the map, if one is given, and every explicit
/// setting (mode, clock rate, approach rate, circle size, drain rate, overall
/// difficulty) comes after it, so that explicit settings win over the map's.
pub proof fn map_precedes_explicit_settings<Mods, Mode, Bm>(
    args: BeatmapAttributesArgs<Mods, Mode, Bm>,
)
    ensures
        (exists|i: int|
            0 <= i < args.spec_builder_steps().len() && #[trigger] args.spec_builder_steps()[i]
                is Beatmap) <==> args.map is Some,
        forall|i: int, j: int|
            0 <= i < args.spec_builder_steps().len() && 0 <= j < args.spec_builder_steps().len()
                && (#[trigger] args.spec_builder_steps()[i] is Beatmap)
                && (#[trigger] args.spec_builder_steps()[j]).is_override() ==> i < j,
{
    override_steps_are_overrides(args);
    let steps = args.spec_builder_steps();
    let ov = args.spec_override_steps();
    let head_len: int = if args.map is Some { 2 } else { 1 };
    assert(steps.len() == head_len + ov.len());
    assert forall|k: int| head_len <= k < steps.len() implies steps[k] == ov[k - head_len] by {}
    assert forall|k: int| head_len <= k < steps.len() implies (#[trigger] steps[k]).is_override() by {
        assert(ov[k - head_len].is_override());
    }
    if let Some(m) = args.map {
        assert(steps[1] == BuilderStep::<Mods, Mode, Bm>::Beatmap(m));
    }
}

/// Each explicit setting that is given is handed to the builder with its
/// `fixed` flag (the mode with the convert status); one that is not given is
/// not handed to it.
pub proof fn explicit_settings_reach_the_builder<Mods, Mode, Bm>(
    args: BeatmapAttributesArgs<Mods, Mode, Bm>,
)
    ensures
        forall|v: F32Bits, fixed: bool|
            #![trigger args.spec_override_steps().contains(BuilderStep::Ar(v, fixed))]
            args.spec_override_steps().contains(BuilderStep::Ar(v, fixed)) <==> (args.ar == Some(v)
                && fixed == args.fixed_ar),
        forall|v: F32Bits, fixed: bool|
            #![trigger args.spec_override_steps().contains(BuilderStep::Cs(v, fixed))]
            args.spec_override_steps().contains(BuilderStep::Cs(v, fixed)) <==> (args.cs == Some(v)
                && fixed == args.fixed_cs),
        forall|v: F32Bits, fixed: bool|
            #![trigger args.spec_override_steps().contains(BuilderStep::Hp(v, fixed))]
            args.spec_override_steps().contains(BuilderStep::Hp(v, fixed)) <==> (args.hp == Some(v)
                && fixed == args.fixed_hp),
        forall|v: F32Bits, fixed: bool|
            #![trigger args.spec_override_steps().contains(BuilderStep::Od(v, fixed))]
            args.spec_override_steps().contains(BuilderStep::Od(v, fixed)) <==> (args.od == Some(v)
                && fixed == args.fixed_od),
        forall|c: F64Bits|
            #![trigger args.spec_override_steps().contains(BuilderStep::ClockRate(c))]
            args.spec_override_steps().contains(BuilderStep::ClockRate(c)) <==> args.clock_rate
                == Some(c),
        forall|m: Mode, convert: bool|
            #![trigger args.spec_override_steps().contains(BuilderStep::Mode(m, convert))]
            args.spec_override_steps().contains(BuilderStep::Mode(m, convert)) <==> (args.mode
                == Some(m) && convert == args.is_convert),
{
    broadcast use {
        vstd::seq_lib::lemma_seq_concat_contains_all_elements,
        crate::steps::step_seq_contains,
    };
}

} // verus!

verus! {

/// Arguments with nothing set but the mods (as the default arguments and a
/// builder made without arguments are) have every flag `false`: approach rate,
/// circle size, drain rate, and overall difficulty are modified by the mods,
/// and the map is no convert. No clock rate, difficulty value, mode, or map is
/// given.
pub proof fn unset_args_have_no_flags<Mods, Mode, Bm>(args: BeatmapAttributesArgs<Mods, Mode, Bm>)
    requires
        args.spec_is_unset_but_mods(),
    ensures
        args.fixed_ar == false,
        args.fixed_cs == false,
        args.fixed_hp == false,
        args.fixed_od == false,
        args.is_convert == false,
        args.clock_rate == None::<F64Bits>,
        args.ar == None::<F32Bits>,
        args.cs == None::<F32Bits>,
        args.hp == None::<F32Bits>,
        args.od == None::<F32Bits>,
        args.mode == None::<Mode>,
        args.map == None::<Bm>,
        args.spec_builder_steps() == seq![BuilderStep::<Mods, Mode, Bm>::Mods(args.mods)],
{
    assert(args.spec_override_steps() =~= Seq::<BuilderStep<Mods, Mode, Bm>>::empty());
}

} // verus!
