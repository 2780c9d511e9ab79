use vstd::prelude::*;

use crate::args::beatmap::{BeatmapAttributesArgs, BuilderStep};
use crate::args::difficulty::{F32Bits, F64Bits};

verus! {

/// Collects the arguments of a beatmap attributes calculation, one setter at a
/// time, and lists the builder calls that they make.
///
/// Floating-point settings are given as their bit patterns.
#[derive(Debug)]
pub struct JsBeatmapAttributesBuilder<Mods, Mode, Bm> {
    args: BeatmapAttributesArgs<Mods, Mode, Bm>,
}

impl<Mods, Mode, Bm> JsBeatmapAttributesBuilder<Mods, Mode, Bm> {
    /// The arguments collected so far.
    pub closed spec fn spec_args(&self) -> BeatmapAttributesArgs<Mods, Mode, Bm> {
        self.args
    }

    /// The arguments collected so far.
    pub fn args(&self) -> (args: &BeatmapAttributesArgs<Mods, Mode, Bm>)
        ensures
            *args == self.spec_args(),
    {
        &self.args
    }

    /// The builder calls that the collected arguments make (see
    /// [`BeatmapAttributesArgs::spec_builder_steps`]).
    pub fn build(self) -> (steps: Vec<BuilderStep<Mods, Mode, Bm>>)
        ensures
            steps@ == self.spec_args().spec_builder_steps(),
    {
        self.args.into_builder()
    }

    pub fn set_clock_rate(&mut self, clock_rate: Option<F64Bits>)
        ensures
            final(self).spec_args() == (BeatmapAttributesArgs { clock_rate, ..old(self).spec_args() }),
    {
        self.args.clock_rate = clock_rate;
    }

    pub fn set_ar(&mut self, ar: Option<F32Bits>)
        ensures
            final(self).spec_args() == (BeatmapAttributesArgs { ar, ..old(self).spec_args() }),
    {
        self.args.ar = ar;
    }

    /// An unset flag is `false`.
    pub fn set_fixed_ar(&mut self, fixed: Option<bool>)
        ensures
            final(self).spec_args() == (BeatmapAttributesArgs {
                fixed_ar: fixed == Some(true),
                ..old(self).spec_args()
            }),
    {
        self.args.fixed_ar = match fixed {
            Some(b) => b,
            None => false,
        };
    }

    pub fn set_cs(&mut self, cs: Option<F32Bits>)
        ensures
            final(self).spec_args() == (BeatmapAttributesArgs { cs, ..old(self).spec_args() }),
    {
        self.args.cs = cs;
    }

    /// An unset flag is `false`.
    pub fn set_fixed_cs(&mut self, fixed: Option<bool>)
        ensures
            final(self).spec_args() == (BeatmapAttributesArgs {
                fixed_cs: fixed == Some(true),
                ..old(self).spec_args()
            }),
    {
        self.args.fixed_cs = match fixed {
            Some(b) => b,
            None => false,
        };
    }

    pub fn set_hp(&mut self, hp: Option<F32Bits>)
        ensures
            final(self).spec_args() == (BeatmapAttributesArgs { hp, ..old(self).spec_args() }),
    {
        self.args.hp = hp;
    }

    /// An unset flag is `false`.
    pub fn set_fixed_hp(&mut self, fixed: Option<bool>)
        ensures
            final(self).spec_args() == (BeatmapAttributesArgs {
                fixed_hp: fixed == Some(true),
                ..old(self).spec_args()
            }),
    {
        self.args.fixed_hp = match fixed {
            Some(b) => b,
            None => false,
        };
    }

    pub fn set_od(&mut self, od: Option<F32Bits>)
        ensures
            final(self).spec_args() == (BeatmapAttributesArgs { od, ..old(self).spec_args() }),
    {
        self.args.od = od;
    }

    /// An unset flag is `false`.
    pub fn set_fixed_od(&mut self, fixed: Option<bool>)
        ensures
            final(self).spec_args() == (BeatmapAttributesArgs {
                fixed_od: fixed == Some(true),
                ..old(self).spec_args()
            }),
    {
        self.args.fixed_od = match fixed {
            Some(b) => b,
            None => false,
        };
    }

    pub fn set_mode(&mut self, mode: Option<Mode>)
        ensures
            final(self).spec_args() == (BeatmapAttributesArgs { mode, ..old(self).spec_args() }),
    {
        self.args.mode = mode;
    }

    /// An unset flag is `false`.
    pub fn set_is_convert(&mut self, is_convert: Option<bool>)
        ensures
            final(self).spec_args() == (BeatmapAttributesArgs {
                is_convert: is_convert == Some(true),
                ..old(self).spec_args()
            }),
    {
        self.args.is_convert = match is_convert {
            Some(b) => b,
            None => false,
        };
    }

    /// An unset map removes the map.
    pub fn set_map(&mut self, map: Option<Bm>)
        ensures
            final(self).spec_args() == (BeatmapAttributesArgs { map, ..old(self).spec_args() }),
    {
        self.args.map = map;
    }
}

impl<Mods: Default, Mode, Bm> JsBeatmapAttributesBuilder<Mods, Mode, Bm> {
    /// Create a new builder from the given arguments, or from the default
    /// arguments where none are given.
    pub fn new(args: Option<BeatmapAttributesArgs<Mods, Mode, Bm>>) -> (builder: Self)
        ensures
            match args {
                Some(a) => builder.spec_args() == a,
                None => call_ensures(Mods::default, (), builder.spec_args().mods)
                    && builder.spec_args().spec_is_unset_but_mods()
                    && !builder.spec_args().fixed_ar && !builder.spec_args().fixed_cs
                    && !builder.spec_args().fixed_hp && !builder.spec_args().fixed_od
                    && !builder.spec_args().is_convert,
            },
    {
        let args = match args {
            Some(a) => a,
            None => BeatmapAttributesArgs::default(),
        };
        JsBeatmapAttributesBuilder { args }
    }

    /// Unset mods are the default mods.
    pub fn set_mods(&mut self, mods: Option<Mods>)
        ensures
            match mods {
                Some(m) => final(self).spec_args() == (BeatmapAttributesArgs {
                    mods: m,
                    ..old(self).spec_args()
                }),
                None => call_ensures(Mods::default, (), final(self).spec_args().mods)
                    && final(self).spec_args() == (BeatmapAttributesArgs {
                    mods: final(self).spec_args().mods,
                    ..old(self).spec_args()
                }),
            },
    {
        self.args.mods = match mods {
            Some(m) => m,
            None => Mods::default(),
        };
    }
}

} // verus!
