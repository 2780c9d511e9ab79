# rosu-pp-js arguments

The rules by which JavaScript arguments of an osu! difficulty and performance
calculator become calculator settings, verified with Verus.

- `src/args/beatmap.rs`: beatmap content (bytes or a string's UTF-8 bytes), the
  arguments of a beatmap attributes builder, and the ordered builder calls they
  make.
- `src/args/performance.rs`: hitresult priority and generator codes, the
  arguments of a performance calculation and the ordered adjustments they make,
  and the choice between previously calculated attributes and a beatmap.
- `src/args/difficulty.rs`: difficulty settings and the ordered calls they make.
- `src/args/settings.rs`: a model of a performance calculator's settings, each
  step overwriting its own; laws that applying arguments twice equals applying
  them once, and that the closing settings come from the arguments alone.
- `src/attributes/beatmap.rs`: the setter-based attributes builder.
- `src/steps.rs`: optional and given steps.
- `app/`: serde and `JsValue` glue, and the code that carries out the library's
  plans on rosu-pp's builder and calculators.

Floating-point settings are carried in the library as IEEE-754 bit patterns
(`u32` for `f32`, `u64` for `f64`); `app/` converts with `to_bits` and
`from_bits`.
