# parry

Lazy, element-wise array expressions over slices, evaluated in parallel with
`rayon`, verified with Verus.

An expression such as `E(a) * b + Constant(1)` describes a sequence of elements
without computing it. It is consumed by a reduction: `write` stores its elements
into a slice, `sum` adds them up. Evaluation cuts the expression and the reduction
into halves until the pieces are small, reduces the pieces on different threads,
and joins their results.

Layout of `src/`:

- `lib.rs`: `Length`, the `Expression` and `Reversible` traits and their model
  (`spec_length`, `spec_at`, `defined_at`), the laws about reversing and cutting,
  and `ExpressionExt` (`values`, `write`, `sum`, `zip`, `map`, `switch`, comparisons).
- `simple.rs`: the leaves: `Constant`, `E`, slices, and `Rev`.
- `iterators.rs`: the element operators (`Plus`, `Minus`, ...), `UnOp`/`BinOp`, and
  the `Unary`/`Binary` expressions that apply them.
- `compare.rs`: the comparison operators.
- `operator.rs`: `+ - * / | & ^ ! -` on expressions, and the comparison constructors.
- `raw.rs`: `Zip` and `Mapped`; `switch.rs`: `Switch` and `SwitchOn`.
- `reduce.rs`: `Reduce`, `ReduceScalar`, `Write`, `Sum` and the `Summand` integers.
- `evaluation.rs`: `evaluate` (which `sum` and `write` go through) and the cutting rule.

`app/` holds the sum, minimum and maximum of floating-point expressions, which the
verified library does not cover.
